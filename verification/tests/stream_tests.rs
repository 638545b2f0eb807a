use std::collections::HashMap;

use llm_engine_endpoint::stream::TokenOutputStream;
use tokenizers::models::wordlevel::WordLevel;
use tokenizers::Tokenizer;

fn make_tokenizer() -> Tokenizer {
    let mut vocab: HashMap<String, u32> = HashMap::new();
    vocab.insert("Hello".to_string(), 0);
    vocab.insert("world".to_string(), 1);
    vocab.insert("</s>".to_string(), 2);
    vocab.insert("again".to_string(), 3);
    let model = WordLevel::builder()
        .vocab(vocab.into_iter().collect())
        .unk_token("Hello".to_string())
        .build()
        .unwrap();
    Tokenizer::new(model)
}

fn feed_all(stream: &mut TokenOutputStream, ids: &[u32]) -> Vec<String> {
    let mut fragments = Vec::new();
    for &id in ids {
        if let Some(fragment) = stream.next_token(id).unwrap() {
            fragments.push(fragment);
        }
    }
    fragments
}

#[test]
fn round_trip_concatenation_matches_full_decode() {
    let tokenizer = make_tokenizer();
    let ids = vec![0u32, 1, 3];
    let expected = tokenizer.decode(&ids, true).unwrap();
    let mut stream = TokenOutputStream::new(tokenizer);
    let fragments = feed_all(&mut stream, &ids);
    let joined: String = fragments.concat();
    assert_eq!(joined, expected);
    assert_eq!(joined, "Hello world again");
}

#[test]
fn replay_after_clear_reproduces_fragments() {
    let tokenizer = make_tokenizer();
    let ids = vec![1u32, 3, 0, 1];
    let mut stream = TokenOutputStream::new(tokenizer);
    let first = feed_all(&mut stream, &ids);
    stream.clear();
    let second = feed_all(&mut stream, &ids);
    assert_eq!(first, second);
    assert!(!first.is_empty());
}

#[test]
fn two_streams_same_tokenizer_agree() {
    let ids = vec![3u32, 3, 1];
    let mut a = TokenOutputStream::new(make_tokenizer());
    let mut b = TokenOutputStream::new(make_tokenizer());
    assert_eq!(feed_all(&mut a, &ids), feed_all(&mut b, &ids));
}

#[test]
fn unknown_id_yields_no_fragment() {
    // An id outside the vocabulary decodes to nothing, so the rendering does
    // not grow and the stream withholds a fragment.
    let tokenizer = make_tokenizer();
    let mut stream = TokenOutputStream::new(tokenizer);
    let fragment = stream.next_token(999).unwrap();
    assert_eq!(fragment, None);
    let fragment = stream.next_token(1).unwrap();
    assert_eq!(fragment, Some("world".to_string()));
}

#[test]
fn multibyte_unit_is_withheld_until_complete() {
    // The two ids decode, byte by byte, to the two UTF-8 bytes of 'é'. After
    // the first id the rendering ends in a replacement character, so the
    // stream withholds; the second id completes the character and the whole
    // unit is emitted at once.
    let mut vocab: HashMap<String, u32> = HashMap::new();
    vocab.insert("\u{C3}".to_string(), 0);
    vocab.insert("\u{A9}".to_string(), 1);
    let model = WordLevel::builder().vocab(vocab.into_iter().collect()).build().unwrap();
    let mut tokenizer = Tokenizer::new(model);
    tokenizer.with_decoder(Some(tokenizers::pre_tokenizers::byte_level::ByteLevel::default()));
    assert_eq!(tokenizer.decode(&[0, 1], true).unwrap(), "é");
    let mut stream = TokenOutputStream::new(tokenizer);
    assert_eq!(stream.next_token(0).unwrap(), None);
    assert_eq!(stream.next_token(1).unwrap(), Some("é".to_string()));
}

#[test]
fn get_token_resolves_vocabulary_entries() {
    let tokenizer = make_tokenizer();
    let stream = TokenOutputStream::new(tokenizer);
    assert_eq!(stream.get_token("</s>"), Some(2));
    assert_eq!(stream.get_token("absent"), None);
}
