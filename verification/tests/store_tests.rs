use hashd::session::{require_key, LedgerSession};
use hashd::store::{concatenate_merge, TagIndex};
use hashd::HashdError;

#[test]
fn merge_starts_fresh_without_old_value() {
    let merged = concatenate_merge(b"tag", None, b"abc");
    assert_eq!(merged, Some(b"abc".to_vec()));
}

#[test]
fn merge_concatenates_onto_old_value() {
    let merged = concatenate_merge(b"tag", Some(b"abc"), b"def");
    assert_eq!(merged, Some(b"abcdef".to_vec()));
}

#[test]
fn merge_keeps_empty_pieces() {
    assert_eq!(concatenate_merge(b"tag", None, b""), Some(Vec::new()));
    assert_eq!(concatenate_merge(b"tag", Some(b""), b"x"), Some(b"x".to_vec()));
    assert_eq!(concatenate_merge(b"tag", Some(b"x"), b""), Some(b"x".to_vec()));
}

#[test]
fn appends_accumulate_in_order() {
    let mut index = TagIndex::new();
    index.append(b"tag", b"first");
    index.append(b"tag", b"second");
    assert_eq!(index.read(b"tag"), b"firstsecond".to_vec());
}

#[test]
fn appends_accumulate_empty_pieces() {
    let mut index = TagIndex::new();
    index.append(b"tag", b"");
    index.append(b"tag", b"x");
    index.append(b"tag", b"");
    assert_eq!(index.read(b"tag"), b"x".to_vec());
}

#[test]
fn duplicate_appends_are_kept() {
    let mut index = TagIndex::new();
    index.append(b"tag", b"dup");
    index.append(b"tag", b"dup");
    assert_eq!(index.read(b"tag"), b"dupdup".to_vec());
}

#[test]
fn tags_do_not_interfere() {
    let mut index = TagIndex::new();
    index.append(b"alpha", b"aa");
    index.append(b"beta", b"bb");
    index.append(b"alpha", b"cc");
    assert_eq!(index.read(b"alpha"), b"aacc".to_vec());
    assert_eq!(index.read(b"beta"), b"bb".to_vec());
}

#[test]
fn unwritten_tag_reads_empty() {
    let index = TagIndex::new();
    assert_eq!(index.read(b"nothing"), Vec::<u8>::new());

    let mut touched = TagIndex::new();
    touched.append(b"other", b"data");
    assert_eq!(touched.read(b"nothing"), Vec::<u8>::new());
}

#[test]
fn set_then_get_returns_exact_message() {
    let mut session = LedgerSession::new();
    let sig = [0x42u8; 64];
    let (hash, nonce) = session.set(&sig, b"hello", b"greeting", 0).unwrap();
    assert_eq!(hash.len(), 32);
    assert_eq!(nonce, 0);
    assert_eq!(session.get(b"greeting"), b"hello".to_vec());
    assert_eq!(session.get_text(b"greeting"), Ok("hello".to_string()));
}

#[test]
fn two_sets_concatenate_without_separator() {
    let mut session = LedgerSession::new();
    let sig = [0x42u8; 64];
    session.set(&sig, b"hello", b"greeting", 0).unwrap();
    session.set(&sig, b"world", b"greeting", 0).unwrap();
    assert_eq!(session.get_text(b"greeting"), Ok("helloworld".to_string()));
}

#[test]
fn set_proves_work_before_appending() {
    let mut session = LedgerSession::new();
    let sig = [0x99u8; 64];
    let (hash, nonce) = session.set(&sig, b"msg", b"t", 6).unwrap();
    assert!(hashd::gate::satisfies(&hash, 6));
    assert_eq!(hash, hashd::engine::pow_digest(&sig, nonce));
    assert_eq!(session.get(b"t"), b"msg".to_vec());
}

#[test]
fn set_with_bad_difficulty_leaves_index_unmodified() {
    let mut session = LedgerSession::new();
    let sig = [0x42u8; 64];
    let r = session.set(&sig, b"hello", b"greeting", 257);
    assert_eq!(r, Err(HashdError::InvalidDifficulty));
    assert_eq!(session.get(b"greeting"), Vec::<u8>::new());
}

#[test]
fn get_on_unwritten_tag_is_empty_not_an_error() {
    let session = LedgerSession::new();
    assert_eq!(session.get(b"missing"), Vec::<u8>::new());
    assert_eq!(session.get_text(b"missing"), Ok(String::new()));
}

#[test]
fn non_text_bytes_are_an_encoding_error() {
    let mut session = LedgerSession::new();
    let sig = [0x42u8; 8];
    let bad = [0xFFu8, 0xFE, 0x00];
    session.set(&sig, &bad, b"blob", 0).unwrap();
    assert_eq!(session.get_text(b"blob"), Err(HashdError::EncodingError));
    // The bytes themselves stay intact; only the display decoding fails.
    assert_eq!(session.get(b"blob"), bad.to_vec());
}

#[test]
fn missing_key_is_reported() {
    assert_eq!(require_key(None), Err(HashdError::KeyNotFound));
    assert_eq!(require_key(Some(b"key".to_vec())), Ok(b"key".to_vec()));
}
