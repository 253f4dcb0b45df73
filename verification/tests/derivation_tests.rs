use twitter::address::{derive_comment_address, derive_reaction_address, Address};

fn addr(seed: u8) -> Address {
    Address::from_bytes(vec![seed; 32])
}

#[test]
fn reaction_derivation_is_deterministic() {
    let first = derive_reaction_address(&addr(1), &addr(2), &addr(9)).expect("should derive");
    let second = derive_reaction_address(&addr(1), &addr(2), &addr(9)).expect("should derive");
    assert_eq!(first.0.bytes, second.0.bytes);
    assert_eq!(first.1, second.1);
}

#[test]
fn comment_derivation_is_deterministic() {
    let content = b"hello".to_vec();
    let first =
        derive_comment_address(&addr(1), &content, &addr(2), &addr(9)).expect("should derive");
    let second =
        derive_comment_address(&addr(1), &content, &addr(2), &addr(9)).expect("should derive");
    assert_eq!(first.0.bytes, second.0.bytes);
    assert_eq!(first.1, second.1);
}

#[test]
fn derived_addresses_are_32_bytes() {
    let reaction = derive_reaction_address(&addr(1), &addr(2), &addr(9)).expect("should derive");
    assert_eq!(reaction.0.bytes.len(), 32);
    let comment = derive_comment_address(&addr(1), &b"hello".to_vec(), &addr(2), &addr(9))
        .expect("should derive");
    assert_eq!(comment.0.bytes.len(), 32);
}

#[test]
fn derivation_depends_on_the_author() {
    let one = derive_reaction_address(&addr(1), &addr(2), &addr(9)).expect("should derive");
    let two = derive_reaction_address(&addr(3), &addr(2), &addr(9)).expect("should derive");
    assert_ne!(one.0.bytes, two.0.bytes);
}

#[test]
fn derivation_depends_on_the_parent() {
    let one = derive_reaction_address(&addr(1), &addr(2), &addr(9)).expect("should derive");
    let two = derive_reaction_address(&addr(1), &addr(5), &addr(9)).expect("should derive");
    assert_ne!(one.0.bytes, two.0.bytes);
}

#[test]
fn derivation_depends_on_the_content() {
    let one = derive_comment_address(&addr(1), &b"hello".to_vec(), &addr(2), &addr(9))
        .expect("should derive");
    let two = derive_comment_address(&addr(1), &b"hullo".to_vec(), &addr(2), &addr(9))
        .expect("should derive");
    assert_ne!(one.0.bytes, two.0.bytes);
}

#[test]
fn comment_and_reaction_namespaces_differ() {
    let reaction = derive_reaction_address(&addr(1), &addr(2), &addr(9)).expect("should derive");
    let comment = derive_comment_address(&addr(1), &b"hello".to_vec(), &addr(2), &addr(9))
        .expect("should derive");
    assert_ne!(reaction.0.bytes, comment.0.bytes);
}
