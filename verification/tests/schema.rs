use movie_review::state::{Identity, MovieAccountState};

fn record(rating: u8, title: &[u8], description: &[u8]) -> MovieAccountState {
    MovieAccountState {
        is_initialized: true,
        reviewer: Identity([7u8; 32]),
        rating,
        title: title.to_vec(),
        description: description.to_vec(),
    }
}

#[test]
fn serialize_exact_bytes() {
    let rec = record(4, b"Dune", b"Epic");
    let mut expected: Vec<u8> = Vec::new();
    expected.push(1);
    expected.extend_from_slice(&[7u8; 32]);
    expected.push(4);
    expected.extend_from_slice(&[4, 0, 0, 0]);
    expected.extend_from_slice(b"Dune");
    expected.extend_from_slice(&[4, 0, 0, 0]);
    expected.extend_from_slice(b"Epic");
    assert_eq!(rec.serialize(), expected);
}

#[test]
fn serialize_length_matches_account_size() {
    let title = b"The Matrix".to_vec();
    let description = b"Mind-bending".to_vec();
    let rec = record(5, &title, &description);
    let size = MovieAccountState::get_account_size(&title, &description);
    assert_eq!(rec.serialize().len(), size);
    assert_eq!(size, 1 + 32 + 1 + 4 + 10 + 4 + 12);
}

#[test]
fn account_size_exact_value() {
    let title = b"Dune".to_vec();
    let description = b"Great".to_vec();
    assert_eq!(MovieAccountState::get_account_size(&title, &description), 51);
}

#[test]
fn round_trip_returns_the_record() {
    let rec = record(3, b"Alien", b"Scary and slow");
    let bytes = rec.serialize();
    let back = MovieAccountState::try_from_slice(&bytes).unwrap();
    assert_eq!(back, rec);
}

#[test]
fn round_trip_uninitialized_record() {
    let mut rec = record(1, b"", b"");
    rec.is_initialized = false;
    let bytes = rec.serialize();
    assert_eq!(bytes.len(), 42);
    let back = MovieAccountState::try_from_slice(&bytes).unwrap();
    assert_eq!(back, rec);
}

#[test]
fn deserialize_rejects_short_input() {
    assert!(MovieAccountState::try_from_slice(&[0u8; 41]).is_none());
    assert!(MovieAccountState::try_from_slice(&[]).is_none());
}

#[test]
fn deserialize_rejects_bad_flag_byte() {
    let mut bytes = record(2, b"Up", b"").serialize();
    bytes[0] = 2;
    assert!(MovieAccountState::try_from_slice(&bytes).is_none());
}

#[test]
fn deserialize_rejects_trailing_bytes() {
    let mut bytes = record(2, b"Up", b"Nice").serialize();
    bytes.push(0);
    assert!(MovieAccountState::try_from_slice(&bytes).is_none());
}

#[test]
fn deserialize_rejects_overlong_declared_length() {
    let mut bytes = record(2, b"Up", b"Nice").serialize();
    // Declare a title longer than the buffer can hold.
    bytes[34] = 0xff;
    bytes[35] = 0xff;
    assert!(MovieAccountState::try_from_slice(&bytes).is_none());
}

#[test]
fn layout_agrees_with_borsh_encoding() {
    let rec = record(4, b"Dune", b"Epic");
    let as_tuple = (
        true,
        [7u8; 32],
        4u8,
        String::from("Dune"),
        String::from("Epic"),
    );
    let theirs = borsh::to_vec(&as_tuple).unwrap();
    assert_eq!(rec.serialize(), theirs);
}

#[test]
fn layout_agrees_with_borsh_decoding() {
    let rec = record(5, b"Arrival", b"Quiet");
    let bytes = rec.serialize();
    let decoded: (bool, [u8; 32], u8, String, String) = borsh::from_slice(&bytes).unwrap();
    assert_eq!(decoded.0, true);
    assert_eq!(decoded.1, [7u8; 32]);
    assert_eq!(decoded.2, 5);
    assert_eq!(decoded.3, "Arrival");
    assert_eq!(decoded.4, "Quiet");
}

#[test]
fn identity_eq_bytes() {
    let a = Identity([1u8; 32]);
    let b = Identity([1u8; 32]);
    let mut c_bytes = [1u8; 32];
    c_bytes[31] = 2;
    let c = Identity(c_bytes);
    assert!(a.eq_bytes(&b));
    assert!(!a.eq_bytes(&c));
}

#[test]
fn is_initialized_reads_the_flag() {
    let mut rec = record(1, b"Up", b"");
    assert!(rec.is_initialized());
    rec.is_initialized = false;
    assert!(!rec.is_initialized());
}
