use movie_review::instruction::MovieInstruction;

fn pack(discriminant: u8, title: &[u8], rating: u8, description: &[u8]) -> Vec<u8> {
    let mut out = vec![discriminant];
    out.extend_from_slice(&(title.len() as u32).to_le_bytes());
    out.extend_from_slice(title);
    out.push(rating);
    out.extend_from_slice(&(description.len() as u32).to_le_bytes());
    out.extend_from_slice(description);
    out
}

#[test]
fn unpack_add_request() {
    let bytes = pack(0, b"Dune", 5, b"Great");
    let ins = MovieInstruction::unpack(&bytes).unwrap();
    match ins {
        MovieInstruction::AddMovieReview { title, rating, description } => {
            assert_eq!(title, b"Dune".to_vec());
            assert_eq!(rating, 5);
            assert_eq!(description, b"Great".to_vec());
        }
        MovieInstruction::UpdateMovieReview { .. } => panic!("wrong operation"),
    }
}

#[test]
fn unpack_update_request() {
    let bytes = pack(1, b"Dune", 3, b"Still good");
    let ins = MovieInstruction::unpack(&bytes).unwrap();
    match ins {
        MovieInstruction::UpdateMovieReview { title, rating, description } => {
            assert_eq!(title, b"Dune".to_vec());
            assert_eq!(rating, 3);
            assert_eq!(description, b"Still good".to_vec());
        }
        MovieInstruction::AddMovieReview { .. } => panic!("wrong operation"),
    }
}

#[test]
fn unpack_empty_texts() {
    let bytes = pack(0, b"", 1, b"");
    assert_eq!(bytes.len(), 10);
    let ins = MovieInstruction::unpack(&bytes).unwrap();
    match ins {
        MovieInstruction::AddMovieReview { title, rating, description } => {
            assert_eq!(title, Vec::<u8>::new());
            assert_eq!(rating, 1);
            assert_eq!(description, Vec::<u8>::new());
        }
        MovieInstruction::UpdateMovieReview { .. } => panic!("wrong operation"),
    }
}

#[test]
fn unpack_rejects_unknown_discriminant() {
    let bytes = pack(2, b"Dune", 5, b"Great");
    assert!(MovieInstruction::unpack(&bytes).is_none());
}

#[test]
fn unpack_rejects_short_input() {
    assert!(MovieInstruction::unpack(&[]).is_none());
    assert!(MovieInstruction::unpack(&[0u8; 9]).is_none());
}

#[test]
fn unpack_rejects_trailing_bytes() {
    let mut bytes = pack(1, b"Dune", 3, b"Still good");
    bytes.push(0);
    assert!(MovieInstruction::unpack(&bytes).is_none());
}

#[test]
fn unpack_rejects_overlong_declared_title() {
    let mut bytes = pack(0, b"Dune", 5, b"Great");
    bytes[1] = 0xff;
    bytes[2] = 0xff;
    assert!(MovieInstruction::unpack(&bytes).is_none());
}
