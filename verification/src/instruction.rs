use vstd::prelude::*;
use vstd::bytes::{spec_u32_from_le_bytes, u32_from_le_bytes};
use vstd::slice::{slice_subrange, slice_to_vec};

verus! {

/// A decoded operation request.
#[derive(Debug, Clone, PartialEq, Eq)]
pub enum MovieInstruction {
    AddMovieReview { title: Vec<u8>, rating: u8, description: Vec<u8> },
    UpdateMovieReview { title: Vec<u8>, rating: u8, description: Vec<u8> },
}

/// The mathematical value of a request.
#[verifier::ext_equal]
pub ghost enum InstructionV {
    AddMovieReview { title: Seq<u8>, rating: u8, description: Seq<u8> },
    UpdateMovieReview { title: Seq<u8>, rating: u8, description: Seq<u8> },
}

impl View for MovieInstruction {
    type V = InstructionV;

    open spec fn view(&self) -> InstructionV {
        match self {
            MovieInstruction::AddMovieReview { title, rating, description } => {
                InstructionV::AddMovieReview {
                    title: title@,
                    rating: *rating,
                    description: description@,
                }
            },
            MovieInstruction::UpdateMovieReview { title, rating, description } => {
                InstructionV::UpdateMovieReview {
                    title: title@,
                    rating: *rating,
                    description: description@,
                }
            },
        }
    }
}

/// The request that `s` encodes: a 1-byte operation discriminant, then the
/// payload fields in the schema's length-prefix convention — title behind a
/// 4-byte little-endian length, a 1-byte rating, and description behind a
/// 4-byte little-endian length. `None` when the bytes are too short, the
/// discriminant is unknown, or trailing bytes remain.
pub open spec fn spec_unpack(s: Seq<u8>) -> Option<InstructionV> {
    if s.len() < 10 {
        None
    } else if s[0] != 0 && s[0] != 1 {
        None
    } else {
        let title_len = spec_u32_from_le_bytes(s.subrange(1, 5)) as int;
        if s.len() < 10 + title_len {
            None
        } else {
            let description_len = spec_u32_from_le_bytes(
                s.subrange(6 + title_len, 10 + title_len),
            ) as int;
            if s.len() != 10 + title_len + description_len {
                None
            } else {
                let title = s.subrange(5, 5 + title_len);
                let rating = s[5 + title_len];
                let description = s.subrange(10 + title_len, 10 + title_len + description_len);
                if s[0] == 0 {
                    Some(InstructionV::AddMovieReview { title, rating, description })
                } else {
                    Some(InstructionV::UpdateMovieReview { title, rating, description })
                }
            }
        }
    }
}

impl MovieInstruction {
    /// Decodes an operation request from its wire bytes.
    pub fn unpack(data: &[u8]) -> (r: Option<MovieInstruction>)
        ensures
            match r {
                Some(ins) => spec_unpack(data@) == Some(ins@),
                None => spec_unpack(data@) is None,
            },
    {
        let n = data.len();
        if n < 10 {
            return None;
        }
        let discriminant = data[0];
        if discriminant != 0 && discriminant != 1 {
            return None;
        }
        let title_len = u32_from_le_bytes(slice_subrange(data, 1, 5)) as usize;
        if title_len > n - 10 {
            return None;
        }
        let title = slice_to_vec(slice_subrange(data, 5, 5 + title_len));
        let rating = data[5 + title_len];
        let description_len = u32_from_le_bytes(
            slice_subrange(data, 6 + title_len, 10 + title_len),
        ) as usize;
        if description_len != n - 10 - title_len {
            return None;
        }
        let description = slice_to_vec(
            slice_subrange(data, 10 + title_len, 10 + title_len + description_len),
        );
        if discriminant == 0 {
            Some(MovieInstruction::AddMovieReview { title, rating, description })
        } else {
            Some(MovieInstruction::UpdateMovieReview { title, rating, description })
        }
    }
}

} // verus!
