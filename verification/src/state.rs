use vstd::prelude::*;
use vstd::bytes::{
    lemma_auto_spec_u32_to_from_le_bytes, spec_u32_from_le_bytes, spec_u32_to_le_bytes,
    u32_from_le_bytes, u32_to_le_bytes,
};
use vstd::slice::{slice_subrange, slice_to_vec};

verus! {

/// A fixed-width identity: a public key of the host ledger, an account
/// address, or this program's own id. Always exactly 32 bytes.
#[derive(Debug, Clone, Copy, PartialEq, Eq)]
pub struct Identity(pub [u8; 32]);

impl View for Identity {
    type V = Seq<u8>;

    open spec fn view(&self) -> Seq<u8> {
        self.0@
    }
}

impl Identity {
    /// Byte-for-byte comparison of two identities.
    pub fn eq_bytes(&self, other: &Identity) -> (r: bool)
        ensures
            r == (self@ == other@),
    {
        let mut i: usize = 0;
        while i < 32
            invariant
                0 <= i <= 32,
                forall|j: int| 0 <= j < i ==> self@[j] == other@[j],
            decreases 32 - i,
        {
            if self.0[i] != other.0[i] {
                assert(self@[i as int] != other@[i as int]);
                return false;
            }
            i = i + 1;
        }
        assert(self@ =~= other@);
        true
    }
}

/// The mathematical value of a stored record: what the byte layout encodes.
#[verifier::ext_equal]
pub ghost struct RecordV {
    pub initialized: bool,
    pub reviewer: Seq<u8>,
    pub rating: u8,
    pub title: Seq<u8>,
    pub description: Seq<u8>,
}

impl RecordV {
    /// A record that can actually be laid out on disk: the owner is a
    /// full identity and each text field fits behind a 4-byte length prefix.
    pub open spec fn wf(self) -> bool {
        &&& self.reviewer.len() == 32
        &&& self.title.len() <= u32::MAX
        &&& self.description.len() <= u32::MAX
    }
}

/// One movie review, as stored in its slot.
#[derive(Debug, Clone, PartialEq, Eq)]
pub struct MovieAccountState {
    pub is_initialized: bool,
    pub reviewer: Identity,
    pub rating: u8,
    pub title: Vec<u8>,
    pub description: Vec<u8>,
}

impl View for MovieAccountState {
    type V = RecordV;

    open spec fn view(&self) -> RecordV {
        RecordV {
            initialized: self.is_initialized,
            reviewer: self.reviewer@,
            rating: self.rating,
            title: self.title@,
            description: self.description@,
        }
    }
}

/// Exact byte count of the serialized record for the given field lengths:
/// flag (1) + owner (32) + rating (1) + two length-prefixed texts (4 + n each).
pub open spec fn account_size(title_len: nat, description_len: nat) -> int {
    1 + 32 + 1 + (4 + title_len as int) + (4 + description_len as int)
}

impl MovieAccountState {
    pub fn get_account_size(title: &Vec<u8>, description: &Vec<u8>) -> (size: usize)
        requires
            account_size(title@.len(), description@.len()) <= usize::MAX,
        ensures
            size == account_size(title@.len(), description@.len()),
    {
        1 + 32 + 1 + (4 + title.len()) + (4 + description.len())
    }

    /// Reads the initialization flag: distinguishes "slot decodes but was
    /// never created" from "slot holds a live record".
    pub fn is_initialized(&self) -> (r: bool)
        ensures
            r == self.is_initialized,
    {
        self.is_initialized
    }

    /// Encodes the record in the fixed binary layout: flag, owner,
    /// rating, then title and description each behind a 4-byte
    /// little-endian length prefix.
    pub fn serialize(&self) -> (out: Vec<u8>)
        requires
            self@.wf(),
        ensures
            out@ == spec_serialize(self@),
    {
        let mut out: Vec<u8> = Vec::new();
        out.push(if self.is_initialized { 1u8 } else { 0u8 });
        push_bytes(&mut out, self.reviewer.0.as_slice());
        out.push(self.rating);
        let title_len_bytes = u32_to_le_bytes(self.title.len() as u32);
        push_bytes(&mut out, title_len_bytes.as_slice());
        push_bytes(&mut out, self.title.as_slice());
        let description_len_bytes = u32_to_le_bytes(self.description.len() as u32);
        push_bytes(&mut out, description_len_bytes.as_slice());
        push_bytes(&mut out, self.description.as_slice());
        assert(out@ =~= spec_serialize(self@));
        out
    }

    /// Decodes a record from the fixed binary layout. Returns `None` when
    /// the bytes are too short for a declared length, when the flag byte is
    /// not a boolean, or when trailing bytes remain.
    pub fn try_from_slice(data: &[u8]) -> (r: Option<MovieAccountState>)
        ensures
            match r {
                Some(rec) => spec_deserialize(data@) == Some(rec@),
                None => spec_deserialize(data@) is None,
            },
    {
        let n = data.len();
        if n < 42 {
            return None;
        }
        let flag = data[0];
        if flag != 0 && flag != 1 {
            return None;
        }
        let mut reviewer = [0u8; 32];
        let mut i: usize = 0;
        while i < 32
            invariant
                i <= 32,
                n == data@.len(),
                n >= 42,
                forall|j: int| 0 <= j < i ==> reviewer@[j] == data@[1 + j],
            decreases 32 - i,
        {
            reviewer[i] = data[1 + i];
            i = i + 1;
        }
        assert(reviewer@ =~= data@.subrange(1, 33));
        let rating = data[33];
        let title_len = u32_from_le_bytes(slice_subrange(data, 34, 38)) as usize;
        if title_len > n - 42 {
            return None;
        }
        let title = slice_to_vec(slice_subrange(data, 38, 38 + title_len));
        let description_len = u32_from_le_bytes(
            slice_subrange(data, 38 + title_len, 42 + title_len),
        ) as usize;
        if description_len != n - 42 - title_len {
            return None;
        }
        let description = slice_to_vec(
            slice_subrange(data, 42 + title_len, 42 + title_len + description_len),
        );
        Some(MovieAccountState { is_initialized: flag == 1, reviewer: Identity(reviewer), rating, title, description })
    }
}

/// Appends every byte of `src` to `out`, in order.
fn push_bytes(out: &mut Vec<u8>, src: &[u8])
    ensures
        final(out)@ == old(out)@ + src@,
{
    let mut i: usize = 0;
    while i < src.len()
        invariant
            i <= src@.len(),
            out@ == old(out)@ + src@.subrange(0, i as int),
        decreases src@.len() - i,
    {
        out.push(src[i]);
        assert(out@ =~= old(out)@ + src@.subrange(0, i + 1 as int));
        i = i + 1;
    }
    assert(src@.subrange(0, src@.len() as int) =~= src@);
}

/// The byte string that encodes `v`: flag, owner, rating, then the two
/// length-prefixed text fields.
pub open spec fn spec_serialize(v: RecordV) -> Seq<u8> {
    seq![if v.initialized { 1u8 } else { 0u8 }] + v.reviewer + seq![v.rating]
        + spec_u32_to_le_bytes(v.title.len() as u32) + v.title
        + spec_u32_to_le_bytes(v.description.len() as u32) + v.description
}

/// The record that `s` encodes, or `None` when `s` is not an encoding:
/// too short for a declared length, a flag byte that is not a boolean,
/// or trailing bytes after the last field.
pub open spec fn spec_deserialize(s: Seq<u8>) -> Option<RecordV> {
    if s.len() < 42 {
        None
    } else if s[0] != 0 && s[0] != 1 {
        None
    } else {
        let title_len = spec_u32_from_le_bytes(s.subrange(34, 38)) as int;
        if s.len() < 42 + title_len {
            None
        } else {
            let description_len = spec_u32_from_le_bytes(
                s.subrange(38 + title_len, 42 + title_len),
            ) as int;
            if s.len() != 42 + title_len + description_len {
                None
            } else {
                Some(RecordV {
                    initialized: s[0] == 1,
                    reviewer: s.subrange(1, 33),
                    rating: s[33],
                    title: s.subrange(38, 38 + title_len),
                    description: s.subrange(42 + title_len, 42 + title_len + description_len),
                })
            }
        }
    }
}

/// The size function agrees exactly with the layout: a record with these
/// field lengths serializes to exactly `account_size` bytes.
pub proof fn lemma_account_size_matches_serialize(v: RecordV)
    requires
        v.wf(),
    ensures
        spec_serialize(v).len() == account_size(v.title.len(), v.description.len()),
{
    lemma_auto_spec_u32_to_from_le_bytes();
}

/// Round trip: decoding an encoded record gives the record back, for every
/// well-formed record.
pub proof fn lemma_round_trip(v: RecordV)
    requires
        v.wf(),
    ensures
        spec_deserialize(spec_serialize(v)) == Some(v),
{
    lemma_auto_spec_u32_to_from_le_bytes();
    let s = spec_serialize(v);
    let title_len = v.title.len() as int;
    let description_len = v.description.len() as int;
    assert(s.len() == 42 + title_len + description_len);
    assert(s.subrange(34, 38) =~= spec_u32_to_le_bytes(v.title.len() as u32));
    assert(spec_u32_from_le_bytes(s.subrange(34, 38)) as int == title_len);
    assert(s.subrange(38 + title_len, 42 + title_len) =~= spec_u32_to_le_bytes(
        v.description.len() as u32,
    ));
    assert(spec_u32_from_le_bytes(s.subrange(38 + title_len, 42 + title_len)) as int
        == description_len);
    assert(s.subrange(1, 33) =~= v.reviewer);
    assert(s.subrange(38, 38 + title_len) =~= v.title);
    assert(s.subrange(42 + title_len, 42 + title_len + description_len) =~= v.description);
    assert(s[0] == if v.initialized { 1u8 } else { 0u8 });
    assert(s[33] == v.rating);
    assert(spec_deserialize(s)->0 =~= v);
}

} // verus!
