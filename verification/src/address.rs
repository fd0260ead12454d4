use vstd::prelude::*;
use crate::state::Identity;

verus! {

/// The (address, bump) pair that the host's program-derived-address search
/// yields for the seeds `(owner, title)` under `program`, or `None` in the
/// statistically improbable case that no bump byte lands off-curve. The
/// search is a pure function of its arguments, which is what lets Update
/// re-derive and validate the address that Create bound the record to.
pub uninterp spec fn derived_address(owner: Seq<u8>, title: Seq<u8>, program: Seq<u8>) -> Option<
    (Seq<u8>, u8),
>;

/// Relies on solana_program::pubkey::Pubkey::try_find_program_address: a
/// deterministic hash-based search over the seeds, the bump byte and the
/// program id, so the same arguments always yield the same result.
#[verifier::external_body]
fn find_derived_address(owner: &Identity, title: &[u8], program: &Identity) -> (r: Option<
    (Identity, u8),
>)
    ensures
        match r {
            Some(p) => derived_address(owner@, title@, program@) == Some((p.0@, p.1)),
            None => derived_address(owner@, title@, program@) is None,
        },
{
    let program_id = solana_program::pubkey::Pubkey::new_from_array(program.0);
    match solana_program::pubkey::Pubkey::try_find_program_address(
        &[&owner.0, title],
        &program_id,
    ) {
        Some((address, bump)) => Some((Identity(address.to_bytes()), bump)),
        None => None,
    }
}

/// Derives the storage address bound to `(owner, title)` under `program`,
/// with the bump byte that proves entitlement to it. The result is pinned
/// to a function of the arguments alone, so repeated calls — at Create, at
/// Update, or in a client — always agree.
pub fn derive_address(owner: &Identity, title: &Vec<u8>, program: &Identity) -> (r: Option<
    (Identity, u8),
>)
    ensures
        match r {
            Some(p) => derived_address(owner@, title@, program@) == Some((p.0@, p.1)),
            None => derived_address(owner@, title@, program@) is None,
        },
{
    find_derived_address(owner, title.as_slice(), program)
}

} // verus!
