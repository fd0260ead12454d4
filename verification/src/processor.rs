use vstd::prelude::*;
use crate::address::{derive_address, derived_address};
use crate::error::ReviewError;
use crate::instruction::{InstructionV, MovieInstruction};
use crate::instruction::spec_unpack;
use crate::state::{account_size, spec_deserialize, spec_serialize};
use crate::state::{Identity, MovieAccountState, RecordV};

verus! {

/// Fixed byte capacity of every record slot: chosen at Create, never
/// resized. A record only fits if `account_size` stays within it.
pub const ACCOUNT_CAPACITY: usize = 1000;

/// What a successful Create asks the host to do: allocate a slot of
/// `space` bytes at `address` — proving entitlement with the seeds and
/// `bump` — then store `data` in it.
#[derive(Debug, Clone, PartialEq, Eq)]
pub struct CreateAction {
    pub address: Identity,
    pub bump: u8,
    pub space: usize,
    pub data: Vec<u8>,
}

/// The mathematical value of a Create effect.
#[verifier::ext_equal]
pub ghost struct CreateActionV {
    pub address: Seq<u8>,
    pub bump: u8,
    pub space: int,
    pub data: Seq<u8>,
}

impl View for CreateAction {
    type V = CreateActionV;

    open spec fn view(&self) -> CreateActionV {
        CreateActionV {
            address: self.address@,
            bump: self.bump,
            space: self.space as int,
            data: self.data@,
        }
    }
}

/// The effect of a dispatched operation: allocate-and-write for Create,
/// overwrite-in-place for Update.
#[derive(Debug, Clone, PartialEq, Eq)]
pub enum Action {
    Create(CreateAction),
    Write(Vec<u8>),
}

/// The mathematical value of an effect.
#[verifier::ext_equal]
pub ghost enum ActionV {
    Create(CreateActionV),
    Write(Seq<u8>),
}

impl View for Action {
    type V = ActionV;

    open spec fn view(&self) -> ActionV {
        match self {
            Action::Create(action) => ActionV::Create(action@),
            Action::Write(data) => ActionV::Write(data@),
        }
    }
}

/// The outcome Create owes for these inputs, checked in order: the caller
/// must have signed for the owner; the slot must sit at the address derived
/// from (owner, title); a non-empty slot must decode and must not already be
/// initialized; the rating must lie in 1..=5; and the record must fit the
/// fixed capacity. Only then is the effect an allocation of the full
/// capacity at the derived address, holding the record marked initialized.
pub open spec fn spec_create(
    program: Seq<u8>,
    reviewer: Seq<u8>,
    reviewer_is_signer: bool,
    slot_address: Seq<u8>,
    slot_data: Seq<u8>,
    title: Seq<u8>,
    rating: u8,
    description: Seq<u8>,
) -> Result<CreateActionV, ReviewError> {
    if !reviewer_is_signer {
        Err(ReviewError::Unauthorized)
    } else {
        match derived_address(reviewer, title, program) {
            None => Err(ReviewError::AddressMismatch),
            Some((address, bump)) => {
                if address != slot_address {
                    Err(ReviewError::AddressMismatch)
                } else if slot_data.len() > 0 && spec_deserialize(slot_data) is None {
                    Err(ReviewError::CorruptState)
                } else if slot_data.len() > 0 && spec_deserialize(slot_data)->0.initialized {
                    Err(ReviewError::AlreadyInitialized)
                } else if rating < 1 || rating > 5 {
                    Err(ReviewError::InvalidRating)
                } else if account_size(title.len(), description.len()) > ACCOUNT_CAPACITY as int {
                    Err(ReviewError::RecordTooLarge)
                } else {
                    Ok(CreateActionV {
                        address,
                        bump,
                        space: ACCOUNT_CAPACITY as int,
                        data: spec_serialize(
                            RecordV { initialized: true, reviewer, rating, title, description },
                        ),
                    })
                }
            },
        }
    }
}

/// The outcome Update owes for these inputs, checked in order: the slot
/// must be owned by this program; the caller must have signed for the
/// owner; the slot must decode; the slot must sit at the address derived
/// from the owner and the *stored* title; the stored record must be
/// initialized; the new rating must lie in 1..=5; and the updated record
/// must fit the fixed capacity. The effect updates exactly rating and
/// description: owner and title stay as stored.
pub open spec fn spec_update(
    program: Seq<u8>,
    reviewer: Seq<u8>,
    reviewer_is_signer: bool,
    slot_owner: Seq<u8>,
    slot_address: Seq<u8>,
    slot_data: Seq<u8>,
    rating: u8,
    description: Seq<u8>,
) -> Result<Seq<u8>, ReviewError> {
    if slot_owner != program {
        Err(ReviewError::IllegalOwner)
    } else if !reviewer_is_signer {
        Err(ReviewError::Unauthorized)
    } else {
        match spec_deserialize(slot_data) {
            None => Err(ReviewError::CorruptState),
            Some(stored) => {
                match derived_address(reviewer, stored.title, program) {
                    None => Err(ReviewError::AddressMismatch),
                    Some((address, _)) => {
                        if address != slot_address {
                            Err(ReviewError::AddressMismatch)
                        } else if !stored.initialized {
                            Err(ReviewError::UninitializedAccount)
                        } else if rating < 1 || rating > 5 {
                            Err(ReviewError::InvalidRating)
                        } else if account_size(stored.title.len(), description.len())
                            > ACCOUNT_CAPACITY as int {
                            Err(ReviewError::RecordTooLarge)
                        } else {
                            Ok(
                                spec_serialize(
                                    RecordV {
                                        initialized: true,
                                        reviewer: stored.reviewer,
                                        rating,
                                        title: stored.title,
                                        description,
                                    },
                                ),
                            )
                        }
                    },
                }
            },
        }
    }
}

/// Lifts a Create result to its mathematical value.
pub open spec fn create_result_view(r: Result<CreateAction, ReviewError>) -> Result<
    CreateActionV,
    ReviewError,
> {
    match r {
        Ok(action) => Ok(action@),
        Err(e) => Err(e),
    }
}

/// Lifts an Update result to its mathematical value.
pub open spec fn write_result_view(r: Result<Vec<u8>, ReviewError>) -> Result<
    Seq<u8>,
    ReviewError,
> {
    match r {
        Ok(data) => Ok(data@),
        Err(e) => Err(e),
    }
}

/// Lifts a dispatch result to its mathematical value.
pub open spec fn action_result_view(r: Result<Action, ReviewError>) -> Result<
    ActionV,
    ReviewError,
> {
    match r {
        Ok(action) => Ok(action@),
        Err(e) => Err(e),
    }
}

/// Create: validates the request against the slot's current bytes and, on
/// success, returns the allocation the host must perform and the serialized
/// record to store. Nothing is written on any error.
pub fn add_movie_review(
    program_id: &Identity,
    reviewer: &Identity,
    reviewer_is_signer: bool,
    slot_address: &Identity,
    slot_data: &Vec<u8>,
    title: Vec<u8>,
    rating: u8,
    description: Vec<u8>,
) -> (r: Result<CreateAction, ReviewError>)
    ensures
        create_result_view(r) == spec_create(
            program_id@,
            reviewer@,
            reviewer_is_signer,
            slot_address@,
            slot_data@,
            title@,
            rating,
            description@,
        ),
{
    if !reviewer_is_signer {
        return Err(ReviewError::Unauthorized);
    }
    let derived = derive_address(reviewer, &title, program_id);
    let (address, bump) = match derived {
        None => {
            return Err(ReviewError::AddressMismatch);
        },
        Some(p) => p,
    };
    if !address.eq_bytes(slot_address) {
        return Err(ReviewError::AddressMismatch);
    }
    if slot_data.len() > 0 {
        match MovieAccountState::try_from_slice(slot_data.as_slice()) {
            None => {
                return Err(ReviewError::CorruptState);
            },
            Some(existing) => {
                if existing.is_initialized {
                    return Err(ReviewError::AlreadyInitialized);
                }
            },
        }
    }
    if rating < 1 || rating > 5 {
        return Err(ReviewError::InvalidRating);
    }
    if title.len() > ACCOUNT_CAPACITY || description.len() > ACCOUNT_CAPACITY {
        return Err(ReviewError::RecordTooLarge);
    }
    let total_len = MovieAccountState::get_account_size(&title, &description);
    if total_len > ACCOUNT_CAPACITY {
        return Err(ReviewError::RecordTooLarge);
    }
    let record = MovieAccountState {
        is_initialized: true,
        reviewer: *reviewer,
        rating,
        title,
        description,
    };
    let data = record.serialize();
    Ok(CreateAction { address, bump, space: ACCOUNT_CAPACITY, data })
}

/// Update: validates the request against the stored record and, on success,
/// returns the bytes that must overwrite the slot. The address is
/// re-derived from the *stored* title — the request's own title plays no
/// part, so a different title in the request can neither redirect the
/// check nor change what is stored.
pub fn update_movie_review(
    program_id: &Identity,
    reviewer: &Identity,
    reviewer_is_signer: bool,
    slot_owner: &Identity,
    slot_address: &Identity,
    slot_data: &Vec<u8>,
    _title: Vec<u8>,
    rating: u8,
    description: Vec<u8>,
) -> (r: Result<Vec<u8>, ReviewError>)
    ensures
        write_result_view(r) == spec_update(
            program_id@,
            reviewer@,
            reviewer_is_signer,
            slot_owner@,
            slot_address@,
            slot_data@,
            rating,
            description@,
        ),
{
    if !slot_owner.eq_bytes(program_id) {
        return Err(ReviewError::IllegalOwner);
    }
    if !reviewer_is_signer {
        return Err(ReviewError::Unauthorized);
    }
    let mut record = match MovieAccountState::try_from_slice(slot_data.as_slice()) {
        None => {
            return Err(ReviewError::CorruptState);
        },
        Some(rec) => rec,
    };
    let derived = derive_address(reviewer, &record.title, program_id);
    let address = match derived {
        None => {
            return Err(ReviewError::AddressMismatch);
        },
        Some(p) => p.0,
    };
    if !address.eq_bytes(slot_address) {
        return Err(ReviewError::AddressMismatch);
    }
    if !record.is_initialized {
        return Err(ReviewError::UninitializedAccount);
    }
    if rating < 1 || rating > 5 {
        return Err(ReviewError::InvalidRating);
    }
    if record.title.len() > ACCOUNT_CAPACITY || description.len() > ACCOUNT_CAPACITY {
        return Err(ReviewError::RecordTooLarge);
    }
    let total_len = MovieAccountState::get_account_size(&record.title, &description);
    if total_len > ACCOUNT_CAPACITY {
        return Err(ReviewError::RecordTooLarge);
    }
    record.rating = rating;
    record.description = description;
    Ok(record.serialize())
}

/// The effect the dispatcher owes: decode the request, then hand it to
/// Create or Update.
pub open spec fn spec_process(
    program: Seq<u8>,
    reviewer: Seq<u8>,
    reviewer_is_signer: bool,
    slot_owner: Seq<u8>,
    slot_address: Seq<u8>,
    slot_data: Seq<u8>,
    instruction_data: Seq<u8>,
) -> Result<ActionV, ReviewError> {
    match spec_unpack(instruction_data) {
        None => Err(ReviewError::InvalidInstruction),
        Some(InstructionV::AddMovieReview { title, rating, description }) => {
            match spec_create(
                program,
                reviewer,
                reviewer_is_signer,
                slot_address,
                slot_data,
                title,
                rating,
                description,
            ) {
                Ok(action) => Ok(ActionV::Create(action)),
                Err(e) => Err(e),
            }
        },
        Some(InstructionV::UpdateMovieReview { title: _, rating, description }) => {
            match spec_update(
                program,
                reviewer,
                reviewer_is_signer,
                slot_owner,
                slot_address,
                slot_data,
                rating,
                description,
            ) {
                Ok(data) => Ok(ActionV::Write(data)),
                Err(e) => Err(e),
            }
        },
    }
}

/// Decodes one operation request and runs it against the given slot,
/// returning the effect the host must apply.
pub fn process_instruction(
    program_id: &Identity,
    reviewer: &Identity,
    reviewer_is_signer: bool,
    slot_owner: &Identity,
    slot_address: &Identity,
    slot_data: &Vec<u8>,
    instruction_data: &Vec<u8>,
) -> (r: Result<Action, ReviewError>)
    ensures
        action_result_view(r) == spec_process(
            program_id@,
            reviewer@,
            reviewer_is_signer,
            slot_owner@,
            slot_address@,
            slot_data@,
            instruction_data@,
        ),
{
    let instruction = match MovieInstruction::unpack(instruction_data.as_slice()) {
        None => {
            return Err(ReviewError::InvalidInstruction);
        },
        Some(ins) => ins,
    };
    match instruction {
        MovieInstruction::AddMovieReview { title, rating, description } => {
            match add_movie_review(
                program_id,
                reviewer,
                reviewer_is_signer,
                slot_address,
                slot_data,
                title,
                rating,
                description,
            ) {
                Ok(action) => Ok(Action::Create(action)),
                Err(e) => Err(e),
            }
        },
        MovieInstruction::UpdateMovieReview { title, rating, description } => {
            match update_movie_review(
                program_id,
                reviewer,
                reviewer_is_signer,
                slot_owner,
                slot_address,
                slot_data,
                title,
                rating,
                description,
            ) {
                Ok(data) => Ok(Action::Write(data)),
                Err(e) => Err(e),
            }
        },
    }
}

/// Create binds the slot to (owner, title) for good: whenever Create
/// succeeds, a later Update by the same owner on the slot that now holds
/// Create's bytes re-derives the very same address from the stored title,
/// passes validation, and updates exactly rating and description. In
/// particular the derived address is stable across the Create/Update
/// boundary.
pub proof fn lemma_create_then_update(
    program: Seq<u8>,
    reviewer: Seq<u8>,
    slot_address: Seq<u8>,
    slot_data: Seq<u8>,
    title: Seq<u8>,
    rating: u8,
    description: Seq<u8>,
    new_rating: u8,
    new_description: Seq<u8>,
)
    requires
        reviewer.len() == 32,
        1 <= new_rating <= 5,
        account_size(title.len(), new_description.len()) <= ACCOUNT_CAPACITY as int,
    ensures
        spec_create(program, reviewer, true, slot_address, slot_data, title, rating, description)
            matches Ok(action) ==> spec_update(
            program,
            reviewer,
            true,
            program,
            slot_address,
            action.data,
            new_rating,
            new_description,
        ) == Ok::<Seq<u8>, ReviewError>(
            spec_serialize(
                RecordV {
                    initialized: true,
                    reviewer,
                    rating: new_rating,
                    title,
                    description: new_description,
                },
            ),
        ),
{
    let created = spec_create(
        program,
        reviewer,
        true,
        slot_address,
        slot_data,
        title,
        rating,
        description,
    );
    if created is Ok {
        let action = created->Ok_0;
        let stored = RecordV { initialized: true, reviewer, rating, title, description };
        assert(stored.wf());
        crate::state::lemma_round_trip(stored);
        assert(spec_deserialize(action.data) == Some(stored));
    }
}

/// A slot that already holds an initialized record is never overwritten:
/// once the caller is authorized and the address checks out, Create fails
/// with AlreadyInitialized. Create returns an effect instead of writing,
/// so a failing Create leaves the slot exactly as it was.
pub proof fn lemma_create_rejects_initialized(
    program: Seq<u8>,
    reviewer: Seq<u8>,
    slot_address: Seq<u8>,
    slot_data: Seq<u8>,
    title: Seq<u8>,
    rating: u8,
    description: Seq<u8>,
)
    ensures
        ({
            let derived = derived_address(reviewer, title, program);
            let stored = spec_deserialize(slot_data);
            ({
                &&& derived matches Some(p)
                &&& p.0 == slot_address
                &&& stored matches Some(record)
                &&& record.initialized
            }) ==> spec_create(
                program,
                reviewer,
                true,
                slot_address,
                slot_data,
                title,
                rating,
                description,
            ) == Err::<CreateActionV, ReviewError>(ReviewError::AlreadyInitialized)
        }),
{
}

/// Update never moves the record and never changes its identity: whenever
/// Update succeeds, the bytes it writes decode to a record with the stored
/// title and the stored owner, the new rating and the new description.
/// Update takes no title of its own into account at all: its outcome is a
/// function of the stored record alone.
pub proof fn lemma_update_preserves_title(
    program: Seq<u8>,
    reviewer: Seq<u8>,
    reviewer_is_signer: bool,
    slot_owner: Seq<u8>,
    slot_address: Seq<u8>,
    slot_data: Seq<u8>,
    rating: u8,
    description: Seq<u8>,
)
    ensures
        spec_update(
            program,
            reviewer,
            reviewer_is_signer,
            slot_owner,
            slot_address,
            slot_data,
            rating,
            description,
        ) matches Ok(data) ==> ({
            let stored = spec_deserialize(slot_data)->0;
            spec_deserialize(data) == Some(
                RecordV {
                    initialized: true,
                    reviewer: stored.reviewer,
                    rating,
                    title: stored.title,
                    description,
                },
            )
        }),
{
    let updated = spec_update(
        program,
        reviewer,
        reviewer_is_signer,
        slot_owner,
        slot_address,
        slot_data,
        rating,
        description,
    );
    if updated is Ok {
        let stored = spec_deserialize(slot_data)->0;
        let updated_record = RecordV {
            initialized: true,
            reviewer: stored.reviewer,
            rating,
            title: stored.title,
            description,
        };
        assert(updated_record.wf());
        crate::state::lemma_round_trip(updated_record);
    }
}

/// The ownership check comes first: a slot owned by another program is
/// rejected with IllegalOwner whatever else the request holds — even bytes
/// that do not decode at all never reach the decoder.
pub proof fn lemma_update_owner_checked_first(
    program: Seq<u8>,
    reviewer: Seq<u8>,
    reviewer_is_signer: bool,
    slot_owner: Seq<u8>,
    slot_address: Seq<u8>,
    slot_data: Seq<u8>,
    rating: u8,
    description: Seq<u8>,
)
    requires
        slot_owner != program,
    ensures
        spec_update(
            program,
            reviewer,
            reviewer_is_signer,
            slot_owner,
            slot_address,
            slot_data,
            rating,
            description,
        ) == Err::<Seq<u8>, ReviewError>(ReviewError::IllegalOwner),
{
}

} // verus!
