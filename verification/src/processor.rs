//! The program entrypoint: one validated, atomic counter transition per
//! invocation.

use vstd::prelude::*;

use crate::account::Account;
use crate::account::Pubkey;
use crate::error::ProgramError;
use crate::instruction::HelloInstruction;
use crate::instruction::spec_unpack;
use crate::state::GreetingAccount;
use crate::state::u32_from_le;
use crate::state::u32_to_le;

verus! {

/// What one operation does to the counter. Increment and decrement wrap
/// around at the ends of the 32-bit range, as fixed-width arithmetic does;
/// reset returns to zero.
pub open spec fn spec_apply(i: HelloInstruction, c: u32) -> u32 {
    match i {
        HelloInstruction::Increment => if c == u32::MAX {
            0
        } else {
            (c + 1) as u32
        },
        HelloInstruction::Decrement => if c == 0 {
            u32::MAX
        } else {
            (c - 1) as u32
        },
        HelloInstruction::Reset => 0,
    }
}

/// Whether the first account passes every validation step: the list holds
/// one, the program owns it, and its storage has the four-byte layout.
pub open spec fn spec_account_valid(program_id: Seq<u8>, accounts: Seq<Account>) -> bool {
    &&& accounts.len() > 0
    &&& accounts[0].owner@ == program_id
    &&& accounts[0].data@.len() == 4
}

/// Run one invocation: decode the instruction, validate the first account,
/// apply the operation to its stored counter, and write the new value back.
///
/// On any failure the account list is left exactly as it was; on success
/// only the first account's data changes, to the encoding of the new
/// counter.
pub fn process_instruction(
    program_id: &Pubkey,
    accounts: &mut Vec<Account>,
    instruction_data: &[u8],
) -> (r: Result<(), ProgramError>)
    ensures
        spec_unpack(instruction_data@) matches Err(e) ==> r == Err::<(), ProgramError>(e)
            && final(accounts)@ == old(accounts)@,
        spec_unpack(instruction_data@) is Ok && old(accounts)@.len() == 0 ==> r == Err::<
            (),
            ProgramError,
        >(ProgramError::NotEnoughAccountKeys) && final(accounts)@ == old(accounts)@,
        spec_unpack(instruction_data@) is Ok && old(accounts)@.len() > 0 && old(accounts)@[0].owner@
            != program_id@ ==> r == Err::<(), ProgramError>(ProgramError::IncorrectProgramId)
            && final(accounts)@ == old(accounts)@,
        spec_unpack(instruction_data@) is Ok && old(accounts)@.len() > 0 && old(accounts)@[0].owner@
            == program_id@ && old(accounts)@[0].data@.len() != 4 ==> r == Err::<
            (),
            ProgramError,
        >(ProgramError::BorshIoError) && final(accounts)@ == old(accounts)@,
        spec_unpack(instruction_data@) is Ok && spec_account_valid(
            program_id@,
            old(accounts)@,
        ) ==> {
            &&& r == Ok::<(), ProgramError>(())
            &&& final(accounts)@.len() == old(accounts)@.len()
            &&& final(accounts)@[0].owner@ == old(accounts)@[0].owner@
            &&& final(accounts)@[0].data@ == u32_to_le(
                spec_apply(
                    spec_unpack(instruction_data@)->Ok_0,
                    u32_from_le(old(accounts)@[0].data@),
                ),
            )
            &&& forall|j: int|
                1 <= j < old(accounts)@.len() ==> final(accounts)@[j] == old(accounts)@[j]
        },
{
    if instruction_data.len() == 0 {
        return Err(ProgramError::InvalidInstructionData);
    }
    let instruction = match HelloInstruction::unpack(instruction_data) {
        Ok(i) => i,
        Err(e) => { return Err(e); },
    };

    if accounts.len() == 0 {
        return Err(ProgramError::NotEnoughAccountKeys);
    }

    if !accounts[0].owner.eq_key(program_id) {
        return Err(ProgramError::IncorrectProgramId);
    }

    let mut greeting_account = match GreetingAccount::try_from_slice(accounts[0].data.as_slice()) {
        Ok(g) => g,
        Err(e) => { return Err(e); },
    };

    match instruction {
        HelloInstruction::Increment => {
            greeting_account.counter = if greeting_account.counter == u32::MAX {
                0
            } else {
                greeting_account.counter + 1
            };
        },
        HelloInstruction::Decrement => {
            greeting_account.counter = if greeting_account.counter == 0 {
                u32::MAX
            } else {
                greeting_account.counter - 1
            };
        },
        HelloInstruction::Reset => {
            greeting_account.counter = 0;
        },
    }

    let new_data = greeting_account.serialize();
    let first = &mut accounts[0];
    first.data = new_data;

    Ok(())
}

/// Starting from a stored counter of zero, four increments followed by one
/// decrement leave the counter at three.
pub proof fn lemma_four_increments_one_decrement(data: Seq<u8>)
    requires
        data.len() == 4,
        u32_from_le(data) == 0,
    ensures
        spec_apply(
            HelloInstruction::Decrement,
            spec_apply(
                HelloInstruction::Increment,
                spec_apply(
                    HelloInstruction::Increment,
                    spec_apply(
                        HelloInstruction::Increment,
                        spec_apply(HelloInstruction::Increment, u32_from_le(data)),
                    ),
                ),
            ),
        ) == 3,
{
}

/// Reset leaves the counter at zero whatever it held before.
pub proof fn lemma_reset_yields_zero(c: u32)
    ensures
        spec_apply(HelloInstruction::Reset, c) == 0,
{
}

} // verus!
