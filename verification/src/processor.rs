//! The instruction processor: the entry point of the program and the
//! handlers of its three instructions.
//!
//! A handler changes nothing unless it succeeds. The call to the System
//! program is not made here: `process_instruction` hands the caller the
//! call to make, the caller makes it with the accounts it holds, and
//! `complete_cpi` continues from what the host answered.

use crate::account::{ledger, Account, AccountView, Address};
use crate::invocation::{
    allocate_instruction, allocated, find_program_address, planned_allocation, program_address,
    sign, system_allocate, Invocation, InvocationView, SIZE,
};
use crate::encoding::{lemma_le_bytes_len, lemma_value_of_bytes, radix};
use crate::error::ProcessError;
use crate::instruction::{decoded, SolanaInstruction};
use crate::state::{counter_bytes, stored_counter, with_counter, GreetingAccount, RECORD_LEN};
use solana_program::program_error::ProgramError;
use vstd::prelude::*;

verus! {

/// How far an instruction has come when `process_instruction` returns.
#[derive(Debug, PartialEq, Eq)]
pub enum Progress {
    /// An example instruction has been carried out; the target account now
    /// stores this counter.
    Greeted { counter: u32 },
    /// A transfer instruction has been carried out: nothing was to be done.
    Transferred,
    /// A cross-program instruction needs the host to make this call;
    /// `complete_cpi` then carries out the rest of the instruction.
    Invoke(Invocation),
}

/// A `Progress` as mathematical values.
pub enum ProgressView {
    Greeted { counter: u32 },
    Transferred,
    Invoke(InvocationView),
}

impl View for Progress {
    type V = ProgressView;

    open spec fn view(&self) -> ProgressView {
        match self {
            Progress::Greeted { counter } => ProgressView::Greeted { counter: *counter },
            Progress::Transferred => ProgressView::Transferred,
            Progress::Invoke(invocation) => ProgressView::Invoke(invocation@),
        }
    }
}

/// Whether `after` differs from `before` at most in the bytes of the first
/// account, whose number stays the same: no account is added or removed,
/// and no key, no owner and no other account's bytes change.
pub open spec fn only_first_data_changed(before: Seq<AccountView>, after: Seq<AccountView>) -> bool {
    &&& after.len() == before.len()
    &&& forall|i: int| 0 < i < before.len() ==> after[i] == before[i]
    &&& before.len() > 0 ==> {
        &&& after[0].key == before[0].key
        &&& after[0].owner == before[0].owner
        &&& after[0].data.len() == before[0].data.len()
    }
}

/// What greeting an account does to it, and the counter that it then
/// stores. The account has to be owned by the program and to store a
/// record, whose counter grows by one; bytes behind the record stay as
/// they are. A counter that is already at its largest value is refused.
pub open spec fn greeted(account: AccountView, program_id: Seq<u8>) -> Result<
    (AccountView, u32),
    ProcessError,
> {
    if account.owner != program_id {
        Err(ProcessError::IncorrectProgramId)
    } else {
        match stored_counter(account.data) {
            None => Err(ProcessError::Deserialization),
            Some(counter) => if counter == u32::MAX {
                Err(ProcessError::ArithmeticOverflow)
            } else {
                let next = (counter + 1) as u32;
                Ok((AccountView { data: with_counter(account.data, next), ..account }, next))
            },
        }
    }
}

/// What greeting the first of `accounts` does to the accounts, and the
/// counter that the first account then stores.
pub open spec fn greeted_first(accounts: Seq<AccountView>, program_id: Seq<u8>) -> Result<
    (Seq<AccountView>, u32),
    ProcessError,
> {
    if accounts.len() == 0 {
        Err(ProcessError::NotEnoughAccountKeys)
    } else {
        match greeted(accounts[0], program_id) {
            Ok((account, counter)) => Ok((accounts.update(0, account), counter)),
            Err(e) => Err(e),
        }
    }
}

/// What the second half of a cross-program instruction does to the
/// accounts, given the host's answer to the allocate call.
pub open spec fn completed_cpi(
    accounts: Seq<AccountView>,
    program_id: Seq<u8>,
    allocation: Result<(), ProgramError>,
) -> Result<(Seq<AccountView>, u32), ProcessError> {
    if accounts.len() < 2 {
        Err(ProcessError::NotEnoughAccountKeys)
    } else {
        match allocation {
            Err(e) => Err(ProcessError::Delegated(e)),
            Ok(_) => greeted_first(accounts, program_id),
        }
    }
}

/// What processing an instruction does to the accounts, and how far it
/// gets. A cross-program instruction stops at the call for the host and
/// has changed nothing by then.
pub open spec fn processed(accounts: Seq<AccountView>, program_id: Seq<u8>, input: Seq<u8>) -> Result<
    (Seq<AccountView>, ProgressView),
    ProcessError,
> {
    match decoded(input) {
        Err(e) => Err(e),
        Ok(SolanaInstruction::ExampleInstruction { .. }) => match greeted_first(
            accounts,
            program_id,
        ) {
            Ok((after, counter)) => Ok((after, ProgressView::Greeted { counter })),
            Err(e) => Err(e),
        },
        Ok(SolanaInstruction::CPIInstruction) => match planned_allocation(accounts, program_id) {
            Ok(call) => Ok((accounts, ProgressView::Invoke(call))),
            Err(e) => Err(e),
        },
        Ok(SolanaInstruction::TransferInstruction { .. }) => Ok(
            (accounts, ProgressView::Transferred),
        ),
    }
}

/// A cross-program instruction in its two halves. The first half changes
/// no account and asks for the call. If the call fails, the second half
/// hands the failure on and changes no account either, so the counter of
/// the target account stays as it was. If the call succeeds, the second
/// half does what an example instruction does.
pub proof fn lemma_cross_program_halves(
    accounts: Seq<AccountView>,
    program_id: Seq<u8>,
    input: Seq<u8>,
    failure: ProgramError,
)
    requires
        decoded(input) == Ok::<_, ProcessError>(SolanaInstruction::CPIInstruction),
        processed(accounts, program_id, input) is Ok,
    ensures
        processed(accounts, program_id, input) matches Ok((after, progress))
            && after == accounts
            && progress is Invoke,
        completed_cpi(accounts, program_id, Err(failure))
            == Err::<(Seq<AccountView>, u32), _>(ProcessError::Delegated(failure)),
        completed_cpi(accounts, program_id, Ok(())) == greeted_first(accounts, program_id),
{
}

/// After a greeting the account stores the counter that the greeting
/// reports, which is one more than it stored before.
pub proof fn lemma_greeted_counts(account: AccountView, program_id: Seq<u8>)
    requires
        greeted(account, program_id) is Ok,
    ensures
        stored_counter(account.data) matches Some(counter)
            && counter < u32::MAX
            && greeted(account, program_id)->Ok_0.1 == counter + 1,
        stored_counter(greeted(account, program_id)->Ok_0.0.data)
            == Some(greeted(account, program_id)->Ok_0.1),
{
    let counter = stored_counter(account.data)->Some_0;
    let next = (counter + 1) as u32;
    lemma_counter_is_stored(account.data, next);
}

/// Bytes with room for a record store the counter that was written to
/// their front, and are as many as before.
pub proof fn lemma_counter_is_stored(data: Seq<u8>, counter: u32)
    requires
        data.len() >= RECORD_LEN,
    ensures
        stored_counter(with_counter(data, counter)) == Some(counter),
        with_counter(data, counter).len() == data.len(),
{
    assert(radix(4) == 0x1_0000_0000) by {
        reveal_with_fuel(radix, 5);
    }
    lemma_le_bytes_len(counter as nat, 4);
    lemma_value_of_bytes(counter as nat, 4);
    assert(with_counter(data, counter).subrange(0, RECORD_LEN as int) =~= counter_bytes(counter));
}

/// What `times` greetings in a row do to an account.
pub open spec fn greeted_times(account: AccountView, program_id: Seq<u8>, times: nat) -> Result<
    AccountView,
    ProcessError,
>
    decreases times,
{
    if times == 0 {
        Ok(account)
    } else {
        match greeted_times(account, program_id, (times - 1) as nat) {
            Ok(before) => match greeted(before, program_id) {
                Ok((after, _)) => Ok(after),
                Err(e) => Err(e),
            },
            Err(e) => Err(e),
        }
    }
}

/// Greetings add up. An account that the program owns and whose counter
/// is `counter` stores `counter + times` after `times` greetings in a row,
/// all of which succeed, as long as that sum fits the counter. Starting
/// from a fresh account, the counters read 1, 2, 3 and so on.
pub proof fn lemma_greetings_add_up(
    account: AccountView,
    program_id: Seq<u8>,
    counter: u32,
    times: nat,
)
    requires
        account.owner == program_id,
        stored_counter(account.data) == Some(counter),
        counter + times <= u32::MAX,
    ensures
        greeted_times(account, program_id, times) matches Ok(after)
            && stored_counter(after.data) == Some((counter + times) as u32)
            && after.key == account.key
            && after.owner == account.owner,
    decreases times,
{
    if times > 0 {
        lemma_greetings_add_up(account, program_id, counter, (times - 1) as nat);
        let before = greeted_times(account, program_id, (times - 1) as nat)->Ok_0;
        lemma_greeted_counts(before, program_id);
    }
}

/// Greets one account: checks that the program owns it, reads its record,
/// adds one to the counter and writes the record back. Returns the counter
/// that the account now stores.
pub fn greet(account: &mut Account, program_id: &Address) -> (r: Result<u32, ProcessError>)
    ensures
        match greeted(old(account)@, program_id@) {
            Ok((after, counter)) => r == Ok::<_, ProcessError>(counter)
                && final(account)@ == after,
            Err(e) => r == Err::<u32, _>(e) && final(account)@ == old(account)@,
        },
{
    // The account must be owned by the program in order to modify its data
    if !account.owner.same_as(program_id) {
        return Err(ProcessError::IncorrectProgramId);
    }
    // Increment and store the number of times the account has been greeted
    let mut greeting_account = match GreetingAccount::from_account_data(account.data.as_slice()) {
        Ok(record) => record,
        Err(e) => {
            return Err(e);
        },
    };
    greeting_account.counter = match greeting_account.counter.checked_add(1) {
        Some(counter) => counter,
        None => {
            return Err(ProcessError::ArithmeticOverflow);
        },
    };
    let written = greeting_account.serialize(&mut account.data);
    match written {
        Ok(()) => Ok(greeting_account.counter),
        Err(e) => Err(e),
    }
}

/// Greets the first of the accounts.
fn greet_first(accounts: &mut Vec<Account>, program_id: &Address) -> (r: Result<u32, ProcessError>)
    ensures
        match greeted_first(ledger(old(accounts)@), program_id@) {
            Ok((after, counter)) => r == Ok::<_, ProcessError>(counter)
                && ledger(final(accounts)@) == after,
            Err(e) => r == Err::<u32, _>(e)
                && ledger(final(accounts)@) == ledger(old(accounts)@),
        },
        r matches Ok(counter) ==> old(accounts)@.len() > 0
            && counter > 0
            && stored_counter(old(accounts)@[0]@.data) == Some((counter - 1) as u32)
            && stored_counter(final(accounts)@[0]@.data) == Some(counter),
        only_first_data_changed(ledger(old(accounts)@), ledger(final(accounts)@)),
        final(accounts)@.len() == old(accounts)@.len(),
{
    // Get the account to say hello to
    if accounts.len() == 0 {
        return Err(ProcessError::NotEnoughAccountKeys);
    }
    let r = greet(&mut accounts[0], program_id);
    proof {
        assert(ledger(accounts@) =~= ledger(old(accounts)@).update(0, accounts@[0]@));
        if r is Ok {
            lemma_greeted_counts(old(accounts)@[0]@, program_id@);
            lemma_counter_is_stored(old(accounts)@[0]@.data, r->Ok_0);
        }
    }
    r
}

/// Handles an example instruction: greets the first account and returns
/// the counter that it now stores. The amount is accepted and not used.
#[allow(unused_variables)]
pub fn process_example(accounts: &mut Vec<Account>, amount: u64, program_id: &Address) -> (r:
    Result<u32, ProcessError>)
    ensures
        match greeted_first(ledger(old(accounts)@), program_id@) {
            Ok((after, counter)) => r == Ok::<_, ProcessError>(counter)
                && ledger(final(accounts)@) == after,
            Err(e) => r == Err::<u32, _>(e)
                && ledger(final(accounts)@) == ledger(old(accounts)@),
        },
        // An account that the program owns, with a counter that can still
        // grow, has its counter raised by one.
        old(accounts)@.len() > 0 && old(accounts)@[0]@.owner == program_id@
            ==> (stored_counter(old(accounts)@[0]@.data) matches Some(counter)
            ==> counter < u32::MAX
            ==> r == Ok::<_, ProcessError>((counter + 1) as u32)
                && stored_counter(final(accounts)@[0]@.data) == Some((counter + 1) as u32)),
        // An account of another owner is refused and left as it was.
        old(accounts)@.len() > 0 && old(accounts)@[0]@.owner != program_id@
            ==> r == Err::<u32, _>(ProcessError::IncorrectProgramId)
                && ledger(final(accounts)@) == ledger(old(accounts)@),
        // Every success raises the stored counter by exactly one.
        r matches Ok(counter) ==> old(accounts)@.len() > 0
            && counter > 0
            && stored_counter(old(accounts)@[0]@.data) == Some((counter - 1) as u32)
            && stored_counter(final(accounts)@[0]@.data) == Some(counter),
        only_first_data_changed(ledger(old(accounts)@), ledger(final(accounts)@)),
        final(accounts)@.len() == old(accounts)@.len(),
{
    greet_first(accounts, program_id)
}

/// Handles a transfer instruction, which does nothing and succeeds.
#[allow(unused_variables)]
pub fn process_transfer(accounts: &mut Vec<Account>, amount: u64, program_id: &Address) -> (r:
    Result<(), ProcessError>)
    ensures
        r is Ok,
        final(accounts)@ == old(accounts)@,
{
    Ok(())
}

/// The first half of a cross-program instruction: the call to ask of the
/// host. The accounts are only read. Once the host has answered,
/// `complete_cpi` carries out the second half.
pub fn process_cpi(accounts: &Vec<Account>, program_id: &Address) -> (r: Result<
    Invocation,
    ProcessError,
>)
    ensures
        match planned_allocation(ledger(accounts@), program_id@) {
            Ok(call) => r matches Ok(invocation) && invocation@ == call,
            Err(e) => r == Err::<Invocation, _>(e),
        },
        // Two accounts are needed: the target and the account to allocate.
        accounts@.len() < 2
            ==> r == Err::<Invocation, _>(ProcessError::NotEnoughAccountKeys),
        // The call allocates `SIZE` bytes in the second account, goes with
        // the first two accounts, and is signed by the program's identity
        // and the bump that derives the authority.
        r matches Ok(invocation) ==> accounts@.len() >= 2
            && invocation.instruction@ == allocate_instruction(accounts@[1]@.key, SIZE as u64)
            && invocation.instruction@.accounts == seq![allocated(accounts@[1]@.key)]
            && invocation.accounts@ == seq![0usize, 1usize]
            && (program_address(program_id@, program_id@) matches Some((authority, bump))
            && invocation.authority@ == authority
            && invocation.signer_seeds.deep_view() == seq![program_id@, seq![bump]]),
        // With two accounts, only a derivation that finds no bump fails.
        accounts@.len() >= 2 && r is Err
            ==> r == Err::<Invocation, _>(ProcessError::InvalidSeeds)
                && program_address(program_id@, program_id@) is None,
{
    // Get the account to say hello to, and the account to allocate
    if accounts.len() < 2 {
        return Err(ProcessError::NotEnoughAccountKeys);
    }
    // Have the system program allocate account data, under the authority
    // derived from the program's identity
    let derived = find_program_address(program_id, program_id);
    let instruction = system_allocate(&accounts[1].key, SIZE as u64);
    sign(instruction, program_id, derived)
}

/// The second half of a cross-program instruction. `allocation` is what the
/// host answered to the call that `process_cpi` asked for. A failure of
/// that call is handed on as it came; after a success the first account is
/// greeted, and the counter that it now stores is returned.
pub fn complete_cpi(
    accounts: &mut Vec<Account>,
    program_id: &Address,
    allocation: Result<(), ProgramError>,
) -> (r: Result<u32, ProcessError>)
    ensures
        match completed_cpi(ledger(old(accounts)@), program_id@, allocation) {
            Ok((after, counter)) => r == Ok::<_, ProcessError>(counter)
                && ledger(final(accounts)@) == after,
            Err(e) => r == Err::<u32, _>(e)
                && ledger(final(accounts)@) == ledger(old(accounts)@),
        },
        // A failed call is reported as it came, and every account, the
        // counter in the first among them, is left as it was.
        old(accounts)@.len() >= 2
            ==> (allocation matches Err(e)
            ==> r == Err::<u32, _>(ProcessError::Delegated(e))
                && final(accounts)@ == old(accounts)@),
        // After a call that succeeded, the first account is greeted as by
        // an example instruction.
        old(accounts)@.len() >= 2 && allocation is Ok && old(accounts)@[0]@.owner == program_id@
            ==> (stored_counter(old(accounts)@[0]@.data) matches Some(counter)
            ==> counter < u32::MAX
            ==> r == Ok::<_, ProcessError>((counter + 1) as u32)
                && stored_counter(final(accounts)@[0]@.data) == Some((counter + 1) as u32)),
        // Every success raises the stored counter by exactly one.
        r matches Ok(counter) ==> allocation is Ok
            && counter > 0
            && stored_counter(old(accounts)@[0]@.data) == Some((counter - 1) as u32)
            && stored_counter(final(accounts)@[0]@.data) == Some(counter),
        only_first_data_changed(ledger(old(accounts)@), ledger(final(accounts)@)),
        final(accounts)@.len() == old(accounts)@.len(),
{
    if accounts.len() < 2 {
        return Err(ProcessError::NotEnoughAccountKeys);
    }
    match allocation {
        Err(e) => Err(ProcessError::Delegated(e)),
        Ok(_) => greet_first(accounts, program_id),
    }
}

/// The entry point of the program: decodes the instruction and hands it to
/// its handler. An example or a transfer instruction is carried out in
/// full. A cross-program instruction comes back as the call for the host
/// to make, with no account changed yet.
pub fn process_instruction(
    program_id: &Address,
    accounts: &mut Vec<Account>,
    instruction_data: &[u8],
) -> (r: Result<Progress, ProcessError>)
    ensures
        match processed(ledger(old(accounts)@), program_id@, instruction_data@) {
            Ok((after, progress)) => r matches Ok(reached)
                && reached@ == progress
                && ledger(final(accounts)@) == after,
            Err(e) => r == Err::<Progress, _>(e)
                && ledger(final(accounts)@) == ledger(old(accounts)@),
        },
        // Bytes that are no instruction are refused.
        decoded(instruction_data@) is Err
            ==> r == Err::<Progress, _>(ProcessError::InvalidInstructionData),
        // An example instruction raises by one the counter of an account
        // that the program owns.
        decoded(instruction_data@) matches Ok(SolanaInstruction::ExampleInstruction { .. })
            ==> old(accounts)@.len() > 0 && old(accounts)@[0]@.owner == program_id@
            ==> (stored_counter(old(accounts)@[0]@.data) matches Some(counter)
            ==> counter < u32::MAX
            ==> r == Ok::<_, ProcessError>(Progress::Greeted { counter: (counter + 1) as u32 })
                && stored_counter(final(accounts)@[0]@.data) == Some((counter + 1) as u32)),
        // An example instruction for an account of another owner is
        // refused, and the account is left as it was.
        decoded(instruction_data@) matches Ok(SolanaInstruction::ExampleInstruction { .. })
            ==> old(accounts)@.len() > 0 && old(accounts)@[0]@.owner != program_id@
            ==> r == Err::<Progress, _>(ProcessError::IncorrectProgramId)
                && ledger(final(accounts)@) == ledger(old(accounts)@),
        // A transfer instruction succeeds and changes nothing.
        decoded(instruction_data@) matches Ok(SolanaInstruction::TransferInstruction { .. })
            ==> r == Ok::<_, ProcessError>(Progress::Transferred)
                && final(accounts)@ == old(accounts)@,
        // A cross-program instruction changes nothing before the host is asked.
        decoded(instruction_data@) matches Ok(SolanaInstruction::CPIInstruction)
            ==> final(accounts)@ == old(accounts)@,
        // A counter only ever grows, by exactly one for each greeting.
        r matches Ok(Progress::Greeted { counter }) ==> old(accounts)@.len() > 0
            && counter > 0
            && stored_counter(old(accounts)@[0]@.data) == Some((counter - 1) as u32)
            && stored_counter(final(accounts)@[0]@.data) == Some(counter),
        only_first_data_changed(ledger(old(accounts)@), ledger(final(accounts)@)),
        final(accounts)@.len() == old(accounts)@.len(),
{
    let instruction = match SolanaInstruction::unpack(instruction_data) {
        Ok(instruction) => instruction,
        Err(e) => {
            return Err(e);
        },
    };
    match instruction {
        SolanaInstruction::ExampleInstruction { amount } => {
            match process_example(accounts, amount, program_id) {
                Ok(counter) => Ok(Progress::Greeted { counter }),
                Err(e) => Err(e),
            }
        },
        SolanaInstruction::CPIInstruction => {
            match process_cpi(accounts, program_id) {
                Ok(invocation) => Ok(Progress::Invoke(invocation)),
                Err(e) => Err(e),
            }
        },
        SolanaInstruction::TransferInstruction { amount } => {
            match process_transfer(accounts, amount, program_id) {
                Ok(()) => Ok(Progress::Transferred),
                Err(e) => Err(e),
            }
        },
    }
}

} // verus!
