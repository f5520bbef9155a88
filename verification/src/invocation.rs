//! The call that a cross-program instruction has the host make.
//!
//! The program asks the System program to allocate space in an account. It
//! signs the call with an address derived from seeds rather than with a
//! private key. The seeds are the program's identity and a bump: the first
//! value, counting down from 255, for which the derived address is not a
//! valid signing key.
//!
//! The instruction and the derived address are the host library's to
//! compute. Which account, how many bytes, which seeds and which accounts
//! go with the call is decided here.

use crate::account::{AccountView, Address};
use crate::error::ProcessError;
use vstd::prelude::*;

verus! {

/// Amount of bytes of account data to allocate
pub const SIZE: usize = 42;

/// An account that an instruction names, and how it uses it.
#[derive(Debug, PartialEq, Eq)]
pub struct AccountMeta {
    /// The address of the account.
    pub pubkey: Address,
    /// Whether the instruction needs the account's signature.
    pub is_signer: bool,
    /// Whether the instruction may change the account.
    pub is_writable: bool,
}

/// An account reference as mathematical values.
pub struct AccountMetaView {
    pub pubkey: Seq<u8>,
    pub is_signer: bool,
    pub is_writable: bool,
}

impl View for AccountMeta {
    type V = AccountMetaView;

    open spec fn view(&self) -> AccountMetaView {
        AccountMetaView {
            pubkey: self.pubkey@,
            is_signer: self.is_signer,
            is_writable: self.is_writable,
        }
    }
}

/// An instruction for another program, in the form in which the host
/// takes it.
#[derive(Debug, PartialEq, Eq)]
pub struct DelegatedInstruction {
    /// The identity of the program that is to carry out the instruction.
    pub program_id: Address,
    /// The accounts that the instruction names.
    pub accounts: Vec<AccountMeta>,
    /// The instruction's bytes, which that program decodes.
    pub data: Vec<u8>,
}

/// An instruction for another program as mathematical values.
pub struct InstructionView {
    pub program_id: Seq<u8>,
    pub accounts: Seq<AccountMetaView>,
    pub data: Seq<u8>,
}

impl View for DelegatedInstruction {
    type V = InstructionView;

    open spec fn view(&self) -> InstructionView {
        InstructionView {
            program_id: self.program_id@,
            accounts: self.accounts@.map_values(|meta: AccountMeta| meta@),
            data: self.data@,
        }
    }
}

/// How an allocate instruction names the account that it allocates: the
/// account has to sign, and it is written to.
pub open spec fn allocated(account: Seq<u8>) -> AccountMetaView {
    AccountMetaView { pubkey: account, is_signer: true, is_writable: true }
}

/// The System program's instruction that allocates `space` bytes in the
/// account at address `account`, as the host library builds it.
pub uninterp spec fn allocate_instruction(account: Seq<u8>, space: u64) -> InstructionView;

/// The program-derived address for one seed and a program identity, with the
/// bump that yields it; `None` if no bump does. The derivation is the
/// host's: a hash of the seed, the bump, the program identity and a marker,
/// accepted when it is not a point of the signature curve.
pub uninterp spec fn program_address(seed: Seq<u8>, program_id: Seq<u8>) -> Option<(Seq<u8>, u8)>;

/// `system_instruction::allocate` of solana_program: the instruction that
/// it builds, as a function of the account's address and the space alone.
/// The instruction names one account, the one to allocate, as a signer and
/// as writable.
#[verifier::external_body]
pub(crate) fn system_allocate(account: &Address, space: u64) -> (instruction: DelegatedInstruction)
    ensures
        instruction@ == allocate_instruction(account@, space),
        instruction@.accounts == seq![allocated(account@)],
{
    let key = solana_program::pubkey::Pubkey::new_from_array(account.bytes);
    let made = solana_program::system_instruction::allocate(&key, space);
    DelegatedInstruction {
        program_id: Address { bytes: made.program_id.to_bytes() },
        accounts: made.accounts.iter().map(|meta| AccountMeta {
            pubkey: Address { bytes: meta.pubkey.to_bytes() },
            is_signer: meta.is_signer,
            is_writable: meta.is_writable,
        }).collect(),
        data: made.data,
    }
}

/// `Pubkey::try_find_program_address` of solana_program with the single
/// seed `seed`: the derived address and its bump, as a function of the two
/// arguments alone.
#[verifier::external_body]
pub(crate) fn find_program_address(seed: &Address, program_id: &Address) -> (found: Option<
    (Address, u8),
>)
    ensures
        derivation(found) == program_address(seed@, program_id@),
{
    let id = solana_program::pubkey::Pubkey::new_from_array(program_id.bytes);
    match solana_program::pubkey::Pubkey::try_find_program_address(&[&seed.bytes[..]], &id) {
        Some((address, bump)) => Some((Address { bytes: address.to_bytes() }, bump)),
        None => None,
    }
}

/// A derived address and bump as mathematical values.
pub open spec fn derivation(found: Option<(Address, u8)>) -> Option<(Seq<u8>, u8)> {
    match found {
        Some((address, bump)) => Some((address@, bump)),
        None => None,
    }
}

/// A call that the host is to make on the program's behalf.
#[derive(Debug, PartialEq, Eq)]
pub struct Invocation {
    /// The instruction to carry out.
    pub instruction: DelegatedInstruction,
    /// Which accounts of the invocation go with the call: their positions
    /// in the list that the program was given.
    pub accounts: Vec<usize>,
    /// The seeds that sign the call in place of a private key.
    pub signer_seeds: Vec<Vec<u8>>,
    /// The program-derived address that the seeds stand for.
    pub authority: Address,
}

/// A call for the host as mathematical values.
pub struct InvocationView {
    pub instruction: InstructionView,
    pub accounts: Seq<usize>,
    pub signer_seeds: Seq<Seq<u8>>,
    pub authority: Seq<u8>,
}

impl View for Invocation {
    type V = InvocationView;

    open spec fn view(&self) -> InvocationView {
        InvocationView {
            instruction: self.instruction@,
            accounts: self.accounts@,
            signer_seeds: self.signer_seeds.deep_view(),
            authority: self.authority@,
        }
    }
}

/// The call that signs `instruction` for the program: it goes with the
/// first two accounts and is signed with the program's identity and the
/// derived bump. A derivation that found no bump allows no call.
pub open spec fn signed(
    instruction: InstructionView,
    program_id: Seq<u8>,
    derived: Option<(Seq<u8>, u8)>,
) -> Result<InvocationView, ProcessError> {
    match derived {
        Some((authority, bump)) => Ok(
            InvocationView {
                instruction,
                accounts: seq![0usize, 1usize],
                signer_seeds: seq![program_id, seq![bump]],
                authority,
            },
        ),
        None => Err(ProcessError::InvalidSeeds),
    }
}

/// The call that a cross-program instruction asks for: the allocation of
/// `SIZE` bytes in the second account, signed for the program. It needs
/// two accounts.
pub open spec fn planned_allocation(accounts: Seq<AccountView>, program_id: Seq<u8>) -> Result<
    InvocationView,
    ProcessError,
> {
    if accounts.len() < 2 {
        Err(ProcessError::NotEnoughAccountKeys)
    } else {
        signed(
            allocate_instruction(accounts[1].key, SIZE as u64),
            program_id,
            program_address(program_id, program_id),
        )
    }
}

/// Signs an instruction for the program, given what the derivation of the
/// program's authority returned. The call goes with the first two accounts.
pub fn sign(
    instruction: DelegatedInstruction,
    program_id: &Address,
    derived: Option<(Address, u8)>,
) -> (r: Result<Invocation, ProcessError>)
    ensures
        match signed(instruction@, program_id@, derivation(derived)) {
            Ok(call) => r matches Ok(invocation) && invocation@ == call,
            Err(e) => r == Err::<Invocation, _>(e),
        },
        derived is None ==> r == Err::<Invocation, _>(ProcessError::InvalidSeeds),
        derived matches Some((authority, bump)) ==> (r matches Ok(invocation)
            && invocation.instruction == instruction
            && invocation.accounts@ == seq![0usize, 1usize]
            && invocation.signer_seeds.deep_view() == seq![program_id@, seq![bump]]
            && invocation.authority == authority),
{
    match derived {
        Some((authority, bump)) => {
            let mut accounts: Vec<usize> = Vec::new();
            accounts.push(0);
            accounts.push(1);
            let mut bump_seed: Vec<u8> = Vec::new();
            bump_seed.push(bump);
            let mut signer_seeds: Vec<Vec<u8>> = Vec::new();
            signer_seeds.push(program_id.to_vec());
            signer_seeds.push(bump_seed);
            proof {
                assert(accounts@ =~= seq![0usize, 1usize]);
                assert(signer_seeds.deep_view() =~~= seq![program_id@, seq![bump]]);
            }
            Ok(Invocation { instruction, accounts, signer_seeds, authority })
        },
        None => Err(ProcessError::InvalidSeeds),
    }
}

} // verus!
