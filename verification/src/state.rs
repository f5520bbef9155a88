//! The record that the program keeps in an account.
//!
//! A record is stored in Borsh form: the counter as four bytes, least
//! significant first. It lies at the front of the account's bytes; an
//! account may hold more bytes than the record takes.

use crate::encoding::{le_bytes, le_value};
use crate::error::ProcessError;
use vstd::prelude::*;
use vstd::slice::slice_subrange;

verus! {

/// The error type of Borsh's readers and writers. The program learns from it
/// only that an operation failed.
#[verifier::external_type_specification]
#[verifier::external_body]
pub struct ExIoError(std::io::Error);

/// The state stored in an account: the number of greetings it has received.
#[derive(Debug)]
pub struct GreetingAccount {
    /// number of greetings
    pub counter: u32,
}

/// The number of bytes that a stored record takes.
pub const RECORD_LEN: usize = 4;

/// The counter that the bytes of an account store: the record at their
/// front, if they have room for one.
pub open spec fn stored_counter(data: Seq<u8>) -> Option<u32> {
    if data.len() >= RECORD_LEN {
        Some(le_value(data.subrange(0, RECORD_LEN as int)) as u32)
    } else {
        None
    }
}

/// The stored form of a counter.
pub open spec fn counter_bytes(counter: u32) -> Seq<u8> {
    le_bytes(counter as nat, RECORD_LEN as nat)
}

/// The bytes of an account after `counter` has been stored at their front.
pub open spec fn with_counter(data: Seq<u8>, counter: u32) -> Seq<u8> {
    counter_bytes(counter) + data.skip(RECORD_LEN as int)
}

/// Borsh's `BorshDeserialize::try_from_slice` at type `u32`: it reads four
/// bytes as a little-endian integer, fails if there are fewer, and fails if
/// any byte is left over.
#[verifier::external_body]
fn borsh_read_u32(data: &[u8]) -> (r: Result<u32, std::io::Error>)
    ensures
        r is Ok <==> data@.len() == 4,
        r matches Ok(value) ==> value == le_value(data@),
{
    borsh::BorshDeserialize::try_from_slice(data)
}

/// Borsh's `BorshSerialize::serialize` at type `u32`, writing into the front
/// of `buffer`: the four little-endian bytes of `value` replace the first
/// four bytes, and the call fails if `buffer` is shorter than that. The
/// length of `buffer` never changes.
#[verifier::external_body]
fn borsh_write_u32(value: u32, buffer: &mut Vec<u8>) -> (r: Result<(), std::io::Error>)
    ensures
        final(buffer)@.len() == old(buffer)@.len(),
        r is Ok <==> old(buffer)@.len() >= 4,
        r is Ok ==> final(buffer)@ == le_bytes(value as nat, 4) + old(buffer)@.skip(4),
{
    borsh::BorshSerialize::serialize(&value, &mut &mut buffer[..])
}

impl GreetingAccount {
    /// Reads a record from its stored form. The bytes must be the record and
    /// nothing more.
    pub fn try_from_slice(data: &[u8]) -> (r: Result<GreetingAccount, ProcessError>)
        ensures
            data@.len() == RECORD_LEN
                ==> (r matches Ok(record) && record.counter == le_value(data@)),
            data@.len() != RECORD_LEN
                ==> r == Err::<GreetingAccount, _>(ProcessError::Deserialization),
    {
        match borsh_read_u32(data) {
            Ok(counter) => Ok(GreetingAccount { counter }),
            Err(_) => Err(ProcessError::Deserialization),
        }
    }

    /// Reads the record at the front of the bytes of an account. Bytes
    /// behind the record are not looked at; fewer bytes than a record takes
    /// are refused.
    pub fn from_account_data(data: &[u8]) -> (r: Result<GreetingAccount, ProcessError>)
        ensures
            match stored_counter(data@) {
                Some(counter) => r matches Ok(record) && record.counter == counter,
                None => r == Err::<GreetingAccount, _>(ProcessError::Deserialization),
            },
            data@.len() >= RECORD_LEN
                ==> (r matches Ok(record)
                && record.counter == le_value(data@.subrange(0, RECORD_LEN as int))),
            data@.len() < RECORD_LEN
                ==> r == Err::<GreetingAccount, _>(ProcessError::Deserialization),
    {
        if data.len() < RECORD_LEN {
            return Err(ProcessError::Deserialization);
        }
        GreetingAccount::try_from_slice(slice_subrange(data, 0, RECORD_LEN))
    }

    /// Writes the record over the first bytes of `buffer`, which keeps its
    /// length. A buffer with no room for the record is refused; what it
    /// holds afterwards is then unspecified.
    pub fn serialize(&self, buffer: &mut Vec<u8>) -> (r: Result<(), ProcessError>)
        ensures
            final(buffer)@.len() == old(buffer)@.len(),
            old(buffer)@.len() >= RECORD_LEN
                ==> r is Ok && final(buffer)@ == with_counter(old(buffer)@, self.counter),
            old(buffer)@.len() < RECORD_LEN
                ==> r == Err::<(), _>(ProcessError::Serialization),
    {
        match borsh_write_u32(self.counter, buffer) {
            Ok(()) => Ok(()),
            Err(_) => Err(ProcessError::Serialization),
        }
    }
}

} // verus!
