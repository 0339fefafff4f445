//! The byte form of outcome records, produced and read by `bincode`.
//!
//! A record is written as its five fields in order: whether it is a
//! withdrawal, the client, the amount as a `Decimal`, whether the transfer
//! succeeded, whether it is disputed. What the bytes are is `bincode`'s
//! business; this library only hands them on.

use vstd::prelude::*;
use rust_decimal::Decimal;
use crate::amount::Amount;
use crate::error::CliError;
use crate::types::{ClientId, RecordView, TransactionRecord};

verus! {

/// The bytes that `bincode::serialize` writes for a record's five fields,
/// or `None` where it fails.
pub uninterp spec fn bincode_encoding(record: RecordView) -> Option<Seq<u8>>;

/// The record that `bincode::deserialize` reads from the bytes, or `None`
/// where it fails.
pub uninterp spec fn bincode_decoding(bytes: Seq<u8>) -> Option<RecordView>;

/// Calls `bincode::serialize` on the five fields, the amount as a
/// `Decimal`. Trusted: the outcome depends on the fields alone.
#[verifier::external_body]
fn serialize_fields(
    withdrawal: bool,
    client: ClientId,
    amount: Amount,
    succeeded: bool,
    disputed: bool,
) -> (r: Result<Vec<u8>, Box<bincode::ErrorKind>>)
    ensures
        bincode_encoding(
            RecordView { withdrawal, client, amount: amount@, succeeded, disputed },
        ) == (match r {
            Ok(bytes) => Some(bytes@),
            Err(_) => None,
        }),
{
    let d = Decimal::from_parts(amount.lo, amount.mid, amount.hi, amount.negative, amount.scale);
    bincode::serialize(&(withdrawal, client, d, succeeded, disputed))
}

/// Calls `bincode::deserialize` for the five fields, the amount as a
/// `Decimal`. Trusted: the outcome depends on the bytes alone.
#[verifier::external_body]
fn deserialize_fields(bytes: &Vec<u8>) -> (r: Result<
    (bool, ClientId, Amount, bool, bool),
    Box<bincode::ErrorKind>,
>)
    ensures
        bincode_decoding(bytes@) == (match r {
            Ok(f) => Some(
                RecordView {
                    withdrawal: f.0,
                    client: f.1,
                    amount: f.2@,
                    succeeded: f.3,
                    disputed: f.4,
                },
            ),
            Err(_) => None,
        }),
{
    let (w, c, d, s, q): (bool, ClientId, Decimal, bool, bool) = bincode::deserialize(bytes)?;
    let u = d.unpack();
    let amount = Amount { lo: u.lo, mid: u.mid, hi: u.hi, negative: u.negative, scale: u.scale };
    Ok((w, c, amount, s, q))
}

/// Turns a record into the bytes under which it is stored.
pub fn encode(record: &TransactionRecord) -> (r: Result<Vec<u8>, CliError>)
    ensures
        match bincode_encoding(record@) {
            Some(bytes) => r matches Ok(v) && v@ == bytes,
            None => r matches Err(e) && e is Bincode,
        },
{
    let encoded = match record {
        TransactionRecord::Deposit { client, amount, succeeded, disputed } => serialize_fields(
            false,
            *client,
            *amount,
            *succeeded,
            *disputed,
        ),
        TransactionRecord::Withdrawal { client, amount, succeeded, disputed } => serialize_fields(
            true,
            *client,
            *amount,
            *succeeded,
            *disputed,
        ),
    };
    match encoded {
        Ok(bytes) => Ok(bytes),
        Err(e) => Err(CliError::Bincode(e)),
    }
}

/// Reads a record back from stored bytes.
pub fn decode(bytes: &Vec<u8>) -> (r: Result<TransactionRecord, CliError>)
    ensures
        match bincode_decoding(bytes@) {
            Some(record) => r matches Ok(v) && v@ == record,
            None => r matches Err(e) && e is Bincode,
        },
{
    match deserialize_fields(bytes) {
        Ok((withdrawal, client, amount, succeeded, disputed)) => {
            if withdrawal {
                Ok(TransactionRecord::Withdrawal { client, amount, succeeded, disputed })
            } else {
                Ok(TransactionRecord::Deposit { client, amount, succeeded, disputed })
            }
        },
        Err(e) => Err(CliError::Bincode(e)),
    }
}

} // verus!
