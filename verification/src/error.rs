//! The errors that end a run.

use vstd::prelude::*;

verus! {

/// `bincode`'s error, carried through untouched. Nothing is known of its
/// content.
#[verifier::external_type_specification]
#[verifier::external_body]
pub struct ExBincodeErrorKind(bincode::ErrorKind);

/// Why a transaction was refused. Each of these is fatal to the run: the
/// stream is malformed, or a stored outcome could not be read or written.
#[derive(Debug)]
pub enum CliError {
    /// A deposit or withdrawal without an amount.
    NullWire,
    /// A dispute, resolve or chargeback that carries an amount.
    SomeDispute,
    /// An amount whose sign is negative.
    NegativeWire,
    /// An amount with more than four fractional digits.
    BigPrecision,
    /// A stored outcome could not be encoded or decoded.
    Bincode(Box<bincode::ErrorKind>),
}

} // verus!
