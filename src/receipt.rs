//! The read of a risc0 receipt's journal, the public output of a program run.
//!
//! Checking a receipt's seal is not done here: risc0's verifier can panic on
//! a malformed seal, so the caller runs it where a panic can be caught and
//! hands the outcome in as a `bool`.
use vstd::prelude::*;
use risc0_zkvm::Receipt;

verus! {

/// A risc0 receipt: a seal over the run of a program and its journal.
#[verifier::external_type_specification]
#[verifier::external_body]
pub struct ExReceipt(Receipt);

/// The bytes of a receipt's journal.
pub uninterp spec fn journal_of(receipt: Receipt) -> Seq<u8>;

/// Relies on the public field `risc0_zkvm::Receipt::journal` and its public
/// field `bytes`: a copy of the bytes the program committed, which depend on
/// the receipt alone.
#[verifier::external_body]
pub(crate) fn receipt_journal(receipt: &Receipt) -> (r: Vec<u8>)
    ensures
        r@ == journal_of(*receipt),
{
    receipt.journal.bytes.clone()
}

} // verus!
