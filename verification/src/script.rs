//! Script classification. Whether a script is provably unspendable — its
//! spending condition can never be satisfied, as with a burn or data-carrier
//! output — is decided by the `bitcoin` crate from the script bytes.

use vstd::prelude::*;

verus! {

/// Whether a script's spending condition can never be satisfied. The
/// classification is the `bitcoin` crate's, a fixed function of the script
/// bytes alone; contracts speak of it only through this name.
pub uninterp spec fn provably_unspendable(script: Seq<u8>) -> bool;

/// Relies on `bitcoin::Script::is_provably_unspendable`: classifies a script
/// by its leading opcode (return or illegal opcode), reading nothing but the
/// script bytes.
#[verifier::external_body]
#[allow(deprecated)]
pub(crate) fn script_is_provably_unspendable(script: &Vec<u8>) -> (r: bool)
    ensures
        r == provably_unspendable(script@),
{
    bitcoin::Script::from_bytes(script.as_slice()).is_provably_unspendable()
}

} // verus!
