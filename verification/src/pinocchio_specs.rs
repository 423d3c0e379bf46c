//! What the verifier is told about the items of `pinocchio` that the library
//! uses. Nothing in this file is proved.

use pinocchio::instruction::Signer;
use pinocchio::program_error::ProgramError;
use pinocchio::pubkey::Pubkey;
use vstd::prelude::*;

verus! {

/// `pinocchio::program_error::ProgramError`. The declaration is transparent:
/// the verifier reads the variants from the crate's own definition, so that
/// contracts can name `ProgramError::NotEnoughAccountKeys` and
/// `ProgramError::InvalidAccountData`. Nothing is assumed of the type.
#[verifier::external_type_specification]
pub struct ExProgramError(ProgramError);

/// `pinocchio::instruction::Signer`: the seeds that authorize one
/// program-derived address. The library never looks inside a signer; it only
/// hands slices of them on to a protocol.
#[verifier::external_type_specification]
#[verifier::external_body]
pub struct ExSigner<'a, 'b>(Signer<'a, 'b>);

/// `pinocchio::pubkey::pubkey_eq` compares the two keys eight bytes at a time
/// over all 32 bytes. Assumed: it returns `true` exactly when the two keys
/// hold the same bytes.
pub assume_specification[ pinocchio::pubkey::pubkey_eq ](p1: &Pubkey, p2: &Pubkey) -> (equal: bool)
    ensures
        equal == (p1@ == p2@),
;

} // verus!
