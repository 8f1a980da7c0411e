//! Authority derivation: the address that stands in for a signature.
//!
//! The module's issuing authority has no private key. It is the address that
//! the host derives from a fixed label, a one-byte nonce and the module's own
//! identity. Whoever can reproduce the derivation is the authority.

use crate::address::Address;
use crate::error::StakeError;
use anchor_lang::prelude::Pubkey;
use vstd::prelude::*;

verus! {

/// The label from which the ledger's address and the issuing authority are
/// derived: the bytes of the word `liability`.
pub const LABEL: [u8; 9] = [108, 105, 97, 98, 105, 108, 105, 116, 121];

/// What `Pubkey::create_program_address` returns for the two seeds `label`
/// and the single byte `nonce` under the program `program_id`: the bytes of
/// the derived address, or `None` where it reports an error.
pub uninterp spec fn derived_address(label: Seq<u8>, nonce: u8, program_id: Seq<u8>) -> Option<Seq<u8>>;

/// What `Pubkey::try_find_program_address` returns for the single seed
/// `label` under the program `program_id`: the bytes of the address it
/// settles on and the nonce that gives it, or `None` where it finds none.
pub uninterp spec fn found_address(label: Seq<u8>, program_id: Seq<u8>) -> Option<(Seq<u8>, u8)>;

/// The bytes of an address that may be absent.
pub open spec fn address_view(address: Option<Address>) -> Option<Seq<u8>> {
    match address {
        Some(a) => Some(a@),
        None => None,
    }
}

/// The bytes of a found address, with its nonce.
pub open spec fn found_view(found: Option<(Address, u8)>) -> Option<(Seq<u8>, u8)> {
    match found {
        Some((a, nonce)) => Some((a@, nonce)),
        None => None,
    }
}

/// Calls `Pubkey::create_program_address` with the seeds `label` and
/// `[nonce]`. Trusted: the result is the address that the outside function
/// derives, and `None` stands for each of its errors.
#[verifier::external_body]
pub(crate) fn create_program_address(label: &[u8], nonce: u8, program_id: &Address) -> (r: Option<Address>)
    ensures
        address_view(r) == derived_address(label@, nonce, program_id@),
{
    let id = Pubkey::new_from_array(program_id.bytes);
    match Pubkey::create_program_address(&[label, &[nonce]], &id) {
        Ok(key) => Some(Address { bytes: key.to_bytes() }),
        Err(_) => None,
    }
}

/// Calls `Pubkey::try_find_program_address` with the single seed `label`.
/// Trusted: the result is what the outside function settles on; its nonce is
/// never zero, and deriving from the label and that nonce gives that address.
#[verifier::external_body]
pub(crate) fn try_find_program_address(label: &[u8], program_id: &Address) -> (r: Option<(Address, u8)>)
    ensures
        found_view(r) == found_address(label@, program_id@),
        r matches Some((address, nonce)) ==> nonce >= 1
            && derived_address(label@, nonce, program_id@) == Some(address@),
{
    let id = Pubkey::new_from_array(program_id.bytes);
    match Pubkey::try_find_program_address(&[label], &id) {
        Some((key, nonce)) => Some((Address { bytes: key.to_bytes() }, nonce)),
        None => None,
    }
}

/// Accepts the issuing authority that the caller supplied exactly when it is
/// the derived address.
pub fn check_authority(supplied: &Address, derived: &Option<Address>) -> (r: Result<(), StakeError>)
    ensures
        r == if *derived == Some(*supplied) {
            Ok::<(), StakeError>(())
        } else {
            Err(StakeError::InvalidSeeds)
        },
{
    match derived {
        Some(address) => {
            if *address == *supplied {
                Ok(())
            } else {
                Err(StakeError::InvalidSeeds)
            }
        },
        None => Err(StakeError::InvalidSeeds),
    }
}

} // verus!
