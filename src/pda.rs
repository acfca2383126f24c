use vstd::prelude::*;

use crate::address::Address;

verus! {

/// The program-controlled address derived from `seed` and `program_id`,
/// with its bump byte; `None` where no bump byte gives an address off the
/// curve. Determined by the hash of its arguments alone.
pub uninterp spec fn derived_address(seed: Seq<u8>, program_id: Seq<u8>) -> Option<(Seq<u8>, u8)>;

/// Relies on `Pubkey::try_find_program_address` of solana-program (through
/// anchor-lang) with the single seed `seed`: a search over bump bytes whose
/// outcome depends on the seed and the program id alone.
#[verifier::external_body]
pub(crate) fn find_program_address(seed: &[u8], program_id: &Address) -> (r: Option<(Address, u8)>)
    ensures
        match r {
            Some((a, b)) => derived_address(seed@, program_id@) == Some((a@, b)),
            None => derived_address(seed@, program_id@) is None,
        },
{
    let id = anchor_lang::prelude::Pubkey::new_from_array(program_id.bytes);
    match anchor_lang::prelude::Pubkey::try_find_program_address(&[seed], &id) {
        Some((key, bump)) => Some((Address { bytes: key.to_bytes() }, bump)),
        None => None,
    }
}

} // verus!
