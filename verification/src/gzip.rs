//! The boundary to `flate2`, which undoes the gzip compression of a save.
//!
//! Nothing in this file is proved.

use vstd::prelude::*;

verus! {

#[verifier::external_type_specification]
#[verifier::external_body]
pub struct ExIoError(std::io::Error);

/// What `flate2::read::GzDecoder` reads out of `compressed`, to the end of
/// its first gzip member, or `None` where it reports an error.
pub uninterp spec fn gunzip(compressed: Seq<u8>) -> Option<Seq<u8>>;

/// Runs a `flate2::read::GzDecoder` over `compressed` and reads it to the end.
///
/// Believed: the outcome depends on the bytes alone, so it has a name,
/// [`gunzip`]. Nothing is claimed about which bytes inflate, nor to what.
#[verifier::external_body]
pub(crate) fn inflate(compressed: &[u8]) -> (inflated: Result<Vec<u8>, std::io::Error>)
    ensures
        match inflated {
            Ok(bytes) => gunzip(compressed@) == Some(bytes@),
            Err(_) => gunzip(compressed@) is None,
        },
{
    let mut bytes = Vec::new();
    match std::io::Read::read_to_end(&mut flate2::read::GzDecoder::new(compressed), &mut bytes) {
        Ok(_) => Ok(bytes),
        Err(error) => Err(error),
    }
}

} // verus!
