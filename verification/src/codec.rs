//! The zstd bulk decompressor, as far as the library relies on it.
//!
//! Nothing in this file is proved: each item states what the library takes
//! from `zstd::bulk::Decompressor`.

use vstd::prelude::*;
use zstd::bulk::Decompressor;

verus! {

/// `zstd::bulk::Decompressor`, carried as an opaque value.
#[verifier::external_type_specification]
#[verifier::external_body]
pub struct ExDecompressor<'a>(Decompressor<'a>);

/// The dictionary that a decompressor currently decodes with; empty where
/// none was loaded.
pub uninterp spec fn loaded_dictionary(engine: &Decompressor<'static>) -> Seq<u8>;

/// What `Decompressor::decompress` gives for a payload and an output capacity
/// under a dictionary: the decoded bytes, or the text of the codec's error.
pub uninterp spec fn zstd_outcome(dictionary: Seq<u8>, data: Seq<u8>, capacity: usize) -> Result<Seq<u8>, Seq<char>>;

/// What `Decompressor::set_dictionary` gives for a dictionary: acceptance, or
/// the text of the codec's error.
pub uninterp spec fn dictionary_outcome(dictionary: Seq<u8>) -> Result<(), Seq<char>>;

/// `Decompressor::default()`: a context with no dictionary loaded.
#[verifier::external_body]
pub(crate) fn fresh_engine() -> (engine: Decompressor<'static>)
    ensures
        loaded_dictionary(&engine) == Seq::<u8>::empty(),
{
    Decompressor::default()
}

/// `Decompressor::set_dictionary`: whether the dictionary is accepted goes
/// by its bytes alone, as `dictionary_outcome` names it, the error reduced to
/// its debug text. On success the context decodes with the given dictionary
/// from then on. Nothing is claimed of the context after a failure.
#[verifier::external_body]
pub(crate) fn load_dictionary(engine: &mut Decompressor<'static>, dictionary: &[u8]) -> (r: Result<(), String>)
    ensures
        r is Ok <==> dictionary_outcome(dictionary@) is Ok,
        r is Err ==> r->Err_0@ == dictionary_outcome(dictionary@)->Err_0,
        r is Ok ==> loaded_dictionary(final(engine)) == dictionary@,
{
    match engine.set_dictionary(dictionary) {
        Ok(()) => Ok(()),
        Err(e) => Err(format!("{e:?}")),
    }
}

/// `Decompressor::decompress`: one decoding of `data` into a fresh buffer of
/// `capacity` bytes. The call fails where the decoded payload does not fit.
/// The loaded dictionary stays; the result is the one that `zstd_outcome`
/// names, the error reduced to its debug text. A capacity above
/// `isize::MAX`, which no buffer can have, is left out.
#[verifier::external_body]
pub(crate) fn decode_frame(engine: &mut Decompressor<'static>, data: &[u8], capacity: usize) -> (r: Result<Vec<u8>, String>)
    requires
        capacity <= usize::MAX / 2,
    ensures
        loaded_dictionary(final(engine)) == loaded_dictionary(old(engine)),
        r is Ok ==> zstd_outcome(loaded_dictionary(old(engine)), data@, capacity) is Ok,
        r is Ok ==> zstd_outcome(loaded_dictionary(old(engine)), data@, capacity)->Ok_0 == r->Ok_0@,
        r is Err ==> zstd_outcome(loaded_dictionary(old(engine)), data@, capacity) is Err,
        r is Err ==> zstd_outcome(loaded_dictionary(old(engine)), data@, capacity)->Err_0 == r->Err_0@,
{
    match engine.decompress(data, capacity) {
        Ok(bytes) => Ok(bytes),
        Err(e) => Err(format!("{e:?}")),
    }
}

} // verus!
