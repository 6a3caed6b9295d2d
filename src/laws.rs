use vstd::prelude::*;

use crate::raw::{
    chunk_step, declared_len, png_signature, pull_agrees, pull_spec, valid_chunk_type,
    ManagedRawChunk, PngParseError, PullOutcome, RawChunk, Result,
};

verus! {

/// A stream whose first eight bytes are not the PNG signature fails its first
/// pull with `IncorrectSignature` carrying those bytes, unless the source itself
/// fails. Since a failed pull exhausts the reader, every later pull yields `None`.
pub proof fn signature_gate(s: Seq<u8>)
    requires
        s.len() >= 8,
        s.take(8) != png_signature(),
    ensures
        pull_spec(false, s) == PullOutcome::BadSignature(s.take(8)),
        forall|r: Option<Result<ManagedRawChunk>>|
            pull_agrees(pull_spec(false, s), r) ==> (r matches Some(Err(e)) && (e is IoError || (
            e matches PngParseError::IncorrectSignature(b) && b@ == s.take(8)))),
{
}

/// Every record a pull produces carries exactly as many payload bytes as its
/// length field declared.
pub proof fn record_integrity(signed: bool, s: Seq<u8>)
    ensures
        forall|r: Option<Result<ManagedRawChunk>>|
            pull_agrees(pull_spec(signed, s), r) && (r matches Some(Ok(_))) ==> r->Some_0->Ok_0.data_view().len()
                == declared_len(if signed { s } else { s.skip(8) }),
{
}

/// A type tag holding a byte that is not an ASCII letter is always rejected
/// with `InvalidChunkType` carrying the tag.
pub proof fn invalid_type_rejected(s: Seq<u8>)
    requires
        s.len() >= 8,
        !valid_chunk_type(s.subrange(4, 8)),
    ensures
        chunk_step(s) == PullOutcome::BadType(s.subrange(4, 8)),
{
}

/// A stream that ends where a length field would start ends the sequence
/// without an error.
pub proof fn clean_end(s: Seq<u8>)
    requires
        s.len() == 0,
    ensures
        chunk_step(s) is End,
{
}

/// A stream that ends inside a field or inside the declared payload yields
/// `UnexpectedEnd`, provided the type tag, where present, is well formed.
pub proof fn truncation_detected(s: Seq<u8>)
    requires
        s.len() > 0,
        s.len() < 8 || (valid_chunk_type(s.subrange(4, 8)) && s.len() < 12 + declared_len(s)),
    ensures
        chunk_step(s) is Truncated,
{
}

} // verus!
