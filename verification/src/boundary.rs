//! The two boundary operations: the entry that compiles source text and
//! transfers the produced buffer, and the release that completes the
//! buffer's lifecycle.

use vstd::prelude::*;

use crate::engine::assemble_source;
use crate::engine::decode_utf8;
use crate::engine::engine_output;
use crate::engine::normalize_capacity;
use crate::engine::print_report;
use crate::engine::produced_view;
use crate::engine::utf8_decode;
use crate::status::AsmResult;

verus! {

/// The source-text argument as a mathematical value: absent, or its bytes.
pub open spec fn assembly_view(assembly: Option<&[u8]>) -> Option<Seq<u8>> {
    match assembly {
        Some(bytes) => Some(bytes@),
        None => None,
    }
}

/// What the entry operation returns and transfers, for every combination of
/// arguments: the status code, and the contents of the buffer handed to the
/// caller, if any.
///
/// The argument checks happen in this order: an absent source text is
/// rejected first, then an undecodable one; only after the engine has
/// produced bytes are the two out-slots inspected, and only when both are
/// present does ownership of the buffer leave the boundary.
pub open spec fn entry_spec(
    assembly: Option<Seq<u8>>,
    want_binary: bool,
    want_binary_len: bool,
) -> (AsmResult, Option<Seq<u8>>) {
    match assembly {
        None => (AsmResult::NullAssembly, None),
        Some(bytes) => match utf8_decode(bytes) {
            None => (AsmResult::InvalidEncoding, None),
            Some(text) => match engine_output(text) {
                None => (AsmResult::Failed, None),
                Some(produced) => if !want_binary {
                    (AsmResult::NullBinary, None)
                } else if !want_binary_len {
                    (AsmResult::NullBinaryLen, None)
                } else {
                    (AsmResult::Success, Some(produced))
                },
            },
        },
    }
}

/// What the release operation returns: absent buffers are rejected, any
/// transferred buffer is reclaimed.
pub open spec fn release_spec(binary: Option<Seq<u8>>) -> AsmResult {
    match binary {
        None => AsmResult::NullBinary,
        Some(_) => AsmResult::Success,
    }
}

/// Compiles assembly source text to binary bytes.
///
/// `assembly` is the borrowed source text, absent if the caller supplied
/// none; `want_binary` and `want_binary_len` say whether the caller supplied
/// a slot for the produced bytes and one for their count.  The returned
/// buffer, present exactly on `Success`, is the caller's to release; its
/// length is
/// the byte count the engine produced, and its capacity is normalized to that
/// length before transfer, so a release with the same count can reconstruct
/// the allocation exactly.  A buffer produced while either slot is absent is
/// destroyed internally, never leaked.  When the engine's report carries
/// errors it is printed to the process error stream as a side effect.
pub fn assemble_str_to_binary(
    assembly: Option<&[u8]>,
    want_binary: bool,
    want_binary_len: bool,
) -> (r: (AsmResult, Option<Vec<u8>>))
    ensures
        (r.0, produced_view(r.1)) == entry_spec(
            assembly_view(assembly),
            want_binary,
            want_binary_len,
        ),
        r.1 is Some <==> r.0 is Success,
{
    let source_bytes = match assembly {
        None => {
            return (AsmResult::NullAssembly, None);
        },
        Some(bytes) => bytes,
    };
    let source = match decode_utf8(source_bytes) {
        None => {
            return (AsmResult::InvalidEncoding, None);
        },
        Some(text) => text,
    };
    let (produced, report) = assemble_source(source);
    if report.has_errors() {
        print_report(&report, source);
    }
    match produced {
        None => (AsmResult::Failed, None),
        Some(mut vec) => {
            normalize_capacity(&mut vec);
            if !want_binary {
                (AsmResult::NullBinary, None)
            } else if !want_binary_len {
                (AsmResult::NullBinaryLen, None)
            } else {
                (AsmResult::Success, Some(vec))
            }
        },
    }
}

/// Takes back a buffer previously transferred by
/// [`assemble_str_to_binary`] and destroys it, reclaiming its memory.
///
/// `binary_len` must be the exact count returned at transfer time; an absent
/// buffer is rejected with `NullBinary`, any present one is reclaimed.
pub fn free_binary(binary: Option<Vec<u8>>, binary_len: usize) -> (r: AsmResult)
    requires
        binary matches Some(v) ==> v@.len() == binary_len,
    ensures
        r == release_spec(produced_view(binary)),
{
    match binary {
        None => AsmResult::NullBinary,
        Some(_) => AsmResult::Success,
    }
}

/// Law: on the full success path — the text decodes, the engine produces
/// bytes, and both out-slots are present — the entry transfers exactly the
/// produced bytes with status `Success`, and releasing a buffer with those
/// contents (and hence with exactly the transferred length) succeeds.
pub proof fn lemma_success_path(bytes: Seq<u8>, text: Seq<char>, produced: Seq<u8>)
    requires
        utf8_decode(bytes) == Some(text),
        engine_output(text) == Some(produced),
    ensures
        entry_spec(Some(bytes), true, true) == (AsmResult::Success, Some(produced)),
        release_spec(Some(produced)) == AsmResult::Success,
{
}

/// Law: when the engine rejects a decodable text, the entry returns `Failed`
/// and transfers nothing, whatever the out-slot arguments — so neither slot
/// is ever written on a rejected compilation.
pub proof fn lemma_rejection_leaves_slots(
    bytes: Seq<u8>,
    text: Seq<char>,
    want_binary: bool,
    want_binary_len: bool,
)
    requires
        utf8_decode(bytes) == Some(text),
        engine_output(text) is None,
    ensures
        entry_spec(Some(bytes), want_binary, want_binary_len) == (
            AsmResult::Failed,
            Option::<Seq<u8>>::None,
        ),
{
}

/// Law: an absent source text yields `NullAssembly` and transfers nothing,
/// for every combination of the remaining arguments.
pub proof fn lemma_absent_assembly(want_binary: bool, want_binary_len: bool)
    ensures
        entry_spec(None, want_binary, want_binary_len) == (
            AsmResult::NullAssembly,
            Option::<Seq<u8>>::None,
        ),
{
}

/// Law: `NullBinary` and `NullBinaryLen` arise only on the success path of
/// compilation — whenever the entry returns either, the source text was
/// present, it decoded, and the engine produced bytes.
pub proof fn lemma_missing_slot_only_after_success(
    assembly: Option<Seq<u8>>,
    want_binary: bool,
    want_binary_len: bool,
)
    ensures
        ({
            let status = entry_spec(assembly, want_binary, want_binary_len).0;
            (status is NullBinary || status is NullBinaryLen) ==> {
                &&& assembly matches Some(bytes)
                &&& utf8_decode(bytes) matches Some(text)
                &&& engine_output(text) is Some
            }
        }),
{
}

} // verus!
