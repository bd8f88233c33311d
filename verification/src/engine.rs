//! The interface consumed from the external assembler engine, and the text
//! decoding that precedes it.
//!
//! Everything here is trusted: each function wraps one operation of an outside
//! crate (or of `std`) and states no more of it than its source shows.

use vstd::prelude::*;

verus! {

/// The text that a byte sequence decodes to, if it is valid UTF-8.
pub uninterp spec fn utf8_decode(bytes: Seq<u8>) -> Option<Seq<char>>;

/// The bytes the assembler engine produces for a source text, if any.
///
/// The engine's string entry point cannot access external files, so its
/// output is a function of the source text alone.
pub uninterp spec fn engine_output(source: Seq<char>) -> Option<Seq<u8>>;

/// The contents of an optional produced buffer, as a mathematical value.
pub open spec fn produced_view(binary: Option<Vec<u8>>) -> Option<Seq<u8>> {
    match binary {
        Some(v) => Some(v@),
        None => None,
    }
}

/// The diagnostic report of the assembler engine, opaque to the boundary.
#[verifier::external_type_specification]
#[verifier::external_body]
pub struct ExReport(customasm::diagn::Report);

/// Relies on `customasm::diagn::Report::has_errors` to tell whether the
/// report carries messages worth printing; nothing is assumed of the answer.
pub assume_specification[ customasm::diagn::Report::has_errors ](
    report: &customasm::diagn::Report,
) -> bool;

/// Relies on `str::from_utf8`: returns the decoded text exactly when the
/// bytes are valid UTF-8.
#[verifier::external_body]
pub(crate) fn decode_utf8(bytes: &[u8]) -> (r: Option<&str>)
    ensures
        r matches Some(s) ==> utf8_decode(bytes@) == Some(s@),
        r is None ==> utf8_decode(bytes@) is None,
{
    core::str::from_utf8(bytes).ok()
}

/// Relies on `customasm::assemble_str_to_binary`: compiles the source text
/// and returns the produced bytes, if any, together with the diagnostic
/// report of the run.
#[verifier::external_body]
pub(crate) fn assemble_source(source: &str) -> (r: (Option<Vec<u8>>, customasm::diagn::Report))
    ensures
        produced_view(r.0) == engine_output(source@),
{
    customasm::assemble_str_to_binary(source)
}

/// Relies on `Vec::shrink_to_fit` to drop the unused allocation slack of the
/// produced buffer, so that its capacity equals its length at the moment of
/// transfer; the contents are unchanged.
#[verifier::external_body]
pub(crate) fn normalize_capacity(binary: &mut Vec<u8>)
    ensures
        final(binary)@ == old(binary)@,
{
    binary.shrink_to_fit()
}

/// Relies on `customasm::diagn::Report::print_all` to write the report to the
/// process error stream, with a `customasm::util::FileServerMock` mapping the
/// source text to the synthetic file name the engine compiled it under.
#[verifier::external_body]
pub(crate) fn print_report(report: &customasm::diagn::Report, source: &str) {
    let mut fileserver = customasm::util::FileServerMock::new();
    fileserver.add("str", source);
    report.print_all(&mut std::io::stderr(), &fileserver, true);
}

} // verus!
