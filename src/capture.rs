use vstd::prelude::*;
use vstd::utf8::{decode_utf8, valid_utf8};

verus! {

#[verifier::external_type_specification]
#[verifier::external_body]
pub struct ExIoError(std::io::Error);

/// What `String::from_utf8_lossy` makes of a byte sequence: its UTF-8 decoding,
/// with each invalid subsequence replaced by U+FFFD.
pub uninterp spec fn lossy_of(bytes: Seq<u8>) -> Seq<char>;

/// Relies on `String::from_utf8_lossy`: the text depends on the bytes alone, and
/// bytes that are valid UTF-8 decode to exactly the characters they encode.
#[verifier::external_body]
fn decode_lossy(bytes: &[u8]) -> (r: String)
    ensures
        r@ == lossy_of(bytes@),
        valid_utf8(bytes@) ==> r@ == decode_utf8(bytes@),
{
    String::from_utf8_lossy(bytes).into_owned()
}

/// Relies on the `Display` impl of `std::io::Error` (through `to_string`) for
/// the description of a failure. The text comes from the operating system and
/// its locale, so nothing is stated of it.
#[verifier::external_body]
fn describe_io_error(e: &std::io::Error) -> (r: String) {
    e.to_string()
}

/// A child process that ran to its end: the bytes it wrote on standard output,
/// and its exit code (`None` where a signal ended it). Standard error is not
/// part of it.
pub struct CapturedRun {
    pub stdout: Vec<u8>,
    pub exit_code: Option<i32>,
}

/// The text that a finished run yields: its standard output, decoded lossily.
pub open spec fn captured_text(run: CapturedRun) -> Seq<char> {
    lossy_of(run.stdout@)
}

/// Turns the outcome of launching and waiting for a command into the result
/// handed to the caller.
///
/// A run that finished gives `Ok` with its standard output as text, whatever
/// its exit code; output that is valid UTF-8 comes back unchanged. A failure to
/// start, wait on or read from the child gives `Err` with the operating
/// system's description of it.
pub fn finish_run(launched: Result<CapturedRun, std::io::Error>) -> (r: Result<String, String>)
    ensures
        launched is Ok <==> r is Ok,
        launched is Ok ==> r->Ok_0@ == captured_text(launched->Ok_0),
        launched is Ok && valid_utf8(launched->Ok_0.stdout@) ==> r->Ok_0@ == decode_utf8(
            launched->Ok_0.stdout@,
        ),
{
    match launched {
        Ok(run) => Ok(decode_lossy(run.stdout.as_slice())),
        Err(e) => Err(describe_io_error(&e)),
    }
}

/// The exit status of a command plays no part in its result: two runs that
/// wrote the same standard output yield the same text, whether either of them
/// exited with zero, with another code, or by a signal.
pub proof fn lemma_exit_status_ignored(a: CapturedRun, b: CapturedRun)
    requires
        a.stdout@ == b.stdout@,
    ensures
        captured_text(a) == captured_text(b),
{
}

} // verus!
