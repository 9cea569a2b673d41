//! Built-in FFI protocols: the streaming string writer that error messages
//! are written through.

use vstd::prelude::*;

verus! {

/// Streaming string writer for error messages (and other display output).
///
/// `push` returns `true` on success and `false` to abort the output (for
/// example when a buffer is full). A writer keeps the record of the pushes
/// made to it: each text pushed, with the writer's answer.
pub trait PushStr {
    /// The pushes made so far, in order: the text and the answer.
    spec fn pushes(&self) -> Seq<(Seq<char>, bool)>;

    /// Writes `s`; `false` aborts the output.
    fn push(&mut self, s: &str) -> (r: bool)
        ensures
            final(self).pushes() == old(self).pushes().push((s@, r)),
    ;
}

/// Writing through a [`PushStr`] was aborted by the writer.
#[derive(Clone, Copy, Debug, PartialEq, Eq, Structural)]
pub struct WriteError;

/// The outcome of one push: `Ok` when the writer accepted the text, the
/// error that stops further formatting otherwise.
pub fn write_outcome(pushed: bool) -> (r: Result<(), WriteError>)
    ensures
        pushed ==> r == Ok::<(), WriteError>(()),
        !pushed ==> r == Err::<(), WriteError>(WriteError),
{
    if pushed {
        Ok(())
    } else {
        Err(WriteError)
    }
}

/// Writes `s` through the writer (the `fmt::Write` adapter of a writer):
/// `s` itself is pushed, once, and the result follows the writer's answer,
/// `Err` stopping further formatting.
pub fn write_str<W: PushStr>(writer: &mut W, s: &str) -> (r: Result<(), WriteError>)
    ensures
        final(writer).pushes() == old(writer).pushes().push((s@, r is Ok)),
        r is Ok || r == Err::<(), WriteError>(WriteError),
{
    let pushed = writer.push(s);
    write_outcome(pushed)
}

} // verus!
