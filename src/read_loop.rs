use vstd::prelude::*;
use vstd::slice::slice_subrange;
use vstd::utf8::{decode_utf8, valid_utf8};

verus! {

/// How many bytes the read loop asks for at a time.
pub const READ_CHUNK_LEN: usize = 1024;

/// The text that lossy UTF-8 decoding gives for a byte sequence: each
/// invalid sequence stands as the replacement character U+FFFD.
pub uninterp spec fn lossy_utf8(bytes: Seq<u8>) -> Seq<char>;

/// Relies on `String::from_utf8_lossy`, which never fails: valid UTF-8 is
/// decoded as it stands, each invalid sequence becomes U+FFFD, so no bytes
/// give an empty string and some bytes a non-empty one.
#[verifier::external_body]
fn decode_lossy(bytes: &[u8]) -> (r: String)
    ensures
        r@ == lossy_utf8(bytes@),
        valid_utf8(bytes@) ==> r@ == decode_utf8(bytes@),
        bytes@.len() == 0 <==> r@.len() == 0,
{
    String::from_utf8_lossy(bytes).into_owned()
}

/// What the read loop does after one read.
#[derive(Debug, PartialEq, Eq)]
pub enum ReadStep {
    /// Hand this chunk of text to the consumer, then read again.
    Emit(String),
    /// The stream is over: leave the loop.
    Stop,
}

impl ReadStep {
    /// The text emitted by this step, if any.
    pub open spec fn emitted(&self) -> Option<Seq<char>> {
        match self {
            ReadStep::Emit(text) => Some(text@),
            ReadStep::Stop => None,
        }
    }
}

/// The text the read loop emits after a read into a buffer holding `buf`
/// (`None` when it stops instead).
pub open spec fn emitted_after(buf: Seq<u8>, read: Option<usize>) -> Option<Seq<char>> {
    match read {
        Some(n) => if n > 0 {
            Some(lossy_utf8(buf.subrange(0, n as int)))
        } else {
            None
        },
        None => None,
    }
}

/// Decides the read loop's next step from the outcome of one read into
/// `buf`: `Some(n)` when `n` bytes were read, `None` when the read failed.
///
/// A read of at least one byte yields the lossy decoding of those bytes,
/// whatever they hold; a read of none is the end of the stream; a failed
/// read ends the loop without being reported.
pub fn after_read(buf: &[u8], read: Option<usize>) -> (step: ReadStep)
    requires
        read is Some ==> read->Some_0 <= buf@.len(),
    ensures
        step.emitted() == emitted_after(buf@, read),
{
    match read {
        Some(n) => {
            if n > 0 {
                ReadStep::Emit(decode_lossy(slice_subrange(buf, 0, n)))
            } else {
                ReadStep::Stop
            }
        },
        None => ReadStep::Stop,
    }
}

/// Whatever bytes a read of at least one byte brings, invalid sequences
/// included, the loop emits their lossy decoding and goes on reading.
pub proof fn lemma_any_bytes_keep_the_loop_going(buf: Seq<u8>, n: usize)
    requires
        0 < n <= buf.len(),
    ensures
        emitted_after(buf, Some(n)) == Some(lossy_utf8(buf.subrange(0, n as int))),
{
}

/// Only an empty read or a failed read ends the loop.
pub proof fn lemma_loop_ends_only_at_end_of_stream(buf: Seq<u8>, read: Option<usize>)
    ensures
        emitted_after(buf, read) is None <==> (read is None || read == Some(0usize)),
{
}

} // verus!
