//! Reading from a stream into a buffer: what a read that came back leaves in the buffer.

use tokio::io::ReadBuf;
use vstd::prelude::*;

verus! {

/// A buffer that is filled from the front. Opaque: what it holds is named by
/// [`initialized_bytes`], [`filled_len`] and [`capacity`].
#[verifier::external_type_specification]
#[verifier::external_body]
pub struct ExReadBuf<'a>(ReadBuf<'a>);

/// The bytes of the buffer that were ever written, those that count as filled first.
pub uninterp spec fn initialized_bytes(buf: ReadBuf<'_>) -> Seq<u8>;

/// How many bytes of the buffer count as filled.
pub uninterp spec fn filled_len(buf: ReadBuf<'_>) -> nat;

/// How many bytes the buffer was made for.
pub uninterp spec fn capacity(buf: ReadBuf<'_>) -> nat;

/// The bytes of the buffer that count as filled.
pub open spec fn filled_bytes(buf: ReadBuf<'_>) -> Seq<u8> {
    initialized_bytes(buf).take(filled_len(buf) as int)
}

/// Calls `ReadBuf::filled`, and gives the number of bytes in it. The filled part lies
/// within the initialized part.
#[verifier::external_body]
fn count_filled(buf: &ReadBuf<'_>) -> (count: usize)
    ensures
        count == filled_len(*buf),
        count <= initialized_bytes(*buf).len(),
{
    buf.filled().len()
}

/// Calls `ReadBuf::initialized`, and gives the number of bytes in it. The initialized part
/// lies within the buffer.
#[verifier::external_body]
fn count_initialized(buf: &ReadBuf<'_>) -> (count: usize)
    ensures
        count == initialized_bytes(*buf).len(),
        count <= capacity(*buf),
{
    buf.initialized().len()
}

/// Calls `ReadBuf::advance`, which lets `n` more bytes count as filled and changes neither
/// the bytes nor the size of the buffer. It panics where that many were never written.
#[verifier::external_body]
fn advance(buf: &mut ReadBuf<'_>, n: usize)
    requires
        filled_len(*old(buf)) + n <= initialized_bytes(*old(buf)).len(),
    ensures
        initialized_bytes(*final(buf)) == initialized_bytes(*old(buf)),
        filled_len(*final(buf)) == filled_len(*old(buf)) + n,
        capacity(*final(buf)) == capacity(*old(buf)),
{
    buf.advance(n)
}

/// What a read into the unfilled part of a buffer came to.
#[derive(Debug)]
pub enum ReadOutcome<E> {
    /// Nothing can be read yet.
    Pending,
    /// This many bytes were written at the start of the unfilled part.
    Read(usize),
    /// The read failed.
    Failed(E),
}

/// What is told to who asked for the read.
#[derive(Debug)]
pub enum ReadReport<E> {
    /// Nothing can be read yet.
    Pending,
    /// The bytes read count as filled now.
    Done,
    /// The read failed.
    Failed(E),
    /// The stream claims more bytes than the buffer had room for.
    Overrun,
}

/// Takes over the outcome of a read: the bytes read are counted as filled, and in every
/// other case the buffer stays as it was.
pub fn finish_read<E>(buf: &mut ReadBuf<'_>, outcome: ReadOutcome<E>) -> (report: ReadReport<E>)
    ensures
        match outcome {
            ReadOutcome::Pending => report is Pending && *final(buf) == *old(buf),
            ReadOutcome::Failed(error) => report == ReadReport::Failed(error) && *final(buf)
                == *old(buf),
            ReadOutcome::Read(size) => if filled_len(*old(buf)) + size <= initialized_bytes(
                *old(buf),
            ).len() {
                &&& report is Done
                &&& initialized_bytes(*final(buf)) == initialized_bytes(*old(buf))
                &&& filled_len(*final(buf)) == filled_len(*old(buf)) + size
                &&& capacity(*final(buf)) == capacity(*old(buf))
                &&& filled_bytes(*final(buf)) == filled_bytes(*old(buf)) + initialized_bytes(
                    *old(buf),
                ).subrange(
                    filled_len(*old(buf)) as int,
                    filled_len(*old(buf)) + size,
                )
            } else {
                report is Overrun && *final(buf) == *old(buf)
            },
        },
{
    match outcome {
        ReadOutcome::Pending => ReadReport::Pending,
        ReadOutcome::Failed(error) => ReadReport::Failed(error),
        ReadOutcome::Read(size) => {
            if size <= count_initialized(buf) - count_filled(buf) {
                advance(buf, size);
                assert(filled_bytes(*buf) =~= filled_bytes(*old(buf)) + initialized_bytes(
                    *old(buf),
                ).subrange(filled_len(*old(buf)) as int, filled_len(*old(buf)) + size));
                ReadReport::Done
            } else {
                ReadReport::Overrun
            }
        },
    }
}

/// A read that came back with bytes for which there is room has them count as filled, behind
/// those that did before, and changes nothing else; every other read changes nothing at all.
pub proof fn read_bytes_count_as_filled<E>(
    buf: &mut ReadBuf<'_>,
    outcome: ReadOutcome<E>,
    report: ReadReport<E>,
)
    requires
        call_ensures(finish_read::<E>, (buf, outcome), report),
    ensures
        initialized_bytes(*final(buf)) == initialized_bytes(*old(buf)),
        capacity(*final(buf)) == capacity(*old(buf)),
        report is Done <==> (outcome matches ReadOutcome::Read(size) && filled_len(*old(buf))
            + size <= initialized_bytes(*old(buf)).len()),
        outcome matches ReadOutcome::Read(size) ==> report is Done ==> filled_len(*final(buf))
            == filled_len(*old(buf)) + size,
        report !is Done ==> *final(buf) == *old(buf),
        report is Pending <==> outcome is Pending,
        outcome matches ReadOutcome::Failed(error) <==> report is Failed,
        outcome matches ReadOutcome::Failed(error) ==> report == ReadReport::Failed(error),
{
}

} // verus!
