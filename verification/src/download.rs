//! The retrying stream downloader's decisions, and the atomic-publish
//! protocol it follows: content is streamed into a temporary file and
//! renamed into place only once complete, so the destination path is never
//! observed in a partially-written state.

use crate::Error;
use vstd::prelude::*;

verus! {

/// A failed download attempt, tagged by whether it may be retried:
/// connection-level and mid-stream failures are transient, local write
/// failures are not.  This tag is the sole driver of the retry loop.
pub enum RetryableError {
    Retry(Error),
    Fail(Error),
}

/// What the retrying downloader does after one attempt: publish the
/// finished temporary file, clear it and try again, or clear it and give
/// the error up to the caller.
#[derive(Debug)]
pub enum RetryStep {
    Publish,
    RetryAgain,
    Abort(Error),
}

/// Decide what follows one download attempt: success publishes; a
/// transient failure is retried, with no retry limit; a permanent failure
/// aborts this resource alone, surfacing its error.
pub fn retry_step(attempt: Result<(), RetryableError>) -> (r: RetryStep)
    ensures
        attempt is Ok <==> r is Publish,
        (match attempt {
            Err(RetryableError::Retry(_)) => r is RetryAgain,
            Err(RetryableError::Fail(e)) => r matches RetryStep::Abort(a) && a@ == e@,
            Ok(()) => r is Publish,
        }),
{
    match attempt {
        Ok(()) => RetryStep::Publish,
        Err(RetryableError::Retry(_)) => RetryStep::RetryAgain,
        Err(RetryableError::Fail(e)) => RetryStep::Abort(e),
    }
}

/// Abstract state of the two paths one download touches: the destination
/// and its temporary file, each either absent or holding some bytes.
pub struct FsModel {
    pub dest: Option<Seq<u8>>,
    pub temp: Option<Seq<u8>>,
}

/// One step of a download attempt, as the protocol performs it against the
/// filesystem.
pub enum TransferEvent {
    /// Create or truncate the temporary file.
    Create,
    /// Append one received chunk to the temporary file.
    Chunk(Seq<u8>),
    /// A connection-level or mid-stream failure: the temporary file is
    /// deleted.
    StreamFail,
    /// A local write failure: the temporary file is deleted.
    WriteFail,
    /// Atomically rename the temporary file onto the destination.
    Publish,
}

/// The filesystem state after one protocol step.
pub open spec fn transfer_step(s: FsModel, e: TransferEvent) -> FsModel {
    match e {
        TransferEvent::Create => FsModel { dest: s.dest, temp: Some(Seq::<u8>::empty()) },
        TransferEvent::Chunk(b) => FsModel {
            dest: s.dest,
            temp: match s.temp {
                Some(c) => Some(c + b),
                None => None,
            },
        },
        TransferEvent::StreamFail => FsModel { dest: s.dest, temp: None },
        TransferEvent::WriteFail => FsModel { dest: s.dest, temp: None },
        TransferEvent::Publish => FsModel { dest: s.temp, temp: None },
    }
}

/// The filesystem state after a whole trace of protocol steps.
pub open spec fn run_transfer(s: FsModel, tr: Seq<TransferEvent>) -> FsModel
    decreases tr.len(),
{
    if tr.len() == 0 {
        s
    } else {
        transfer_step(run_transfer(s, tr.drop_last()), tr.last())
    }
}

/// The bytes of a sequence of chunks, in order.
pub open spec fn concat_bytes(chunks: Seq<Seq<u8>>) -> Seq<u8>
    decreases chunks.len(),
{
    if chunks.len() == 0 {
        Seq::<u8>::empty()
    } else {
        concat_bytes(chunks.drop_last()) + chunks.last()
    }
}

/// Atomicity under failure: however many chunks an attempt wrote to the
/// temporary file, if the attempt ends in a failure — and never published —
/// the destination still holds exactly what it held before, and the
/// temporary file is gone.  A truncated or partial new version is never
/// visible at the destination.
pub proof fn lemma_failed_attempt_atomic(s0: FsModel, tr: Seq<TransferEvent>)
    requires
        forall|k: int| 0 <= k < tr.len() ==> !((#[trigger] tr[k]) is Publish),
        tr.len() > 0,
        tr.last() is StreamFail || tr.last() is WriteFail,
    ensures
        run_transfer(s0, tr).dest == s0.dest,
        run_transfer(s0, tr).temp is None,
{
    lemma_no_publish_keeps_dest(s0, tr);
}

/// Without a publish step, no trace changes the destination.
pub proof fn lemma_no_publish_keeps_dest(s0: FsModel, tr: Seq<TransferEvent>)
    requires
        forall|k: int| 0 <= k < tr.len() ==> !((#[trigger] tr[k]) is Publish),
    ensures
        run_transfer(s0, tr).dest == s0.dest,
    decreases tr.len(),
{
    if tr.len() > 0 {
        assert(forall|k: int|
            0 <= k < tr.drop_last().len() ==> !((#[trigger] tr.drop_last()[k]) is Publish));
        lemma_no_publish_keeps_dest(s0, tr.drop_last());
        assert(!(tr[tr.len() - 1] is Publish));
    }
}

/// A successful attempt publishes exactly the received bytes: after
/// creating the temporary file, appending each chunk in order, and
/// publishing, the destination holds the chunks' concatenation and the
/// temporary file is gone.
pub proof fn lemma_successful_attempt_publishes(s0: FsModel, chunks: Seq<Seq<u8>>)
    ensures
        ({
            let tr = seq![TransferEvent::Create] + chunks.map_values(
                |b: Seq<u8>| TransferEvent::Chunk(b),
            ) + seq![TransferEvent::Publish];
            run_transfer(s0, tr).dest == Some(concat_bytes(chunks)) && run_transfer(
                s0,
                tr,
            ).temp is None
        }),
{
    let mid = seq![TransferEvent::Create] + chunks.map_values(
        |b: Seq<u8>| TransferEvent::Chunk(b),
    );
    let tr = mid + seq![TransferEvent::Publish];
    assert(tr.drop_last() =~= mid);
    lemma_chunks_fill_temp(s0, chunks);
    assert(tr.last() == TransferEvent::Publish);
}

/// After creating the temporary file and appending each chunk in order,
/// the temporary file holds the chunks' concatenation.
proof fn lemma_chunks_fill_temp(s0: FsModel, chunks: Seq<Seq<u8>>)
    ensures
        ({
            let tr = seq![TransferEvent::Create] + chunks.map_values(
                |b: Seq<u8>| TransferEvent::Chunk(b),
            );
            run_transfer(s0, tr).temp == Some(concat_bytes(chunks))
        }),
    decreases chunks.len(),
{
    let tr = seq![TransferEvent::Create] + chunks.map_values(|b: Seq<u8>| TransferEvent::Chunk(b));
    if chunks.len() == 0 {
        assert(tr =~= seq![TransferEvent::Create]);
        assert(tr.drop_last() =~= Seq::<TransferEvent>::empty());
        assert(concat_bytes(chunks) =~= Seq::<u8>::empty());
    } else {
        let prev = seq![TransferEvent::Create] + chunks.drop_last().map_values(
            |b: Seq<u8>| TransferEvent::Chunk(b),
        );
        assert(tr.drop_last() =~= prev);
        lemma_chunks_fill_temp(s0, chunks.drop_last());
        assert(tr.last() == TransferEvent::Chunk(chunks.last()));
    }
}

} // verus!
