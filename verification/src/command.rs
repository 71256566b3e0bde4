use vstd::prelude::*;

use crate::process::ExitStatus;
use crate::process::IoError;
use crate::process::Output;

verus! {

/// A writable byte destination, such as a capture buffer or the hosting
/// program's own output stream. `accepted` is the sequence of bytes the sink
/// has taken so far; a failed write accepts nothing.
pub trait ByteSink {
    /// The bytes this sink has accepted so far, oldest first. An impl at
    /// the I/O edge need not track its history; the default records
    /// nothing, and only impls that override it support reasoning about
    /// what they received.
    open spec fn accepted(&self) -> Seq<u8> {
        Seq::empty()
    }

    /// Write the whole chunk, or fail having accepted none of it.
    fn write_all(&mut self, chunk: &[u8]) -> (r: Result<(), IoError>)
        ensures
            r is Ok ==> final(self).accepted() == old(self).accepted() + chunk@,
            r is Err ==> final(self).accepted() == old(self).accepted(),
    ;

    /// Push buffered bytes down to the destination; the accepted bytes are
    /// unchanged whether or not this succeeds.
    fn flush(&mut self) -> (r: Result<(), IoError>)
        ensures
            final(self).accepted() == old(self).accepted(),
    ;
}

/// An in-memory capture buffer is itself a byte sink that never fails.
impl ByteSink for Vec<u8> {
    open spec fn accepted(&self) -> Seq<u8> {
        self@
    }

    fn write_all(&mut self, chunk: &[u8]) -> (r: Result<(), IoError>)
        ensures
            r is Ok,
    {
        let mut i: usize = 0;
        while i < chunk.len()
            invariant
                i <= chunk.len(),
                self@ == old(self)@ + chunk@.subrange(0, i as int),
            decreases chunk.len() - i,
        {
            self.push(chunk[i]);
            i = i + 1;
            proof {
                assert(chunk@.subrange(0, i as int)
                    == chunk@.subrange(0, i - 1).push(chunk@[i - 1]));
            }
        }
        proof {
            assert(chunk@.subrange(0, chunk.len() as int) == chunk@);
        }
        Ok(())
    }

    fn flush(&mut self) -> (r: Result<(), IoError>)
        ensures
            r is Ok,
    {
        Ok(())
    }
}

/// A readable byte stream, such as the parent's end of a child process pipe.
/// `delivered` is the sequence of bytes the source has handed out so far.
/// A source is finite: a child process eventually exits and closes its
/// pipe, so `remaining` bounds how many more chunks it can hand out.
pub trait ByteSource {
    /// All bytes this source has handed out so far, oldest first. As with
    /// sinks, an impl at the I/O edge need not track its history.
    open spec fn delivered(&self) -> Seq<u8> {
        Seq::empty()
    }

    /// How much the source can still deliver; each non-empty chunk read
    /// strictly shrinks it.
    open spec fn remaining(&self) -> nat {
        0
    }

    /// Read the next chunk. An empty chunk means end-of-stream; a failed
    /// read delivers nothing.
    fn read_chunk(&mut self) -> (r: Result<Vec<u8>, IoError>)
        ensures
            r matches Ok(chunk) ==> {
                &&& final(self).delivered() == old(self).delivered() + chunk@
                &&& chunk@.len() > 0 ==> final(self).remaining() < old(self).remaining()
            },
            r is Err ==> final(self).delivered() == old(self).delivered(),
    ;
}

/// A handle on a spawned child process that can be awaited once.
pub trait ChildHandle {
    /// Block until the child exits and report how it ended.
    fn wait(&mut self) -> (r: Result<ExitStatus, IoError>);
}

/// The two sinks a duplicating writer feeds, in write order: the first sink
/// is written before the second, and a failure on the first short-circuits
/// the second.
#[derive(Clone, Copy, Debug, PartialEq, Eq, Structural)]
pub enum TeeSide {
    First,
    Second,
}

/// A write or flush through a duplicating writer failed on one of its two
/// sinks; the fault names which.
#[derive(Clone, Debug, PartialEq, Eq)]
pub struct TeeFault {
    pub side: TeeSide,
    pub error: IoError,
}

/// A writer that duplicates every chunk into two sinks, like the UNIX `tee`
/// command: the whole chunk goes to the first sink and, only if that
/// succeeded, to the second. In a process run the first sink is the capture
/// buffer and the second is the caller's external sink.
#[derive(Debug)]
pub struct TeeWrite<A: ByteSink, B: ByteSink> {
    pub inner_a: A,
    pub inner_b: B,
}

/// Constructs a writer that writes to two other sinks. Similar to the UNIX
/// `tee` command.
pub fn tee<A: ByteSink, B: ByteSink>(a: A, b: B) -> (r: TeeWrite<A, B>)
    ensures
        r.inner_a == a,
        r.inner_b == b,
{
    TeeWrite { inner_a: a, inner_b: b }
}

impl<A: ByteSink, B: ByteSink> TeeWrite<A, B> {
    /// Write the chunk to the first sink, then to the second; fail fast on
    /// the first failure. On success both sinks accepted exactly the chunk;
    /// on failure the second sink accepted nothing, and the first accepted
    /// either nothing or the whole chunk, depending on which side failed.
    pub fn write(&mut self, chunk: &[u8]) -> (r: Result<usize, TeeFault>)
        ensures
            r matches Ok(n) ==> {
                &&& n == chunk@.len()
                &&& final(self).inner_a.accepted() == old(self).inner_a.accepted() + chunk@
                &&& final(self).inner_b.accepted() == old(self).inner_b.accepted() + chunk@
            },
            r matches Err(f) ==> {
                &&& final(self).inner_b.accepted() == old(self).inner_b.accepted()
                &&& f.side is First ==> final(self).inner_a.accepted()
                    == old(self).inner_a.accepted()
                &&& f.side is Second ==> final(self).inner_a.accepted()
                    == old(self).inner_a.accepted() + chunk@
            },
    {
        match self.inner_a.write_all(chunk) {
            Ok(()) => {}
            Err(e) => {
                return Err(TeeFault { side: TeeSide::First, error: e });
            }
        }
        match self.inner_b.write_all(chunk) {
            Ok(()) => Ok(chunk.len()),
            Err(e) => Err(TeeFault { side: TeeSide::Second, error: e }),
        }
    }

    /// Flush the first sink, then — only if that succeeded — the second.
    /// Accepted bytes are unchanged on every path.
    pub fn flush(&mut self) -> (r: Result<(), TeeFault>)
        ensures
            final(self).inner_a.accepted() == old(self).inner_a.accepted(),
            final(self).inner_b.accepted() == old(self).inner_b.accepted(),
    {
        match self.inner_a.flush() {
            Ok(()) => {}
            Err(e) => {
                return Err(TeeFault { side: TeeSide::First, error: e });
            }
        }
        match self.inner_b.flush() {
            Ok(()) => Ok(()),
            Err(e) => Err(TeeFault { side: TeeSide::Second, error: e }),
        }
    }

    /// Take the two sinks back out; the writer owns them only while a stream
    /// is being drained.
    pub fn into_parts(self) -> (r: (A, B))
        ensures
            r.0 == self.inner_a,
            r.1 == self.inner_b,
    {
        (self.inner_a, self.inner_b)
    }
}

/// A fault while draining one stream: the read end failed, or one side of
/// the duplicating writer rejected a chunk.
#[derive(Clone, Debug, PartialEq, Eq)]
pub enum StreamFault {
    Read(IoError),
    Sink(TeeFault),
}

/// The two output streams of a child process.
#[derive(Clone, Copy, Debug, PartialEq, Eq, Structural)]
pub enum StreamId {
    Stdout,
    Stderr,
}

/// Why a run failed after the child was spawned: a drain fault on one
/// stream, a drain task that ended abnormally, or a failure while awaiting
/// the child's exit.
#[derive(Clone, Debug, PartialEq, Eq)]
pub enum RunFault {
    Stream(StreamId, StreamFault),
    Task(StreamId),
    Wait(IoError),
}

/// How one drain task ended, as observed by whoever joined it: it drained
/// its pipe to end-of-stream, it hit an I/O fault, or it ended abnormally
/// (for example, its thread panicked).
#[derive(Clone, Debug, PartialEq, Eq)]
pub enum DrainReport {
    Completed,
    Faulted(StreamFault),
    Abnormal,
}

/// The bytes a source handed out between two of its states.
pub open spec fn source_delta<S: ByteSource>(pre: &S, post: &S) -> Seq<u8> {
    post.delivered().skip(pre.delivered().len() as int)
}

/// After a drain fault, the sinks hold the drained prefix `d` of the bytes
/// the source delivered during the call: the second sink accepted exactly
/// `d`, and the first accepted either `d` or everything delivered.
pub open spec fn partial_drain(
    base_a: Seq<u8>,
    base_b: Seq<u8>,
    now_a: Seq<u8>,
    now_b: Seq<u8>,
    delta: Seq<u8>,
    d: Seq<u8>,
) -> bool {
    &&& d.is_prefix_of(delta)
    &&& now_b == base_b + d
    &&& (now_a == base_a + d || now_a == base_a + delta)
}

/// Drain one stream: read chunks from the source until end-of-stream and
/// write each in full through the duplicating writer. On success both sinks
/// accepted exactly the bytes the source delivered during this call, in
/// order; on a fault the second sink holds a prefix of those bytes and the
/// first holds either the same prefix or one chunk more.
pub fn copy_stream<S: ByteSource, A: ByteSink, B: ByteSink>(
    source: &mut S,
    writer: &mut TeeWrite<A, B>,
) -> (r: Result<(), StreamFault>)
    ensures
        old(source).delivered().is_prefix_of(final(source).delivered()),
        r is Ok ==> {
            &&& final(writer).inner_a.accepted() == old(writer).inner_a.accepted()
                + source_delta(old(source), final(source))
            &&& final(writer).inner_b.accepted() == old(writer).inner_b.accepted()
                + source_delta(old(source), final(source))
        },
        r is Err ==> exists|d: Seq<u8>|
            partial_drain(
                old(writer).inner_a.accepted(),
                old(writer).inner_b.accepted(),
                final(writer).inner_a.accepted(),
                final(writer).inner_b.accepted(),
                source_delta(old(source), final(source)),
                d,
            ),
        r matches Err(StreamFault::Read(_)) ==> {
            &&& final(writer).inner_a.accepted() == old(writer).inner_a.accepted()
                + source_delta(old(source), final(source))
            &&& final(writer).inner_b.accepted() == old(writer).inner_b.accepted()
                + source_delta(old(source), final(source))
        },
{
    let ghost mut done: Seq<u8> = Seq::empty();
    proof {
        assert(source.delivered() =~= old(source).delivered() + done);
        assert(writer.inner_a.accepted() =~= old(writer).inner_a.accepted() + done);
        assert(writer.inner_b.accepted() =~= old(writer).inner_b.accepted() + done);
    }
    loop
        invariant
            source.delivered() == old(source).delivered() + done,
            writer.inner_a.accepted() == old(writer).inner_a.accepted() + done,
            writer.inner_b.accepted() == old(writer).inner_b.accepted() + done,
        decreases source.remaining(),
    {
        let chunk = match source.read_chunk() {
            Ok(c) => c,
            Err(e) => {
                proof {
                    lemma_concat_parts(old(source).delivered(), done);
                    assert(partial_drain(
                        old(writer).inner_a.accepted(),
                        old(writer).inner_b.accepted(),
                        writer.inner_a.accepted(),
                        writer.inner_b.accepted(),
                        source_delta(old(source), source),
                        done,
                    ));
                }
                return Err(StreamFault::Read(e));
            }
        };
        if chunk.len() == 0 {
            proof {
                assert(chunk@ =~= Seq::<u8>::empty());
                assert(old(source).delivered() + done + chunk@
                    =~= old(source).delivered() + done);
                lemma_concat_parts(old(source).delivered(), done);
            }
            return Ok(());
        }
        match writer.write(chunk.as_slice()) {
            Ok(_) => {
                proof {
                    lemma_concat_assoc(old(source).delivered(), done, chunk@);
                    lemma_concat_assoc(old(writer).inner_a.accepted(), done, chunk@);
                    lemma_concat_assoc(old(writer).inner_b.accepted(), done, chunk@);
                    done = done + chunk@;
                }
            }
            Err(f) => {
                proof {
                    let delta = done + chunk@;
                    lemma_concat_parts(old(source).delivered(), delta);
                    lemma_concat_assoc(old(source).delivered(), done, chunk@);
                    assert(done.is_prefix_of(delta)) by {
                        assert(delta.take(done.len() as int) =~= done);
                    }
                    if f.side is Second {
                        lemma_concat_assoc(old(writer).inner_a.accepted(), done, chunk@);
                    }
                    assert(partial_drain(
                        old(writer).inner_a.accepted(),
                        old(writer).inner_b.accepted(),
                        writer.inner_a.accepted(),
                        writer.inner_b.accepted(),
                        source_delta(old(source), source),
                        done,
                    ));
                }
                return Err(StreamFault::Sink(f));
            }
        }
    }
}

/// A sequence that extends `base` by `rest` has `base` as a prefix, and its
/// part past `base` is exactly `rest`.
proof fn lemma_concat_parts(base: Seq<u8>, rest: Seq<u8>)
    ensures
        base.is_prefix_of(base + rest),
        (base + rest).skip(base.len() as int) == rest,
{
    assert((base + rest).take(base.len() as int) =~= base);
    assert((base + rest).skip(base.len() as int) =~= rest);
}

/// Concatenation of byte sequences is associative.
proof fn lemma_concat_assoc(a: Seq<u8>, b: Seq<u8>, c: Seq<u8>)
    ensures
        (a + b) + c == a + (b + c),
{
    assert((a + b) + c =~= a + (b + c));
}

/// Every sequence is a prefix of itself.
proof fn lemma_prefix_refl(s: Seq<u8>)
    ensures
        s.is_prefix_of(s),
{
    assert(s.take(s.len() as int) =~= s);
}

/// The fault a run reports once both drain tasks and the child's exit have
/// been observed: a stdout drain fault wins over a stderr drain fault, which
/// wins over a failure of the wait itself; no fault means success.
pub open spec fn spec_run_fault(
    stdout_report: DrainReport,
    stderr_report: DrainReport,
    wait: Result<ExitStatus, IoError>,
) -> Option<RunFault> {
    match stdout_report {
        DrainReport::Faulted(f) => Some(RunFault::Stream(StreamId::Stdout, f)),
        DrainReport::Abnormal => Some(RunFault::Task(StreamId::Stdout)),
        DrainReport::Completed => match stderr_report {
            DrainReport::Faulted(f) => Some(RunFault::Stream(StreamId::Stderr, f)),
            DrainReport::Abnormal => Some(RunFault::Task(StreamId::Stderr)),
            DrainReport::Completed => match wait {
                Result::Err(e) => Some(RunFault::Wait(e)),
                Result::Ok(_) => None,
            },
        },
    }
}

/// Reconcile how the two drain tasks and the child's exit ended into one
/// result. Succeeds exactly when both drains completed and the wait
/// delivered a status; the sealed capture buffers are never discarded on a
/// success path, and a drain fault is never downgraded to an empty result.
pub fn finish_streams(
    stdout_report: DrainReport,
    stderr_report: DrainReport,
    wait: Result<ExitStatus, IoError>,
    stdout_buf: Vec<u8>,
    stderr_buf: Vec<u8>,
) -> (r: Result<Output, RunFault>)
    ensures
        r is Ok <==> spec_run_fault(stdout_report, stderr_report, wait) is None,
        r matches Ok(out) ==> {
            &&& wait matches Ok(status) && out.status == status
            &&& out.stdout == stdout_buf
            &&& out.stderr == stderr_buf
        },
        r matches Err(f) ==> Some(f) == spec_run_fault(stdout_report, stderr_report, wait),
{
    match stdout_report {
        DrainReport::Faulted(f) => Err(RunFault::Stream(StreamId::Stdout, f)),
        DrainReport::Abnormal => Err(RunFault::Task(StreamId::Stdout)),
        DrainReport::Completed => match stderr_report {
            DrainReport::Faulted(f) => Err(RunFault::Stream(StreamId::Stderr, f)),
            DrainReport::Abnormal => Err(RunFault::Task(StreamId::Stderr)),
            DrainReport::Completed => match wait {
                Err(e) => Err(RunFault::Wait(e)),
                Ok(status) => Ok(Output { status, stdout: stdout_buf, stderr: stderr_buf }),
            },
        },
    }
}

/// A sink advanced from `base` to `now` by some prefix of `delta`.
pub open spec fn forwarded_prefix(base: Seq<u8>, now: Seq<u8>, delta: Seq<u8>) -> bool {
    exists|d: Seq<u8>| #![trigger d.is_prefix_of(delta)] d.is_prefix_of(delta) && now == base + d
}

/// Run one spawned child to completion: drain both of its output streams
/// through a duplicating writer each — one capture buffer plus the caller's
/// external sink per stream — then await its exit and reconcile the three
/// outcomes. The sinks are only borrowed for the run and are returned with
/// the result. On success the captured stdout and stderr are exactly the
/// bytes each pipe delivered during this call — the buffers start empty, so
/// nothing leaks between runs — and each external sink received exactly the
/// same bytes as its capture buffer; on a fault each external sink holds a
/// prefix of what its pipe delivered.
pub fn output_and_write_streams<
    C: ChildHandle,
    PO: ByteSource,
    PE: ByteSource,
    OW: ByteSink,
    EW: ByteSink,
>(
    child: &mut C,
    child_stdout: &mut PO,
    child_stderr: &mut PE,
    stdout_write: OW,
    stderr_write: EW,
) -> (r: (Result<Output, RunFault>, OW, EW))
    ensures
        r.0 matches Ok(out) ==> {
            &&& out.stdout@ == source_delta(old(child_stdout), final(child_stdout))
            &&& out.stderr@ == source_delta(old(child_stderr), final(child_stderr))
            &&& r.1.accepted() == stdout_write.accepted() + out.stdout@
            &&& r.2.accepted() == stderr_write.accepted() + out.stderr@
        },
        r.0 is Err ==> forwarded_prefix(
            stdout_write.accepted(),
            r.1.accepted(),
            source_delta(old(child_stdout), final(child_stdout)),
        ),
        r.0 is Err ==> forwarded_prefix(
            stderr_write.accepted(),
            r.2.accepted(),
            source_delta(old(child_stderr), final(child_stderr)),
        ),
{
    let mut out_tee = tee(Vec::<u8>::new(), stdout_write);
    let mut err_tee = tee(Vec::<u8>::new(), stderr_write);
    let ghost out_tee0 = out_tee;
    let ghost err_tee0 = err_tee;

    let out_res = copy_stream(child_stdout, &mut out_tee);
    let err_res = copy_stream(child_stderr, &mut err_tee);

    // The child's exit is awaited even when a drain faulted, so a failing
    // run does not leave a zombie process behind; the status is then
    // discarded in favour of the fault.
    let wait_res = child.wait();

    let ghost delta_out = source_delta(old(child_stdout), child_stdout);
    let ghost delta_err = source_delta(old(child_stderr), child_stderr);

    let (stdout_buf, stdout_sink) = out_tee.into_parts();
    let (stderr_buf, stderr_sink) = err_tee.into_parts();

    proof {
        lemma_prefix_refl(delta_out);
        lemma_prefix_refl(delta_err);
        if out_res is Ok {
            assert(stdout_buf@ =~= delta_out);
        } else {
            let d = choose|d: Seq<u8>|
                partial_drain(
                    out_tee0.inner_a.accepted(),
                    out_tee0.inner_b.accepted(),
                    stdout_buf.accepted(),
                    stdout_sink.accepted(),
                    delta_out,
                    d,
                );
            assert(d.is_prefix_of(delta_out));
        }
        if err_res is Ok {
            assert(stderr_buf@ =~= delta_err);
        } else {
            let d = choose|d: Seq<u8>|
                partial_drain(
                    err_tee0.inner_a.accepted(),
                    err_tee0.inner_b.accepted(),
                    stderr_buf.accepted(),
                    stderr_sink.accepted(),
                    delta_err,
                    d,
                );
            assert(d.is_prefix_of(delta_err));
        }
    }

    let stdout_report = match out_res {
        Ok(()) => DrainReport::Completed,
        Err(f) => DrainReport::Faulted(f),
    };
    let stderr_report = match err_res {
        Ok(()) => DrainReport::Completed,
        Err(f) => DrainReport::Faulted(f),
    };

    let result = finish_streams(stdout_report, stderr_report, wait_res, stdout_buf, stderr_buf);
    (result, stdout_sink, stderr_sink)
}

/// Duplication law: a successful write through a duplicating writer extends
/// both sinks by the same bytes, so sinks that started in agreement hold
/// byte-for-byte identical data in identical order afterwards.
pub proof fn lemma_tee_duplicates(
    a_before: Seq<u8>,
    b_before: Seq<u8>,
    a_after: Seq<u8>,
    b_after: Seq<u8>,
    data: Seq<u8>,
)
    requires
        a_before == b_before,
        a_after == a_before + data,
        b_after == b_before + data,
    ensures
        a_after == b_after,
{
}

/// Freshness law: a run captures exactly what its own pipe delivered, so
/// two runs whose pipes deliver the same bytes capture the same bytes —
/// whatever earlier runs accumulated in the shared sinks, no state leaks
/// from one call into the next.
pub proof fn lemma_runs_do_not_leak(
    first_delta: Seq<u8>,
    first_captured: Seq<u8>,
    second_delta: Seq<u8>,
    second_captured: Seq<u8>,
)
    requires
        first_captured == first_delta,
        second_captured == second_delta,
        first_delta == second_delta,
    ensures
        first_captured == second_captured,
{
}

/// Fail-fast law: however a drain ends, the second (external) sink's growth
/// is a prefix of the first (capture) sink's growth, and the first sink's
/// growth is a prefix of what the source delivered — the external sink is
/// never ahead of the capture buffer, and neither invents bytes.
pub proof fn lemma_fail_fast_order(
    base_a: Seq<u8>,
    base_b: Seq<u8>,
    now_a: Seq<u8>,
    now_b: Seq<u8>,
    delta: Seq<u8>,
    d: Seq<u8>,
)
    requires
        partial_drain(base_a, base_b, now_a, now_b, delta, d),
    ensures
        now_b.skip(base_b.len() as int).is_prefix_of(now_a.skip(base_a.len() as int)),
        now_a.skip(base_a.len() as int).is_prefix_of(delta),
{
    lemma_concat_parts(base_b, d);
    if now_a == base_a + d {
        lemma_concat_parts(base_a, d);
        lemma_prefix_refl(d);
    } else {
        lemma_concat_parts(base_a, delta);
        lemma_prefix_refl(delta);
    }
}

} // verus!
