use fun_run::copy_stream;
use fun_run::finish_streams;
use fun_run::output_and_write_streams;
use fun_run::tee;
use fun_run::BoundedSink;
use fun_run::ByteSink;
use fun_run::DrainReport;
use fun_run::ExitStatus;
use fun_run::ExitedChild;
use fun_run::IoError;
use fun_run::MemorySource;
use fun_run::RunFault;
use fun_run::StreamFault;
use fun_run::StreamId;
use fun_run::TeeSide;

fn io_error(message: &str) -> IoError {
    IoError {
        raw_os: None,
        message: message.to_string(),
    }
}

#[test]
fn runner_captures_and_forwards_in_memory() {
    let mut child = ExitedChild::new(ExitStatus::Exited(0));
    let mut out_pipe = MemorySource::new(b"Hello World!".to_vec(), 4);
    let mut err_pipe = MemorySource::new(Vec::new(), 4);

    let (res, out_sink, err_sink) = output_and_write_streams(
        &mut child,
        &mut out_pipe,
        &mut err_pipe,
        Vec::new(),
        Vec::new(),
    );
    let output = res.unwrap();

    assert_eq!(out_sink, b"Hello World!".to_vec());
    assert_eq!(err_sink, Vec::<u8>::new());
    assert_eq!(output.status.code(), Some(0));
    assert!(output.status.success());
    assert_eq!(output.stdout, b"Hello World!".to_vec());
    assert_eq!(output.stderr, Vec::<u8>::new());
}

#[test]
fn runner_keeps_output_on_nonzero_exit() {
    let mut child = ExitedChild::new(ExitStatus::Exited(1));
    let mut out_pipe = MemorySource::new(b"hello world".to_vec(), 3);
    let mut err_pipe = MemorySource::new(Vec::new(), 3);

    let (res, _out_sink, _err_sink) = output_and_write_streams(
        &mut child,
        &mut out_pipe,
        &mut err_pipe,
        Vec::new(),
        Vec::new(),
    );
    let output = res.unwrap();

    assert_eq!(output.stdout, b"hello world".to_vec());
    assert_eq!(output.stderr, Vec::<u8>::new());
    assert_eq!(output.status, ExitStatus::Exited(1));
    assert!(!output.status.success());

    let named = fun_run::nonzero_captured("bash".to_string(), output);
    match named {
        Ok(_) => panic!("a non-zero exit must become an error"),
        Err(fun_run::CmdError::NonZeroExitNotStreamed(no)) => {
            assert_eq!(no.stdout(), &b"hello world".to_vec());
        }
        Err(_) => panic!("wrong error variant"),
    }
}

#[test]
fn tee_duplicates_chunks() {
    let mut tw = tee(Vec::new(), Vec::new());
    assert_eq!(tw.write(b"hello ").unwrap(), 6);
    assert_eq!(tw.write(b"world").unwrap(), 5);
    tw.flush().unwrap();
    let (a, b) = tw.into_parts();
    assert_eq!(a, b"hello world".to_vec());
    assert_eq!(a, b);
}

#[test]
fn tee_accepts_empty_chunks() {
    let mut tw = tee(Vec::new(), Vec::new());
    assert_eq!(tw.write(b"").unwrap(), 0);
    let (a, b) = tw.into_parts();
    assert_eq!(a, Vec::<u8>::new());
    assert_eq!(b, Vec::<u8>::new());
}

#[test]
fn bounded_sink_takes_an_exact_fit() {
    let mut sink = BoundedSink::new(3);
    sink.write_all(b"abc").unwrap();
    assert!(sink.write_all(b"d").is_err());
    assert_eq!(sink.taken, b"abc".to_vec());
}

#[test]
fn tee_fail_fast_on_second_sink() {
    let mut tw = tee(Vec::new(), BoundedSink::new(5));
    tw.write(b"abc").unwrap();
    let fault = tw.write(b"def").unwrap_err();
    assert!(matches!(fault.side, TeeSide::Second));
    let (buffer, sink) = tw.into_parts();
    // The first sink is at most one chunk ahead; the second never leads.
    assert_eq!(buffer, b"abcdef".to_vec());
    assert_eq!(sink.taken, b"abc".to_vec());
}

#[test]
fn tee_fail_fast_on_first_sink() {
    let mut tw = tee(BoundedSink::new(2), Vec::new());
    let fault = tw.write(b"abc").unwrap_err();
    assert!(matches!(fault.side, TeeSide::First));
    let (first, second) = tw.into_parts();
    assert_eq!(first.taken, Vec::<u8>::new());
    assert_eq!(second, Vec::<u8>::new());
}

#[test]
fn copy_stream_drains_to_end_of_stream() {
    let data = vec![7u8; 1_000_000];
    let mut source = MemorySource::new(data.clone(), 4096);
    let mut tw = tee(Vec::new(), Vec::new());
    copy_stream(&mut source, &mut tw).unwrap();
    let (buffer, sink) = tw.into_parts();
    assert_eq!(buffer.len(), data.len());
    assert_eq!(buffer, data);
    assert_eq!(sink, data);
}

#[test]
fn copy_stream_of_empty_source_is_empty() {
    let mut source = MemorySource::new(Vec::new(), 4096);
    let mut tw = tee(Vec::new(), Vec::new());
    copy_stream(&mut source, &mut tw).unwrap();
    let (buffer, sink) = tw.into_parts();
    assert_eq!(buffer, Vec::<u8>::new());
    assert_eq!(sink, Vec::<u8>::new());
}

#[test]
fn runner_handles_asymmetric_volumes() {
    // One stream emits a megabyte while the other emits nothing, in both
    // orientations; both buffers must come back complete.
    let big = vec![42u8; 1_000_000];

    let mut child = ExitedChild::new(ExitStatus::Exited(0));
    let mut out_pipe = MemorySource::new(big.clone(), 8192);
    let mut err_pipe = MemorySource::new(Vec::new(), 8192);
    let (res, _, _) = output_and_write_streams(
        &mut child,
        &mut out_pipe,
        &mut err_pipe,
        Vec::new(),
        Vec::new(),
    );
    let output = res.unwrap();
    assert_eq!(output.stdout, big);
    assert_eq!(output.stderr, Vec::<u8>::new());

    let mut child = ExitedChild::new(ExitStatus::Exited(0));
    let mut out_pipe = MemorySource::new(Vec::new(), 8192);
    let mut err_pipe = MemorySource::new(big.clone(), 8192);
    let (res, _, _) = output_and_write_streams(
        &mut child,
        &mut out_pipe,
        &mut err_pipe,
        Vec::new(),
        Vec::new(),
    );
    let output = res.unwrap();
    assert_eq!(output.stdout, Vec::<u8>::new());
    assert_eq!(output.stderr, big);
}

#[test]
fn runner_reports_the_failing_stream_and_side() {
    let mut child = ExitedChild::new(ExitStatus::Exited(0));
    let mut out_pipe = MemorySource::new(b"fine".to_vec(), 16);
    let mut err_pipe = MemorySource::new(b"too much for the sink".to_vec(), 16);

    let (res, out_sink, err_sink) = output_and_write_streams(
        &mut child,
        &mut out_pipe,
        &mut err_pipe,
        Vec::new(),
        BoundedSink::new(4),
    );
    match res {
        Err(RunFault::Stream(StreamId::Stderr, StreamFault::Sink(fault))) => {
            assert!(matches!(fault.side, TeeSide::Second));
        }
        other => panic!("expected a stderr sink fault, got {other:?}"),
    }
    // The healthy stream was forwarded in full; the failing sink holds a
    // prefix of its stream.
    assert_eq!(out_sink, b"fine".to_vec());
    assert!(err_sink.taken.len() <= 4);
}

#[test]
fn runner_starts_each_call_with_fresh_buffers() {
    let mut child = ExitedChild::new(ExitStatus::Exited(0));
    let mut out_pipe = MemorySource::new(b"first".to_vec(), 2);
    let mut err_pipe = MemorySource::new(Vec::new(), 2);
    let (res, out_sink, err_sink) = output_and_write_streams(
        &mut child,
        &mut out_pipe,
        &mut err_pipe,
        Vec::new(),
        Vec::new(),
    );
    let first = res.unwrap();
    assert_eq!(first.stdout, b"first".to_vec());

    // The same sinks go around again; the second result must not see the
    // first call's bytes, while the sinks keep accumulating.
    let mut child = ExitedChild::new(ExitStatus::Exited(0));
    let mut out_pipe = MemorySource::new(b"second".to_vec(), 2);
    let mut err_pipe = MemorySource::new(Vec::new(), 2);
    let (res, out_sink, err_sink) = output_and_write_streams(
        &mut child,
        &mut out_pipe,
        &mut err_pipe,
        out_sink,
        err_sink,
    );
    let second = res.unwrap();
    assert_eq!(second.stdout, b"second".to_vec());
    assert_eq!(out_sink, b"firstsecond".to_vec());
    assert_eq!(err_sink, Vec::<u8>::new());
}

#[test]
fn runner_passes_the_exit_status_through() {
    let mut child = ExitedChild::new(ExitStatus::Signaled(9));
    let mut out_pipe = MemorySource::new(Vec::new(), 4);
    let mut err_pipe = MemorySource::new(Vec::new(), 4);
    let (res, _, _) = output_and_write_streams(
        &mut child,
        &mut out_pipe,
        &mut err_pipe,
        Vec::new(),
        Vec::new(),
    );
    let output = res.unwrap();
    assert_eq!(output.status, ExitStatus::Signaled(9));
    assert_eq!(output.status.code(), None);
    assert!(!output.status.success());
}

#[test]
fn finish_streams_orders_faults() {
    let out_fault = StreamFault::Read(io_error("stdout pipe broke"));
    let err_fault = StreamFault::Read(io_error("stderr pipe broke"));

    let r = finish_streams(
        DrainReport::Faulted(out_fault.clone()),
        DrainReport::Faulted(err_fault.clone()),
        Err(io_error("wait failed")),
        Vec::new(),
        Vec::new(),
    );
    assert!(matches!(r, Err(RunFault::Stream(StreamId::Stdout, _))));

    let r = finish_streams(
        DrainReport::Completed,
        DrainReport::Faulted(err_fault.clone()),
        Ok(ExitStatus::Exited(0)),
        Vec::new(),
        Vec::new(),
    );
    assert!(matches!(r, Err(RunFault::Stream(StreamId::Stderr, _))));

    let r = finish_streams(
        DrainReport::Completed,
        DrainReport::Completed,
        Err(io_error("wait failed")),
        Vec::new(),
        Vec::new(),
    );
    assert!(matches!(r, Err(RunFault::Wait(_))));

    let r = finish_streams(
        DrainReport::Abnormal,
        DrainReport::Completed,
        Ok(ExitStatus::Exited(0)),
        Vec::new(),
        Vec::new(),
    );
    assert!(matches!(r, Err(RunFault::Task(StreamId::Stdout))));

    let r = finish_streams(
        DrainReport::Completed,
        DrainReport::Completed,
        Ok(ExitStatus::Exited(0)),
        b"out".to_vec(),
        b"err".to_vec(),
    );
    let output = r.unwrap();
    assert_eq!(output.stdout, b"out".to_vec());
    assert_eq!(output.stderr, b"err".to_vec());
    assert_eq!(output.status, ExitStatus::Exited(0));
}
