use wasm_streams::sink::SinkAdapter;
use wasm_streams::write::{IntoSink, SinkPhase, SinkStep};

#[test]
fn writable_stream_into_sink() {
    let mut sink: IntoSink<&str, u32> = IntoSink::new("writer");
    assert_eq!(sink.phase(), SinkPhase::Ready);
    for (n, _chunk) in ["Hello", "world!"].iter().enumerate() {
        assert_eq!(sink.ready_step(), SinkStep::Proceed);
        sink.begin_write(n as u32);
        assert_eq!(sink.phase(), SinkPhase::Writing);
        assert_eq!(sink.ready_step(), SinkStep::Await);
        assert_eq!(sink.resolve::<&str>(Ok(())), Ok(()));
    }
    assert_eq!(sink.close_step(), SinkStep::IssueClose);
    sink.begin_close(9);
    assert_eq!(sink.phase(), SinkPhase::Closing);
    assert_eq!(sink.close_step(), SinkStep::Await);
    assert_eq!(sink.resolve::<&str>(Ok(())), Ok(()));
    assert_eq!(sink.phase(), SinkPhase::Finished);
    assert_eq!(sink.ready_step(), SinkStep::Closed);
    assert_eq!(sink.close_step(), SinkStep::Closed);
    assert!(sink.writer().is_none());
}

#[test]
fn close_waits_for_outstanding_write() {
    let mut sink: IntoSink<&str, u32> = IntoSink::new("writer");
    sink.begin_write(1);
    assert_eq!(sink.close_step(), SinkStep::Await);
    assert_eq!(*sink.pending_mut(), 1);
    assert_eq!(sink.resolve::<&str>(Ok(())), Ok(()));
    assert_eq!(sink.close_step(), SinkStep::IssueClose);
    assert_eq!(sink.writer(), Some(&"writer"));
}

#[test]
fn write_error_drops_writer() {
    let mut sink: IntoSink<&str, u32> = IntoSink::new("writer");
    sink.begin_write(1);
    assert_eq!(sink.resolve(Err("rejected")), Err("rejected"));
    assert_eq!(sink.phase(), SinkPhase::Finished);
    assert_eq!(sink.ready_step(), SinkStep::Closed);
    assert!(sink.writer().is_none());
}

#[test]
fn sink_adapter_keeps_consumer_after_accepted_write() {
    let mut s = SinkAdapter::new(Vec::<&str>::new());
    s.sink_mut().push("Hello");
    assert_eq!(s.written::<&str>(Ok(())), Ok(()));
    assert!(s.is_open());
    assert_eq!(s.sink_mut().len(), 1);
}

#[test]
fn sink_adapter_drops_failed_consumer() {
    let mut s = SinkAdapter::new(());
    assert_eq!(s.written(Err("full")), Err("full"));
    assert!(!s.is_open());
}

#[test]
fn sink_adapter_close_and_abort_drop_consumer() {
    let mut a = SinkAdapter::new(1u8);
    assert_eq!(a.closed::<&str>(Ok(())), Ok(()));
    assert!(!a.is_open());
    let mut b = SinkAdapter::new(2u8);
    assert_eq!(b.closed(Err("flush failed")), Err("flush failed"));
    assert!(!b.is_open());
    let mut c = SinkAdapter::new(3u8);
    c.abort();
    assert!(!c.is_open());
}
