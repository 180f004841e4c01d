use wasm_streams::read::{IntoStream, NextStep};
use wasm_streams::source::{PullAction, SourceAdapter};

/// The host between a source and a reader on a stream with a zero
/// high-water mark: a read triggers a pull, and the pull's action resolves it.
fn deliver(a: PullAction<char, &'static str>) -> Result<Option<char>, &'static str> {
    match a {
        PullAction::Enqueue(v) => Ok(Some(v)),
        PullAction::Close => Ok(None),
        PullAction::Reject(e) => Err(e),
    }
}

#[test]
fn pulled_items_become_controller_actions() {
    let mut src = SourceAdapter::new(vec![1u8, 2]);
    assert!(src.is_open());
    assert_eq!(src.pulled::<u8, &str>(Some(Ok(1))), PullAction::Enqueue(1));
    assert!(src.is_open());
    assert_eq!(src.pulled::<u8, &str>(None), PullAction::Close);
    assert!(!src.is_open());
}

#[test]
fn producer_error_rejects_pull_and_drops_producer() {
    let mut src = SourceAdapter::new(());
    assert_eq!(src.pulled::<u8, &str>(Some(Err("bad"))), PullAction::Reject("bad"));
    assert!(!src.is_open());
}

#[test]
fn cancel_drops_producer() {
    let mut src = SourceAdapter::new(vec!['a']);
    src.cancel();
    assert!(!src.is_open());
}

#[test]
fn stream_mut_reaches_the_producer() {
    let mut src = SourceAdapter::new(vec!['a', 'b']);
    assert_eq!(src.stream_mut().pop(), Some('b'));
    assert_eq!(src.stream_mut().len(), 1);
}

#[test]
fn round_trip_abc() {
    let mut src = SourceAdapter::new(vec!['A', 'B', 'C'].into_iter());
    let mut reader: IntoStream<(), ()> = IntoStream::new(());
    let mut out = Vec::new();
    loop {
        match reader.next_step() {
            NextStep::Issue => reader.begin_read(()),
            NextStep::Await => {
                let item = src.stream_mut().next().map(Ok);
                let action = src.pulled(item);
                let y = reader.resolve(deliver(action));
                out.push(y);
            }
            NextStep::End => break,
        }
    }
    assert_eq!(out, vec![Some(Ok('A')), Some(Ok('B')), Some(Ok('C')), None]);
    assert!(!src.is_open());
    assert!(reader.is_terminated());
}
