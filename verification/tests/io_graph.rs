use caligula::io_graph::{BufNode, ForwardWorker, GraphContext, RecvBytes, SendBytes};

#[test]
fn graph_context_starts_running() {
    assert!(!GraphContext::new().halt());
}

#[test]
fn buffer_passes_messages_and_ends_on_close() {
    let BufNode { mut input, mut output } = BufNode::new(4);
    input.send(b"one".to_vec()).unwrap();
    input.send(vec![]).unwrap();
    input.send(b"two".to_vec()).unwrap();
    input.close().unwrap();
    assert_eq!(output.recv().unwrap(), Some(b"one".to_vec()));
    assert_eq!(output.recv().unwrap(), Some(b"two".to_vec()));
    assert_eq!(output.recv().unwrap(), None);
}

#[test]
fn dropped_ends_are_broken_pipes() {
    let BufNode { input, mut output } = BufNode::new(1);
    drop(input);
    assert_eq!(output.recv().unwrap_err().kind(), std::io::ErrorKind::BrokenPipe);
    let BufNode { mut input, output } = BufNode::new(1);
    drop(output);
    assert_eq!(input.send(b"x".to_vec()).unwrap_err().kind(), std::io::ErrorKind::BrokenPipe);
}

#[test]
fn forward_worker_moves_everything_in_order() {
    let a = BufNode::new(8);
    let b = BufNode::new(8);
    let mut src = a.input;
    let mut sink = b.output;
    let mut worker = ForwardWorker::new(a.output, b.input);
    for m in [b"x".to_vec(), b"yy".to_vec(), b"zzz".to_vec()] {
        src.send(m).unwrap();
    }
    src.close().unwrap();
    let ctx = GraphContext::new();
    let mut steps = 0;
    while worker.step(&ctx).unwrap() {
        steps += 1;
    }
    assert_eq!(steps, 3);
    let ForwardWorker { input: _, output } = *worker;
    output.close().unwrap();
    let mut got = vec![];
    while let Some(m) = sink.recv().unwrap() {
        got.push(m);
    }
    assert_eq!(got, vec![b"x".to_vec(), b"yy".to_vec(), b"zzz".to_vec()]);
}

#[test]
fn interpret_reads_channel_outcomes() {
    use_interpret();
}

fn use_interpret() {
    assert_eq!(caligula::io_graph::MpscRead::interpret(None).unwrap_err().kind(), std::io::ErrorKind::BrokenPipe);
    assert_eq!(caligula::io_graph::MpscRead::interpret(Some(vec![])).unwrap(), None);
    assert_eq!(caligula::io_graph::MpscRead::interpret(Some(vec![1, 2])).unwrap(), Some(vec![1, 2]));
    assert!(caligula::io_graph::MpscWrite::delivery(true).is_ok());
    assert_eq!(caligula::io_graph::MpscWrite::delivery(false).unwrap_err().kind(), std::io::ErrorKind::BrokenPipe);
}

#[test]
fn worker_stops_at_end_of_stream() {
    let a = BufNode::new(2);
    let b = BufNode::new(2);
    let mut src = a.input;
    src.send(b"x".to_vec()).unwrap();
    let mut worker = ForwardWorker::new(a.output, b.input);
    let ctx = GraphContext::new();
    assert!(worker.step(&ctx).unwrap());
    src.close().unwrap();
    assert!(!worker.step(&ctx).unwrap());
}

#[test]
fn receiver_sees_sent_messages_then_end_then_broken_pipe() {
    let BufNode { input: mut w, output: mut r } = BufNode::new(8);
    for m in [b"a".to_vec(), vec![], b"bc".to_vec()] {
        w.send(m).unwrap();
    }
    w.close().unwrap();
    assert_eq!(r.recv().unwrap(), Some(b"a".to_vec()));
    assert_eq!(r.recv().unwrap(), Some(b"bc".to_vec()));
    assert_eq!(r.recv().unwrap(), None);
    assert_eq!(r.recv().unwrap_err().kind(), std::io::ErrorKind::BrokenPipe);
}

#[test]
fn forward_received_outcomes() {
    let a = BufNode::new(2);
    let b = BufNode::new(2);
    let mut sink = b.output;
    let mut worker = ForwardWorker::new(a.output, b.input);
    assert_eq!(worker.forward_received(Ok(None)).unwrap(), false);
    assert!(worker.forward_received(Ok(Some(b"m".to_vec()))).unwrap());
    let e = std::io::Error::new(std::io::ErrorKind::Other, "recv failed");
    assert_eq!(worker.forward_received(Err(e)).unwrap_err().kind(), std::io::ErrorKind::Other);
    assert_eq!(sink.recv().unwrap(), Some(b"m".to_vec()));
    assert!(caligula::io_graph::sent_outcome(Ok(())).unwrap());
}
