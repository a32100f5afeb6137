use hfendpoints::{
    deliver, settle_response, settle_schedule, DispatchLoop, EmbeddingInput, EmbeddingResponse,
    EndpointContext, EndpointResponse, Error, HandlerError, HttpError, LoopAction, LoopEvent,
    LoopPhase, MaybeBatched, OpenAiEmbeddingRequest, OpenAiEmbeddingResponse, ResponseSink, Usage,
    EncodingFormat, decode_inputs, WireValue,
};
use tokio::sync::mpsc::{unbounded_channel, UnboundedReceiver};

fn runtime() -> tokio::runtime::Runtime {
    tokio::runtime::Builder::new_multi_thread()
        .worker_threads(4)
        .enable_all()
        .build()
        .unwrap()
}

/// Runs the loop's decisions over a channel, calling `handler` in turn for
/// each request, until the channel closes. Returns how many deliveries failed.
async fn serve<I: Send + 'static, O: Send + 'static>(
    mut ingress: UnboundedReceiver<(I, ResponseSink<O>)>,
    handler: impl Fn(I) -> Result<O, Error> + Send + 'static,
) -> usize {
    let mut decisions: DispatchLoop<ResponseSink<O>> = DispatchLoop::new();
    let mut undelivered = 0;
    loop {
        let event = match ingress.recv().await {
            Some((request, sink)) => LoopEvent::Arrived(request, sink),
            None => LoopEvent::Closed,
        };
        let mut action = decisions.step(event);
        loop {
            action = match action {
                LoopAction::Invoke(ticket, request) => {
                    decisions.step(LoopEvent::Finished(ticket, handler(request)))
                }
                LoopAction::Deliver(ticket, sink, answer) => match deliver(&sink, answer) {
                    Ok(()) => LoopAction::Idle,
                    Err(_) => {
                        undelivered += 1;
                        decisions.step(LoopEvent::Undelivered(ticket))
                    }
                },
                LoopAction::Discard(_, _) | LoopAction::Idle => break,
                LoopAction::Stop => return undelivered,
            };
        }
    }
}

fn answers_each_request_once(n: u64) {
    let rt = runtime();
    rt.block_on(async move {
        let (tx, rx) = unbounded_channel();
        let context: EndpointContext<u64, u64> = EndpointContext::new(tx);
        let backend = tokio::spawn(serve(rx, |x: u64| Ok(x * 2 + 1)));
        let mut callers = Vec::new();
        for i in 0..n {
            let context = context.clone();
            callers.push(tokio::spawn(async move {
                let mut receiver = context.schedule(i).unwrap();
                let first = receiver.recv().await;
                let second = receiver.recv().await;
                (i, settle_response(first), second.is_none())
            }));
        }
        for caller in callers {
            let (i, answer, closed_after) = caller.await.unwrap();
            assert_eq!(answer.unwrap(), i * 2 + 1);
            assert!(closed_after);
        }
        drop(context);
        assert_eq!(backend.await.unwrap(), 0);
    });
}

#[test]
fn one_request_gets_its_own_answer() {
    answers_each_request_once(1);
}

#[test]
fn ten_concurrent_requests_get_their_own_answers() {
    answers_each_request_once(10);
}

#[test]
fn thousand_concurrent_requests_get_their_own_answers() {
    answers_each_request_once(1000);
}

#[test]
fn schedule_fails_at_once_when_backend_is_gone() {
    let (tx, rx) = unbounded_channel::<(u8, ResponseSink<u8>)>();
    drop(rx);
    let context = EndpointContext::new(tx);
    match context.schedule(1) {
        Err(Error::Handler(HandlerError::IpcFailed(why))) => assert_eq!(why, "channel closed"),
        _ => panic!("expected IpcFailed"),
    }
}

#[test]
fn receiver_sees_no_response_when_backend_stops_first() {
    let rt = runtime();
    rt.block_on(async {
        let (tx, rx) = unbounded_channel::<(u8, ResponseSink<u8>)>();
        let context = EndpointContext::new(tx);
        let mut receiver = context.schedule(1).unwrap();
        drop(rx);
        let answer = settle_response(receiver.recv().await);
        assert!(matches!(answer, Err(HttpError::NoResponse)));
        assert_eq!(HttpError::NoResponse.status_code(), 500);
    });
}

#[test]
fn dropped_receiver_does_not_stop_the_loop() {
    let rt = runtime();
    rt.block_on(async {
        let (tx, rx) = unbounded_channel();
        let context: EndpointContext<u64, u64> = EndpointContext::new(tx);
        let abandoned = context.schedule(1).unwrap();
        drop(abandoned);
        let backend = tokio::spawn(serve(rx, |x: u64| Ok(x + 100)));
        let mut receiver = context.schedule(2).unwrap();
        assert_eq!(settle_response(receiver.recv().await).unwrap(), 102);
        drop(context);
        assert_eq!(backend.await.unwrap(), 1);
    });
}

#[test]
fn handler_error_reaches_caller_and_loop_goes_on() {
    let rt = runtime();
    rt.block_on(async {
        let (tx, rx) = unbounded_channel();
        let context: EndpointContext<u64, u64> = EndpointContext::new(tx);
        let backend = tokio::spawn(serve(rx, |x: u64| {
            if x == 0 {
                Err(Error::Runtime("Test error".into()))
            } else {
                Ok(x)
            }
        }));
        let mut failing = context.schedule(0).unwrap();
        match settle_response(failing.recv().await) {
            Err(e @ HttpError::Endpoint(_)) => assert_eq!(e.status_code(), 500),
            _ => panic!("expected the handler's error"),
        }
        let mut next = context.schedule(5).unwrap();
        assert_eq!(settle_response(next.recv().await).unwrap(), 5);
        drop(context);
        backend.await.unwrap();
    });
}

#[test]
fn loop_answers_each_ticket_once() {
    let mut decisions: DispatchLoop<&str> = DispatchLoop::new();
    let a = decisions.step(LoopEvent::<u8, &str, u8>::Arrived(10, "sink-a"));
    let b = decisions.step(LoopEvent::<u8, &str, u8>::Arrived(20, "sink-b"));
    assert!(matches!(a, LoopAction::Invoke(0, 10)));
    assert!(matches!(b, LoopAction::Invoke(1, 20)));
    assert_eq!(decisions.in_flight(), 2);
    let second = decisions.step(LoopEvent::<u8, &str, u8>::Finished(1, 21));
    assert!(matches!(second, LoopAction::Deliver(1, "sink-b", 21)));
    let again = decisions.step(LoopEvent::<u8, &str, u8>::Finished(1, 22));
    assert!(matches!(again, LoopAction::Idle));
    let closed = decisions.step(LoopEvent::<u8, &str, u8>::Closed);
    assert!(matches!(closed, LoopAction::Idle));
    assert_eq!(decisions.phase(), LoopPhase::Draining);
    let late = decisions.step(LoopEvent::<u8, &str, u8>::Arrived(30, "sink-c"));
    assert!(matches!(late, LoopAction::Discard(30, "sink-c")));
    let first = decisions.step(LoopEvent::<u8, &str, u8>::Finished(0, 11));
    assert!(matches!(first, LoopAction::Deliver(0, "sink-a", 11)));
    assert!(decisions.is_stopped());
    let stop = decisions.step(LoopEvent::<u8, &str, u8>::Closed);
    assert!(matches!(stop, LoopAction::Stop));
}

#[test]
fn loop_failed_delivery_changes_nothing() {
    let mut decisions: DispatchLoop<&str> = DispatchLoop::new();
    let gone = decisions.step(LoopEvent::<u8, &str, u8>::Undelivered(7));
    assert!(matches!(gone, LoopAction::Idle));
    assert_eq!(decisions.phase(), LoopPhase::Running);
    let closed = decisions.step(LoopEvent::<u8, &str, u8>::Closed);
    assert!(matches!(closed, LoopAction::Stop));
}

#[test]
fn settle_schedule_maps_send_outcome() {
    assert_eq!(settle_schedule::<u8, &str>(Ok(()), "rx").unwrap(), "rx");
    match settle_schedule::<u8, &str>(Err(3), "rx") {
        Err(Error::Handler(HandlerError::IpcFailed(why))) => assert_eq!(why, "channel closed"),
        _ => panic!("expected IpcFailed"),
    }
}

#[test]
fn embeddings_request_end_to_end() {
    let rt = runtime();
    rt.block_on(async {
        let input = decode_inputs(&WireValue::Text("hello".into())).unwrap();
        let request = OpenAiEmbeddingRequest {
            encoding_format: EncodingFormat::Float,
            input,
            model: None,
            dimension: None,
            user: None,
        };
        let (tx, rx) = unbounded_channel();
        let context: EndpointContext<OpenAiEmbeddingRequest, OpenAiEmbeddingResponse<f32>> =
            EndpointContext::new(tx);
        let backend = tokio::spawn(serve(rx, |request: OpenAiEmbeddingRequest| {
            let typed = request.into_embedding_request();
            assert_eq!(typed.inputs, MaybeBatched::Single(EmbeddingInput::Text("hello".into())));
            let response: EmbeddingResponse<f32> =
                EndpointResponse::new(MaybeBatched::Single(vec![0.1, 0.2, 0.3]), Some(Usage::new(1, 1)));
            OpenAiEmbeddingResponse::try_from(response)
        }));
        let mut receiver = context.schedule(request).unwrap();
        let answer = settle_response(receiver.recv().await).unwrap();
        assert_eq!(answer.data.len(), 1);
        assert_eq!(answer.data[0].index, 0);
        assert_eq!(answer.data[0].embedding, vec![0.1, 0.2, 0.3]);
        assert_eq!(answer.usage, Usage::new(1, 1));
        drop(context);
        backend.await.unwrap();
    });
}

#[test]
fn deliver_hands_answer_back_when_receiver_is_gone() {
    let (sink, receiver) = unbounded_channel::<Result<u32, Error>>();
    drop(receiver);
    match deliver(&sink, Ok(42)) {
        Err(Ok(answer)) => assert_eq!(answer, 42),
        _ => panic!("expected the answer back"),
    }
    let (sink, mut receiver) = unbounded_channel::<Result<u32, Error>>();
    assert!(deliver(&sink, Ok(7)).is_ok());
    assert_eq!(receiver.try_recv().unwrap().unwrap(), 7);
}
