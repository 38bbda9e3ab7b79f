use handy::backoff::capped_backoff;
use handy::managers::mistral_realtime::{
    await_session, encode_audio_chunk, realtime_headers, realtime_url, warmup_message,
    AfterFailure, Connection, ConnectionAction, ConnectionEvent, Handshake, Incoming,
    MistralRealtimeSession, ReceiverAction, SenderAction, SenderEvent, ServerMessage, StreamError,
};

fn message(msg_type: &str, text: Option<&str>) -> Incoming {
    Incoming::Text(Some(ServerMessage {
        msg_type: msg_type.to_string(),
        text: text.map(|t| t.to_string()),
        error: None,
    }))
}

fn sent(action: &ConnectionAction) -> String {
    match action {
        ConnectionAction::Send(m) => {
            assert_eq!(m.msg_type, "input_audio.append");
            m.audio.clone()
        }
        _ => panic!("nothing is sent"),
    }
}

/// A connection that streams, after all that goes before.
fn streaming(session: &mut MistralRealtimeSession) -> Connection {
    let (mut c, mut turn) =
        Connection::open().step(session, ConnectionEvent::Frame(message("session.created", None)));
    while !turn.receiving {
        (c, turn) = c.step(session, ConnectionEvent::Sent);
    }
    c
}

#[test]
fn audio_is_encoded() {
    assert_eq!(encode_audio_chunk(&[]), "");
    assert_eq!(encode_audio_chunk(&[0]), "AAA=");
    assert_eq!(encode_audio_chunk(&[1, -1]), "AQD//w==");
    assert_eq!(encode_audio_chunk(&[i16::MIN, i16::MAX, 0x1234]), "AID/fzQS");
    assert_eq!(warmup_message().audio, "A".repeat(1280));
}

#[test]
fn different_audio_is_encoded_differently() {
    let samples: Vec<i16> = vec![-32768, -1, 0, 1, 255, 256, 32767];
    let mut texts: Vec<String> =
        samples.iter().map(|&s| encode_audio_chunk(&[s])).collect();
    texts.push(encode_audio_chunk(&[0, 0]));
    for i in 0..texts.len() {
        for j in 0..i {
            assert_ne!(texts[i], texts[j]);
        }
    }
}

#[test]
fn the_request_names_the_service() {
    assert_eq!(
        realtime_url(),
        "wss://api.mistral.ai/v1/audio/transcriptions/realtime?model=voxtral-mini-transcribe-realtime-2602"
    );
    let headers = realtime_headers("k", "w");
    let expected = [
        ("Authorization", "Bearer k"),
        ("Host", "api.mistral.ai"),
        ("Connection", "Upgrade"),
        ("Upgrade", "websocket"),
        ("Sec-WebSocket-Version", "13"),
        ("Sec-WebSocket-Key", "w"),
    ];
    assert_eq!(headers.len(), expected.len());
    for (h, e) in headers.iter().zip(expected.iter()) {
        assert_eq!((h.0.as_str(), h.1.as_str()), *e);
    }
}

#[test]
fn a_session_is_waited_for() {
    assert_eq!(await_session(&message("session.created", None)), Handshake::Ready);
    assert_eq!(await_session(&message("session.updated", None)), Handshake::Wait);
    assert_eq!(await_session(&Incoming::Text(None)), Handshake::Wait);
    assert_eq!(await_session(&Incoming::Close), Handshake::Wait);
    assert_eq!(await_session(&Incoming::Other), Handshake::Wait);
    assert_eq!(await_session(&Incoming::Failed), Handshake::Fail(StreamError::AwaitSession));
    assert_eq!(await_session(&Incoming::Ended), Handshake::Fail(StreamError::ClosedBeforeSession));
}

#[test]
fn a_session_opens_with_silence_then_replays() {
    let mut session = MistralRealtimeSession::start();
    let c = streaming(&mut session);
    let (c, turn) = c.step(&mut session, ConnectionEvent::Sender(SenderEvent::Samples(vec![1])));
    assert_eq!(sent(&turn.action), "AQA=");
    let (c, _) = c.step(&mut session, ConnectionEvent::Sent);
    let (c, turn) = c.step(&mut session, ConnectionEvent::Sender(SenderEvent::Samples(vec![2])));
    assert_eq!(sent(&turn.action), "AgA=");
    session.receive(message("transcription.text.delta", Some("old")));
    let (_, turn) = c.step(&mut session, ConnectionEvent::SendFailed { receiver_finished: true });
    assert!(matches!(turn.action, ConnectionAction::Fail(StreamError::Disconnected)));

    let (mut c, mut turn) = Connection::open()
        .step(&mut session, ConnectionEvent::Frame(message("session.created", None)));
    assert!(turn.connected);
    for i in 0..67 {
        assert_eq!(sent(&turn.action), "A".repeat(1280), "chunk {i}");
        assert_eq!(session.get_text_ref(), "old");
        (c, turn) = c.step(&mut session, ConnectionEvent::Sent);
    }
    assert_eq!(session.get_text_ref(), "");
    assert_eq!(sent(&turn.action), "AQA=");
    (c, turn) = c.step(&mut session, ConnectionEvent::Sent);
    assert_eq!(sent(&turn.action), "AgA=");
    assert!(!turn.receiving);
    let (_, turn) = c.step(&mut session, ConnectionEvent::Sent);
    assert!(turn.receiving);
    assert!(matches!(turn.action, ConnectionAction::LookForAudio));
}

#[test]
fn a_connection_fails_with_the_reason() {
    let mut session = MistralRealtimeSession::start();
    let (_, turn) = Connection::open().step(&mut session, ConnectionEvent::Frame(Incoming::Failed));
    assert!(matches!(turn.action, ConnectionAction::Fail(StreamError::AwaitSession)));
    let (_, turn) = Connection::open().step(&mut session, ConnectionEvent::Frame(Incoming::Ended));
    assert!(matches!(turn.action, ConnectionAction::Fail(StreamError::ClosedBeforeSession)));
    let failed = || ConnectionEvent::SendFailed { receiver_finished: false };
    let (c, _) = Connection::open()
        .step(&mut session, ConnectionEvent::Frame(message("session.created", None)));
    let (_, turn) = c.step(&mut session, failed());
    assert!(matches!(turn.action, ConnectionAction::Fail(StreamError::SendWarmup)));
    let c = streaming(&mut session);
    let (c, _) = c.step(&mut session, ConnectionEvent::Sender(SenderEvent::Samples(vec![1])));
    let (_, turn) = c.step(&mut session, failed());
    assert!(matches!(turn.action, ConnectionAction::Fail(StreamError::SendAudio)));
    let (mut c, mut turn) = Connection::open()
        .step(&mut session, ConnectionEvent::Frame(message("session.created", None)));
    for _ in 0..67 {
        (c, turn) = c.step(&mut session, ConnectionEvent::Sent);
    }
    assert_eq!(sent(&turn.action), "AQA=");
    let (_, turn) = c.step(&mut session, failed());
    assert!(matches!(turn.action, ConnectionAction::Fail(StreamError::ReplayAudio)));
}

#[test]
fn a_stream_rests_and_ends() {
    let mut session = MistralRealtimeSession::start();
    let c = streaming(&mut session);
    let (c, turn) = c.step(&mut session, ConnectionEvent::Sender(SenderEvent::NoAudio));
    assert!(matches!(turn.action, ConnectionAction::Rest(5)));
    let (c, turn) = c.step(&mut session, ConnectionEvent::Rested);
    assert!(matches!(turn.action, ConnectionAction::LookForAudio));
    let (_, turn) = c.step(&mut session, ConnectionEvent::Sender(SenderEvent::Stop));
    assert!(matches!(
        &turn.action,
        ConnectionAction::Finish(m, 3000) if m.msg_type == "input_audio.end"
    ));
    match session.sender_step(SenderEvent::AudioEnded) {
        SenderAction::Finish(m, wait) => {
            assert_eq!(m.msg_type, "input_audio.end");
            assert_eq!(wait, 3000);
        }
        _ => panic!("expected the end"),
    }
}

#[test]
fn deltas_make_the_transcription() {
    let mut s = MistralRealtimeSession::start();
    let shown = s.receive(message("transcription.text.delta", Some("Hel")));
    assert!(matches!(shown, ReceiverAction::Show(t) if t == "Hel"));
    let shown = s.receive(message("transcription.text.delta", Some("lo")));
    assert!(matches!(shown, ReceiverAction::Show(t) if t == "Hello"));
    let nothing = s.receive(message("transcription.text.delta", None));
    assert!(matches!(nothing, ReceiverAction::Wait));
    assert!(matches!(s.receive(message("other", Some("x"))), ReceiverAction::Wait));
    assert!(matches!(s.receive(Incoming::Text(None)), ReceiverAction::Wait));
    assert!(matches!(s.receive(Incoming::Other), ReceiverAction::Wait));
    assert!(matches!(s.receive(message("transcription.done", None)), ReceiverAction::Stop));
    assert!(matches!(s.receive(message("error", None)), ReceiverAction::Stop));
    assert!(matches!(s.receive(Incoming::Close), ReceiverAction::Stop));
    assert!(matches!(s.receive(Incoming::Failed), ReceiverAction::Stop));
    assert!(matches!(s.receive(Incoming::Ended), ReceiverAction::Stop));
    assert_eq!(s.get_text_ref(), "Hello");
}

#[test]
fn the_final_text_is_waited_for() {
    let mut s = MistralRealtimeSession::start();
    let c = streaming(&mut s);
    s.receive(message("transcription.text.delta", Some("Hello")));
    let (_, turn) = c.step(&mut s, ConnectionEvent::Sender(SenderEvent::Stop));
    assert!(matches!(turn.action, ConnectionAction::Finish(_, 3000)));
    let late = s.receive(message("transcription.text.delta", Some(" world")));
    assert!(matches!(late, ReceiverAction::Show(t) if t == "Hello world"));
    s.receive(message("transcription.text.delta", Some("!")));
    assert!(matches!(s.receive(message("transcription.done", None)), ReceiverAction::Stop));
    assert_eq!(s.get_text_ref(), "Hello world!");
}

#[test]
fn statuses_are_shown() {
    let mut s = MistralRealtimeSession::start();
    let (_, turn) =
        Connection::open().step(&mut s, ConnectionEvent::Frame(message("session.created", None)));
    assert_eq!(turn.status(), Some("connected".to_string()));
    let (_, turn) = Connection::open().step(&mut s, ConnectionEvent::Frame(Incoming::Other));
    assert_eq!(turn.status(), None);
    assert_eq!(AfterFailure::GiveUp.status(), Some("error".to_string()));
    assert_eq!(AfterFailure::Retry(100).status(), None);
}

#[test]
fn retries_are_limited_and_slow_down() {
    let mut s = MistralRealtimeSession::start();
    assert_eq!(s.next_attempt(false), Some("connecting".to_string()));
    let rests: Vec<u64> = (0..10)
        .map(|_| match s.connection_failed() {
            AfterFailure::Retry(ms) => ms,
            AfterFailure::GiveUp => panic!("gave up too early"),
        })
        .collect();
    assert_eq!(rests, [100, 200, 400, 800, 1600, 3200, 5000, 5000, 5000, 5000]);
    assert_eq!(s.next_attempt(false), Some("reconnecting".to_string()));
    assert_eq!(s.next_attempt(true), None);
    assert_eq!(s.connection_failed(), AfterFailure::GiveUp);
}

#[test]
fn rests_double_up_to_the_cap() {
    assert_eq!(capped_backoff(0), 100);
    assert_eq!(capped_backoff(5), 3200);
    assert_eq!(capped_backoff(6), 5000);
    assert_eq!(capped_backoff(u32::MAX), 5000);
}

#[test]
fn stream_errors_have_words() {
    for (error, text) in [
        (StreamError::BuildRequest, "Failed to build request: x"),
        (StreamError::Connect, "WebSocket connection failed: x"),
        (StreamError::AwaitSession, "Error waiting for session.created: x"),
        (StreamError::ClosedBeforeSession, "Connection closed before session.created"),
        (StreamError::SendWarmup, "Failed to send warmup: x"),
        (StreamError::ReplayAudio, "Failed to replay buffered audio: x"),
        (StreamError::Disconnected, "WebSocket disconnected: x"),
        (StreamError::SendAudio, "Failed to send audio: x"),
    ] {
        assert_eq!(error.message("x"), text);
    }
    assert_eq!(MistralRealtimeSession::send_failed(true), StreamError::Disconnected);
    assert_eq!(MistralRealtimeSession::send_failed(false), StreamError::SendAudio);
}
