//! What the frames of the realtime service mean, and what a connection does in
//! every situation that it can come to.

use vstd::prelude::*;
use vstd::string::*;

use crate::managers::mistral_realtime::{
    action_model, after_failure, appends, appends_all, audio_text, base64_text, connection_turn,
    delta_of, error_prefix, handshake, headers_of, heard, last_frame,
    pcm_bytes, possible, proper_message, silence, ActionModel, AfterFailure, AudioAppendMessage,
    AudioEndMessage, ConnectionAction, ConnectionEvent, ConnectionStage, ConnectionTurnModel,
    Handshake, Incoming, SenderEvent, ServerMessage, SessionModel, StreamError, END_WAIT_MS,
    IDLE_MS, MAX_RETRIES, STOP_WAIT_MS, WARMUP_CHUNKS,
};

verus! {

/// What a message of the service means to a session that receives. A delta with
/// a text puts that text at the end of the transcription. The end of the
/// transcription, and an error, end the session, and say nothing that belongs to
/// it. No other message does anything.
pub proof fn law_what_messages_mean(text: Seq<char>, message: ServerMessage)
    ensures
        ({
            let incoming = Incoming::Text(Some(message));
            let kind = message.msg_type@;
            &&& kind == "transcription.text.delta"@ ==> (message.text matches Some(delta) ==> heard(
                text,
                incoming,
            ) == text + delta@ && delta_of(incoming) == Some(delta@))
            &&& kind != "transcription.text.delta"@ || message.text is None ==> heard(
                text,
                incoming,
            ) == text && delta_of(incoming) is None
            &&& last_frame(incoming) <==> kind == "transcription.done"@ || kind == "error"@
            &&& kind == "transcription.text.delta"@ ==> !last_frame(incoming)
            &&& handshake(incoming) == if kind == "session.created"@ {
                Handshake::Ready
            } else {
                Handshake::Wait
            }
        }),
{
    reveal_strlit("transcription.text.delta");
    reveal_strlit("transcription.done");
    reveal_strlit("error");
    assert("transcription.text.delta"@.len() == 24);
    assert("transcription.done"@.len() == 18);
    assert("error"@.len() == 5);
}

/// What else arrives changes no transcription. The end of the connection, however
/// it comes, ends the session; a frame that is no message is passed over. Before
/// there is a session a failure and the end are errors of their own.
pub proof fn law_what_other_frames_mean(text: Seq<char>, incoming: Incoming)
    requires
        !(incoming matches Incoming::Text(Some(_))),
    ensures
        heard(text, incoming) == text,
        delta_of(incoming) is None,
        last_frame(incoming) <==> incoming is Close || incoming is Failed || incoming is Ended,
        handshake(incoming) == match incoming {
            Incoming::Failed => Handshake::Fail(StreamError::AwaitSession),
            Incoming::Ended => Handshake::Fail(StreamError::ClosedBeforeSession),
            _ => Handshake::Wait,
        },
{
}

/// A turn that tells nothing.
pub open spec fn silent_turn(
    action: ActionModel,
    stage: ConnectionStage,
    session: SessionModel,
) -> ConnectionTurnModel {
    ConnectionTurnModel { connected: false, receiving: false, action, stage, session }
}

/// A connection without a session waits for one; when there is one it says so
/// and begins with silence. If it fails before, so does the connection.
pub proof fn law_what_waiting_for_a_session_comes_to(session: SessionModel, incoming: Incoming)
    ensures
        connection_turn(
            ConnectionStage::AwaitingSession,
            session,
            ConnectionEvent::Frame(incoming),
        ) == match handshake(incoming) {
            Handshake::Ready => ConnectionTurnModel {
                connected: true,
                receiving: false,
                action: ActionModel::Send(base64_text(pcm_bytes(Seq::new(480, |i: int| 0i16)))),
                stage: ConnectionStage::WarmingUp { left: 66 },
                session,
            },
            Handshake::Wait => silent_turn(
                ActionModel::ReadFrame,
                ConnectionStage::AwaitingSession,
                session,
            ),
            Handshake::Fail(error) => silent_turn(
                ActionModel::Fail(error),
                ConnectionStage::Over,
                session,
            ),
        },
{
    assert(silence() =~= Seq::new(480, |i: int| 0i16));
}

/// A message that cannot be sent ends the connection with the error of what was
/// being sent, and what was taken in stays.
pub proof fn law_what_a_failed_send_comes_to(
    session: SessionModel,
    left: nat,
    rest: Seq<Seq<char>>,
    receiver_finished: bool,
)
    ensures
        ({
            let failed = ConnectionEvent::SendFailed { receiver_finished };
            let over = |error: StreamError|
                silent_turn(ActionModel::Fail(error), ConnectionStage::Over, session);
            &&& connection_turn(ConnectionStage::WarmingUp { left }, session, failed) == over(
                StreamError::SendWarmup,
            )
            &&& connection_turn(ConnectionStage::Replaying { rest }, session, failed) == over(
                StreamError::ReplayAudio,
            )
            &&& connection_turn(ConnectionStage::Streaming, session, failed) == over(
                if receiver_finished {
                    StreamError::Disconnected
                } else {
                    StreamError::SendAudio
                },
            )
        }),
{
}

/// A connection that streams sends every chunk of audio as it comes, and keeps
/// it. Without audio it rests for 5 ms. When it is to stop, or there is no more
/// audio, it ends well. After a message, and after a rest, it looks for audio.
pub proof fn law_what_streaming_comes_to(session: SessionModel, samples: Vec<i16>)
    ensures
        ({
            let turn = |event: ConnectionEvent|
                connection_turn(ConnectionStage::Streaming, session, event);
            let streaming = |action: ActionModel|
                silent_turn(action, ConnectionStage::Streaming, session);
            &&& turn(ConnectionEvent::Sender(SenderEvent::Samples(samples))) == silent_turn(
                ActionModel::Send(base64_text(pcm_bytes(samples@))),
                ConnectionStage::Streaming,
                SessionModel {
                    text: session.text,
                    chunks: session.chunks.push(samples@),
                    failures: session.failures,
                },
            )
            &&& turn(ConnectionEvent::Sender(SenderEvent::NoAudio)) == streaming(
                ActionModel::Rest(5),
            )
            &&& turn(ConnectionEvent::Sender(SenderEvent::Stop)) == silent_turn(
                ActionModel::Finish,
                ConnectionStage::Over,
                session,
            )
            &&& turn(ConnectionEvent::Sender(SenderEvent::AudioEnded)) == silent_turn(
                ActionModel::Finish,
                ConnectionStage::Over,
                session,
            )
            &&& turn(ConnectionEvent::Sent) == streaming(ActionModel::LookForAudio)
            &&& turn(ConnectionEvent::Rested) == streaming(ActionModel::LookForAudio)
        }),
{
}

/// After the silence, all the audio from before is sent again, chunk by chunk and
/// in order, and where there is any the transcription starts anew; then frames go
/// to the receiver, and audio is looked for.
pub proof fn law_what_warming_up_comes_to(
    session: SessionModel,
    left: nat,
    first: Seq<char>,
    rest: Seq<Seq<char>>,
)
    ensures
        ({
            let sent = |stage: ConnectionStage, s: SessionModel|
                connection_turn(stage, s, ConnectionEvent::Sent);
            let streaming = |s: SessionModel|
                ConnectionTurnModel {
                    connected: false,
                    receiving: true,
                    action: ActionModel::LookForAudio,
                    stage: ConnectionStage::Streaming,
                    session: s,
                };
            let chunks = session.chunks;
            &&& left > 0 ==> sent(ConnectionStage::WarmingUp { left }, session) == silent_turn(
                ActionModel::Send(base64_text(pcm_bytes(Seq::new(480, |i: int| 0i16)))),
                ConnectionStage::WarmingUp { left: (left - 1) as nat },
                session,
            )
            &&& chunks.len() == 0 ==> sent(ConnectionStage::WarmingUp { left: 0 }, session)
                == streaming(session)
            &&& chunks.len() > 0 ==> sent(ConnectionStage::WarmingUp { left: 0 }, session)
                == silent_turn(
                ActionModel::Send(base64_text(pcm_bytes(chunks[0]))),
                ConnectionStage::Replaying {
                    rest: Seq::new(
                        (chunks.len() - 1) as nat,
                        |i: int| base64_text(pcm_bytes(chunks[i + 1])),
                    ),
                },
                SessionModel { text: Seq::empty(), chunks, failures: session.failures },
            )
            &&& sent(ConnectionStage::Replaying { rest: seq![first] + rest }, session)
                == silent_turn(
                ActionModel::Send(first),
                ConnectionStage::Replaying { rest },
                session,
            )
            &&& sent(ConnectionStage::Replaying { rest: Seq::empty() }, session) == streaming(
                session,
            )
        }),
{
    let chunks = session.chunks;
    assert(silence() =~= Seq::new(480, |i: int| 0i16));
    assert((seq![first] + rest).drop_first() =~= rest);
    let texts = crate::managers::mistral_realtime::audio_texts(chunks);
    if chunks.len() > 0 {
        assert(texts.drop_first() =~= Seq::new(
            (chunks.len() - 1) as nat,
            |i: int| base64_text(pcm_bytes(chunks[i + 1])),
        ));
    }
}

/// Messages are those that the service expects: audio in base64 is appended, and
/// at the end it is told so and given three seconds. What is said of an action is
/// what it does.
pub proof fn law_what_is_sent_to_the_service(
    message: AudioAppendMessage,
    end: AudioEndMessage,
    wait: u64,
    samples: Seq<i16>,
    error: StreamError,
)
    ensures
        appends(message, samples) <==> message.msg_type@ == "input_audio.append"@
            && message.audio@ == base64_text(pcm_bytes(samples)),
        proper_message(ConnectionAction::Send(message)) <==> message.msg_type@
            == "input_audio.append"@,
        proper_message(ConnectionAction::Finish(end, wait)) <==> end.msg_type@
            == "input_audio.end"@ && wait == 3000,
        action_model(ConnectionAction::Send(message)) == ActionModel::Send(message.audio@),
        action_model(ConnectionAction::Finish(end, wait)) is Finish,
        action_model(ConnectionAction::Rest(wait)) == ActionModel::Rest(wait),
        action_model(ConnectionAction::Fail(error)) == ActionModel::Fail(error),
        action_model(ConnectionAction::ReadFrame) is ReadFrame,
        action_model(ConnectionAction::LookForAudio) is LookForAudio,
        audio_text(samples) == base64_text(pcm_bytes(samples)),
{
}

/// All chunks have their messages, one for each and in order.
pub proof fn law_every_chunk_has_its_message(
    messages: Seq<AudioAppendMessage>,
    chunks: Seq<Seq<i16>>,
)
    ensures
        appends_all(messages, chunks) <==> messages.len() == chunks.len() && forall|i: int|
            0 <= i < chunks.len() ==> (#[trigger] messages[i]).msg_type@ == "input_audio.append"@
                && messages[i].audio@ == base64_text(pcm_bytes(chunks[i])),
{
    if messages.len() == chunks.len() && forall|i: int|
        0 <= i < chunks.len() ==> (#[trigger] messages[i]).msg_type@ == "input_audio.append"@
            && messages[i].audio@ == base64_text(pcm_bytes(chunks[i])) {
        assert forall|i: int| 0 <= i < chunks.len() implies appends(
            #[trigger] messages[i],
            chunks[i],
        ) by {}
    }
}

/// A sample is two bytes, the low one first, in two's complement, and the samples
/// follow each other.
pub proof fn law_samples_as_bytes(samples: Seq<i16>, i: int)
    requires
        0 <= i < samples.len(),
    ensures
        pcm_bytes(samples).len() == 2 * samples.len(),
        samples[i] as int == {
            let word = pcm_bytes(samples)[2 * i] as int + 256 * pcm_bytes(samples)[2 * i + 1];
            if word < 32768 {
                word
            } else {
                word - 65536
            }
        },
{
    let s = samples[i] as int;
    let word = s % 65536;
    assert(2 * i / 2 == i && (2 * i + 1) / 2 == i);
    assert(pcm_bytes(samples)[2 * i] as int == word % 256);
    assert(pcm_bytes(samples)[2 * i + 1] as int == word / 256);
}

/// What errors say before their cause.
pub proof fn law_how_stream_errors_begin()
    ensures
        error_prefix(StreamError::BuildRequest) == "Failed to build request: "@,
        error_prefix(StreamError::Connect) == "WebSocket connection failed: "@,
        error_prefix(StreamError::AwaitSession) == "Error waiting for session.created: "@,
        error_prefix(StreamError::ClosedBeforeSession)
            == "Connection closed before session.created"@,
        error_prefix(StreamError::SendWarmup) == "Failed to send warmup: "@,
        error_prefix(StreamError::ReplayAudio) == "Failed to replay buffered audio: "@,
        error_prefix(StreamError::Disconnected) == "WebSocket disconnected: "@,
        error_prefix(StreamError::SendAudio) == "Failed to send audio: "@,
{
}

/// Each failure in a row up to the tenth is followed by another connection, after
/// a rest of 100 ms that doubles up to 5 s; the eleventh is the last.
pub proof fn law_rests_between_connections(failures: nat)
    ensures
        after_failure(0) == AfterFailure::Retry(100),
        failures < 9 ==> (after_failure(failures) matches AfterFailure::Retry(ms) && after_failure(
            failures + 1,
        ) == AfterFailure::Retry(
            if 2 * ms <= 5000 {
                (2 * ms) as u64
            } else {
                5000
            },
        )),
        failures >= 10 <==> after_failure(failures) is GiveUp,
        WARMUP_CHUNKS == 67,
        MAX_RETRIES == 10,
        END_WAIT_MS == 3000,
        IDLE_MS == 5,
        STOP_WAIT_MS == 5000,
{
    crate::backoff::law_backoff_doubles(failures);
    crate::backoff::law_backoff_grows_to_cap(failures, failures + 1);
}

/// What can happen to a connection at a stage: a frame while it waits for a
/// session, the fate of a message while it sends, and anything but a frame while
/// it streams. Nothing happens to one that is over.
pub proof fn law_what_can_happen(
    event: ConnectionEvent,
    left: nat,
    rest: Seq<Seq<char>>,
)
    ensures
        possible(ConnectionStage::AwaitingSession, event) <==> event is Frame,
        possible(ConnectionStage::WarmingUp { left }, event) <==> event is Sent || event
            is SendFailed,
        possible(ConnectionStage::Replaying { rest }, event) <==> event is Sent || event
            is SendFailed,
        possible(ConnectionStage::Streaming, event) <==> !(event is Frame),
        !possible(ConnectionStage::Over, event),
{
}

/// The headers are told by their names and values.
pub proof fn law_headers_are_pairs_of_texts(headers: Seq<(String, String)>, i: int)
    requires
        0 <= i < headers.len(),
    ensures
        headers_of(headers).len() == headers.len(),
        headers_of(headers)[i] == (headers[i].0@, headers[i].1@),
{
}

} // verus!
