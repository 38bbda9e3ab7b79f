//! A transcription session with the Mistral realtime service.

use base64::Engine;
use vstd::prelude::*;
use vstd::string::*;

use crate::backoff::{capped, capped_backoff};
use crate::text::same;

verus! {

/// The 16-bit two's complement of a sample, as an unsigned number.
pub open spec fn sample_word(sample: i16) -> int {
    sample as int % 65536
}

/// Samples as bytes: two for each, the low one first.
pub open spec fn pcm_bytes(samples: Seq<i16>) -> Seq<u8> {
    Seq::new(
        2 * samples.len(),
        |k: int|
            if k % 2 == 0 {
                (sample_word(samples[k / 2]) % 256) as u8
            } else {
                (sample_word(samples[k / 2]) / 256) as u8
            },
    )
}

/// The byte at an index, or 0 beyond the end.
pub open spec fn byte_or_zero(bytes: Seq<u8>, i: int) -> int {
    if 0 <= i < bytes.len() {
        bytes[i] as int
    } else {
        0
    }
}

/// The six bits that the character at index `k` of a base64 text stands for.
pub open spec fn sextet(bytes: Seq<u8>, k: int) -> int {
    let i = k / 4 * 3;
    let group = byte_or_zero(bytes, i) * 65536 + byte_or_zero(bytes, i + 1) * 256 + byte_or_zero(
        bytes,
        i + 2,
    );
    if k % 4 == 0 {
        group / 262144
    } else if k % 4 == 1 {
        group / 4096 % 64
    } else if k % 4 == 2 {
        group / 64 % 64
    } else {
        group % 64
    }
}

/// The character for six bits in the standard base64 alphabet.
pub open spec fn base64_char(bits: int) -> char {
    if bits < 26 {
        ('A' as int + bits) as char
    } else if bits < 52 {
        ('a' as int + bits - 26) as char
    } else if bits < 62 {
        ('0' as int + bits - 52) as char
    } else if bits == 62 {
        '+'
    } else {
        '/'
    }
}

/// How long the base64 text of so many bytes is.
pub open spec fn base64_len(n: nat) -> nat {
    (n + 2) / 3 * 4
}

/// Bytes in base64, with the standard alphabet and padding: three bytes make
/// four characters, and `=` stands where the bytes have ended.
pub open spec fn base64_text(bytes: Seq<u8>) -> Seq<char> {
    Seq::new(
        base64_len(bytes.len()),
        |k: int|
            if k % 4 >= 2 && k / 4 * 3 + k % 4 > bytes.len() {
                '='
            } else {
                base64_char(sextet(bytes, k))
            },
    )
}

/// `base64::engine::general_purpose::STANDARD.encode`: base64 as RFC 4648
/// defines it, with the standard alphabet and with padding. The text has to
/// fit in memory.
#[verifier::external_body]
fn base64_encode(bytes: &[u8]) -> (r: String)
    requires
        base64_len(bytes@.len()) <= isize::MAX,
    ensures
        r@ == base64_text(bytes@),
{
    base64::engine::general_purpose::STANDARD.encode(bytes)
}

/// The base64 text of the samples fits in memory.
pub open spec fn encodable(samples: Seq<i16>) -> bool {
    base64_len(2 * samples.len()) <= isize::MAX
}

fn pcm_of(samples: &[i16]) -> (r: Vec<u8>)
    ensures
        r@ == pcm_bytes(samples@),
{
    let mut r: Vec<u8> = Vec::new();
    let mut i: usize = 0;
    while i < samples.len()
        invariant
            i <= samples@.len(),
            r@ == pcm_bytes(samples@).take(2 * i),
        decreases samples.len() - i,
    {
        let s = samples[i] as i32;
        let word: i32 = if s < 0 {
            s + 65536
        } else {
            s
        };
        proof {
            assert(word == sample_word(samples@[i as int]));
        }
        r.push((word % 256) as u8);
        r.push((word / 256) as u8);
        proof {
            assert(r@ =~= pcm_bytes(samples@).take(2 * (i + 1)));
        }
        i = i + 1;
    }
    proof {
        assert(pcm_bytes(samples@).take(2 * i) =~= pcm_bytes(samples@));
    }
    r
}

/// A chunk of audio as the service takes it: 16-bit samples, low byte first,
/// in base64.
pub fn encode_audio_chunk(samples: &[i16]) -> (r: String)
    requires
        encodable(samples@),
    ensures
        r@ == base64_text(pcm_bytes(samples@)),
{
    base64_encode(pcm_of(samples).as_slice())
}

/// A message that carries a chunk of audio to the service.
pub struct AudioAppendMessage {
    pub msg_type: String,
    pub audio: String,
}

/// A message that tells the service that there is no more audio.
pub struct AudioEndMessage {
    pub msg_type: String,
}

/// A message of the service.
pub struct ServerMessage {
    pub msg_type: String,
    pub text: Option<String>,
    /// What went wrong, as JSON text.
    pub error: Option<String>,
}

/// Something that arrived over the connection.
pub enum Incoming {
    /// A text frame; `None` if it holds no message of the service.
    Text(Option<ServerMessage>),
    /// A frame that closes the connection.
    Close,
    /// Any other frame.
    Other,
    /// The connection failed.
    Failed,
    /// There is nothing more to come.
    Ended,
}

/// Why a connection came to nothing.
#[derive(Clone, Copy, Debug, PartialEq, Eq, Structural)]
pub enum StreamError {
    BuildRequest,
    Connect,
    AwaitSession,
    ClosedBeforeSession,
    SendWarmup,
    ReplayAudio,
    Disconnected,
    SendAudio,
}

/// What an error says before its cause.
pub open spec fn error_prefix(error: StreamError) -> Seq<char> {
    match error {
        StreamError::BuildRequest => "Failed to build request: "@,
        StreamError::Connect => "WebSocket connection failed: "@,
        StreamError::AwaitSession => "Error waiting for session.created: "@,
        StreamError::ClosedBeforeSession => "Connection closed before session.created"@,
        StreamError::SendWarmup => "Failed to send warmup: "@,
        StreamError::ReplayAudio => "Failed to replay buffered audio: "@,
        StreamError::Disconnected => "WebSocket disconnected: "@,
        StreamError::SendAudio => "Failed to send audio: "@,
    }
}

impl StreamError {
    /// The error in words, with its cause where it has one.
    pub fn message(&self, cause: &str) -> (r: String)
        ensures
            r@ == if *self is ClosedBeforeSession {
                error_prefix(*self)
            } else {
                error_prefix(*self) + cause@
            },
    {
        match self {
            StreamError::BuildRequest => "Failed to build request: ".to_owned().concat(cause),
            StreamError::Connect => "WebSocket connection failed: ".to_owned().concat(cause),
            StreamError::AwaitSession => "Error waiting for session.created: ".to_owned().concat(
                cause,
            ),
            StreamError::ClosedBeforeSession => {
                "Connection closed before session.created".to_owned()
            },
            StreamError::SendWarmup => "Failed to send warmup: ".to_owned().concat(cause),
            StreamError::ReplayAudio => "Failed to replay buffered audio: ".to_owned().concat(
                cause,
            ),
            StreamError::Disconnected => "WebSocket disconnected: ".to_owned().concat(cause),
            StreamError::SendAudio => "Failed to send audio: ".to_owned().concat(cause),
        }
    }
}

/// The header names and values in terms of mathematical texts.
pub open spec fn headers_of(headers: Seq<(String, String)>) -> Seq<(Seq<char>, Seq<char>)> {
    headers.map_values(|h: (String, String)| (h.0@, h.1@))
}

/// The address of the realtime service.
pub fn realtime_url() -> (r: String)
    ensures
        r@
            == "wss://api.mistral.ai/v1/audio/transcriptions/realtime?model=voxtral-mini-transcribe-realtime-2602"@,
{
    "wss://api.mistral.ai/v1/audio/transcriptions/realtime?model=voxtral-mini-transcribe-realtime-2602".to_owned()
}

/// The headers of the request that opens a connection.
pub fn realtime_headers(api_key: &str, websocket_key: &str) -> (r: Vec<(String, String)>)
    ensures
        headers_of(r@) == seq![
            ("Authorization"@, "Bearer "@ + api_key@),
            ("Host"@, "api.mistral.ai"@),
            ("Connection"@, "Upgrade"@),
            ("Upgrade"@, "websocket"@),
            ("Sec-WebSocket-Version"@, "13"@),
            ("Sec-WebSocket-Key"@, websocket_key@),
        ],
{
    let r: Vec<(String, String)> = vec![
        ("Authorization".to_owned(), "Bearer ".to_owned().concat(api_key)),
        ("Host".to_owned(), "api.mistral.ai".to_owned()),
        ("Connection".to_owned(), "Upgrade".to_owned()),
        ("Upgrade".to_owned(), "websocket".to_owned()),
        ("Sec-WebSocket-Version".to_owned(), "13".to_owned()),
        ("Sec-WebSocket-Key".to_owned(), websocket_key.to_owned()),
    ];
    proof {
        assert(headers_of(r@) =~= seq![
            ("Authorization"@, "Bearer "@ + api_key@),
            ("Host"@, "api.mistral.ai"@),
            ("Connection"@, "Upgrade"@),
            ("Upgrade"@, "websocket"@),
            ("Sec-WebSocket-Version"@, "13"@),
            ("Sec-WebSocket-Key"@, websocket_key@),
        ]);
    }
    r
}

/// What an open connection that has no session yet does next.
#[derive(Clone, Copy, Debug, PartialEq, Eq, Structural)]
pub enum Handshake {
    /// The session exists.
    Ready,
    /// Wait for the next frame.
    Wait,
    Fail(StreamError),
}

/// What a frame means to a connection that has no session yet.
pub open spec fn handshake(incoming: Incoming) -> Handshake {
    match incoming {
        Incoming::Text(Some(message)) => if message.msg_type@ == "session.created"@ {
            Handshake::Ready
        } else {
            Handshake::Wait
        },
        Incoming::Failed => Handshake::Fail(StreamError::AwaitSession),
        Incoming::Ended => Handshake::Fail(StreamError::ClosedBeforeSession),
        _ => Handshake::Wait,
    }
}

/// What a frame means to a connection that has no session yet.
pub fn await_session(incoming: &Incoming) -> (r: Handshake)
    ensures
        r == handshake(*incoming),
{
    match incoming {
        Incoming::Text(Some(message)) => {
            if same(message.msg_type.as_str(), "session.created") {
                Handshake::Ready
            } else {
                Handshake::Wait
            }
        },
        Incoming::Failed => Handshake::Fail(StreamError::AwaitSession),
        Incoming::Ended => Handshake::Fail(StreamError::ClosedBeforeSession),
        _ => Handshake::Wait,
    }
}

/// How many samples 30 ms of audio at 16 kHz have.
pub const WARMUP_SAMPLES: usize = 480;

/// How many chunks of silence open a session: about two seconds.
pub const WARMUP_CHUNKS: u32 = 67;

/// How often a session tries to connect again.
pub const MAX_RETRIES: u32 = 10;

/// How long the end of a session waits for the last message of the service.
pub const END_WAIT_MS: u64 = 3000;

/// How long a session rests when there is no audio.
pub const IDLE_MS: u64 = 5;

/// How long stopping a session waits for its end.
pub const STOP_WAIT_MS: u64 = 5000;

/// A chunk of audio as the service takes it.
pub open spec fn audio_text(samples: Seq<i16>) -> Seq<char> {
    base64_text(pcm_bytes(samples))
}

/// The message for a chunk of audio.
pub open spec fn appends(message: AudioAppendMessage, samples: Seq<i16>) -> bool {
    &&& message.msg_type@ == "input_audio.append"@
    &&& message.audio@ == audio_text(samples)
}

/// The messages for chunks of audio, in order.
pub open spec fn appends_all(messages: Seq<AudioAppendMessage>, chunks: Seq<Seq<i16>>) -> bool {
    &&& messages.len() == chunks.len()
    &&& forall|i: int| 0 <= i < chunks.len() ==> appends(#[trigger] messages[i], chunks[i])
}

fn append_message(samples: &[i16]) -> (r: AudioAppendMessage)
    requires
        encodable(samples@),
    ensures
        appends(r, samples@),
{
    AudioAppendMessage {
        msg_type: "input_audio.append".to_owned(),
        audio: encode_audio_chunk(samples),
    }
}

/// A chunk of silence.
pub open spec fn silence() -> Seq<i16> {
    Seq::new(WARMUP_SAMPLES as nat, |i: int| 0i16)
}

/// The message for a chunk of silence.
pub fn warmup_message() -> (r: AudioAppendMessage)
    ensures
        appends(r, silence()),
{
    let samples: Vec<i16> = vec![0i16; WARMUP_SAMPLES];
    proof {
        assert(samples@ =~= silence());
    }
    append_message(samples.as_slice())
}

/// The mathematical state of a [`MistralRealtimeSession`].
pub struct SessionModel {
    /// The transcription so far.
    pub text: Seq<char>,
    /// The chunks of audio that were taken in, oldest first.
    pub chunks: Seq<Seq<i16>>,
    /// How many connections have failed.
    pub failures: nat,
}

/// What the sender finds when it looks for work.
pub enum SenderEvent {
    /// The session is to stop.
    Stop,
    Samples(Vec<i16>),
    /// There is no audio at the moment.
    NoAudio,
    /// There will be no more audio.
    AudioEnded,
}

/// What the sender does.
pub enum SenderAction {
    /// Send the message.
    Send(AudioAppendMessage),
    /// Rest for so many milliseconds.
    Rest(u64),
    /// Send the message if that is possible, wait so many milliseconds at most
    /// for the receiver, and end well.
    Finish(AudioEndMessage, u64),
}

/// What the receiver does.
pub enum ReceiverAction {
    /// Show the transcription.
    Show(String),
    /// Wait for the next frame.
    Wait,
    Stop,
}

/// What follows a connection that failed.
#[derive(Clone, Copy, Debug, PartialEq, Eq, Structural)]
pub enum AfterFailure {
    /// Rest for so many milliseconds, then connect again.
    Retry(u64),
    GiveUp,
}

impl AfterFailure {
    /// The status to show: giving up is an error.
    pub fn status(&self) -> (r: Option<String>)
        ensures
            match r {
                Some(status) => *self is GiveUp && status@ == "error"@,
                None => !(*self is GiveUp),
            },
    {
        match self {
            AfterFailure::GiveUp => Some("error".to_owned()),
            AfterFailure::Retry(_) => None,
        }
    }
}

/// What follows a connection that failed after so many others had.
pub open spec fn after_failure(failures: nat) -> AfterFailure {
    if failures >= MAX_RETRIES {
        AfterFailure::GiveUp
    } else {
        AfterFailure::Retry(capped(failures) as u64)
    }
}

/// The part of the transcription that a frame carries, if it carries one.
pub open spec fn delta_of(incoming: Incoming) -> Option<Seq<char>> {
    match incoming {
        Incoming::Text(Some(message)) => match message.text {
            Some(delta) if message.msg_type@ == "transcription.text.delta"@ => Some(delta@),
            _ => None,
        },
        _ => None,
    }
}

/// The transcription after a frame.
pub open spec fn heard(text: Seq<char>, incoming: Incoming) -> Seq<char> {
    match delta_of(incoming) {
        Some(delta) => text + delta,
        None => text,
    }
}

/// A frame after which the receiver stops: the service has said all, or the
/// connection is over.
pub open spec fn last_frame(incoming: Incoming) -> bool {
    match incoming {
        Incoming::Text(Some(message)) => message.msg_type@ == "transcription.done"@
            || message.msg_type@ == "error"@,
        Incoming::Close | Incoming::Failed | Incoming::Ended => true,
        _ => false,
    }
}

/// A transcription session with the Mistral realtime service.
pub struct MistralRealtimeSession {
    final_text: String,
    audio_buffer: Vec<Vec<i16>>,
    retry_count: u32,
}

/// The chunks in terms of mathematical sequences.
pub open spec fn chunks_of(chunks: Seq<Vec<i16>>) -> Seq<Seq<i16>> {
    chunks.map_values(|c: Vec<i16>| c@)
}

impl View for MistralRealtimeSession {
    type V = SessionModel;

    closed spec fn view(&self) -> SessionModel {
        SessionModel {
            text: self.final_text@,
            chunks: chunks_of(self.audio_buffer@),
            failures: self.retry_count as nat,
        }
    }
}

impl MistralRealtimeSession {
    /// A session that has not connected yet.
    pub fn start() -> (r: Self)
        ensures
            r.well_formed(),
            r@ == (SessionModel { text: Seq::empty(), chunks: Seq::empty(), failures: 0 }),
    {
        let r = MistralRealtimeSession {
            final_text: String::new(),
            audio_buffer: Vec::new(),
            retry_count: 0,
        };
        proof {
            assert(r@.chunks =~= Seq::<Seq<i16>>::empty());
        }
        r
    }

    /// Every chunk can be sent again, and the failures are within the limit.
    pub open spec fn well_formed(self) -> bool {
        &&& self@.failures <= MAX_RETRIES + 1
        &&& forall|i: int|
            0 <= i < self@.chunks.len() ==> encodable(#[trigger] self@.chunks[i])
    }

    /// The transcription so far.
    pub fn get_text_ref(&self) -> (r: &String)
        ensures
            r@ == self@.text,
    {
        &self.final_text
    }

    /// The status to show while a connection is made; `None` if the session is
    /// to stop.
    pub fn next_attempt(&self, stopped: bool) -> (r: Option<String>)
        ensures
            match r {
                None => stopped,
                Some(status) => !stopped && status@ == if self@.failures == 0 {
                    "connecting"@
                } else {
                    "reconnecting"@
                },
            },
    {
        if stopped {
            None
        } else if self.retry_count == 0 {
            Some("connecting".to_owned())
        } else {
            Some("reconnecting".to_owned())
        }
    }

    /// A connection has failed.
    pub fn connection_failed(&mut self) -> (r: AfterFailure)
        requires
            old(self).well_formed(),
            old(self)@.failures <= MAX_RETRIES,
        ensures
            final(self).well_formed(),
            final(self)@ == (SessionModel {
                failures: (old(self)@.failures + 1) as nat,
                ..old(self)@
            }),
            r == after_failure(old(self)@.failures),
    {
        let rest = capped_backoff(self.retry_count);
        self.retry_count = self.retry_count + 1;
        proof {
            assert(self@.chunks == old(self)@.chunks);
        }
        if self.retry_count > MAX_RETRIES {
            AfterFailure::GiveUp
        } else {
            AfterFailure::Retry(rest)
        }
    }

    /// The messages that bring a new connection up to date: all the audio so
    /// far. Where there was any, the transcription starts anew.
    pub fn replay(&mut self) -> (r: Vec<AudioAppendMessage>)
        requires
            old(self).well_formed(),
        ensures
            final(self).well_formed(),
            final(self)@ == (SessionModel {
                text: if old(self)@.chunks.len() == 0 {
                    old(self)@.text
                } else {
                    Seq::empty()
                },
                ..old(self)@
            }),
            appends_all(r@, old(self)@.chunks),
    {
        let mut messages: Vec<AudioAppendMessage> = Vec::new();
        if self.audio_buffer.len() > 0 {
            self.final_text = String::new();
        }
        let mut i: usize = 0;
        while i < self.audio_buffer.len()
            invariant
                self.well_formed(),
                i <= self.audio_buffer@.len(),
                messages@.len() == i,
                forall|k: int|
                    0 <= k < i ==> appends(#[trigger] messages@[k], self.audio_buffer@[k]@),
            decreases self.audio_buffer.len() - i,
        {
            proof {
                assert(self@.chunks[i as int] == self.audio_buffer@[i as int]@);
            }
            messages.push(append_message(self.audio_buffer[i].as_slice()));
            i = i + 1;
        }
        messages
    }

    /// The sender has looked for work.
    pub fn sender_step(&mut self, event: SenderEvent) -> (r: SenderAction)
        requires
            old(self).well_formed(),
            event matches SenderEvent::Samples(samples) ==> encodable(samples@),
        ensures
            final(self).well_formed(),
            match event {
                SenderEvent::Samples(samples) => {
                    &&& final(self)@ == (SessionModel {
                        chunks: old(self)@.chunks.push(samples@),
                        ..old(self)@
                    })
                    &&& r matches SenderAction::Send(message)
                    &&& appends(message, samples@)
                },
                SenderEvent::NoAudio => *final(self) == *old(self) && r == SenderAction::Rest(IDLE_MS),
                SenderEvent::Stop | SenderEvent::AudioEnded => {
                    &&& *final(self) == *old(self)
                    &&& r matches SenderAction::Finish(message, wait)
                    &&& message.msg_type@ == "input_audio.end"@
                    &&& wait == END_WAIT_MS
                },
            },
    {
        match event {
            SenderEvent::Samples(samples) => {
                let message = append_message(samples.as_slice());
                let ghost before = self.audio_buffer@;
                self.audio_buffer.push(samples);
                proof {
                    assert(self@.chunks =~= chunks_of(before).push(samples@));
                }
                SenderAction::Send(message)
            },
            SenderEvent::NoAudio => SenderAction::Rest(IDLE_MS),
            SenderEvent::Stop | SenderEvent::AudioEnded => SenderAction::Finish(
                AudioEndMessage { msg_type: "input_audio.end".to_owned() },
                END_WAIT_MS,
            ),
        }
    }

    /// The error of a connection on which a chunk could not be sent.
    pub fn send_failed(receiver_finished: bool) -> (r: StreamError)
        ensures
            r == if receiver_finished {
                StreamError::Disconnected
            } else {
                StreamError::SendAudio
            },
    {
        if receiver_finished {
            StreamError::Disconnected
        } else {
            StreamError::SendAudio
        }
    }

    /// The receiver has a frame. It makes no difference whether the session was
    /// told to stop: the service may still have something to say.
    pub fn receive(&mut self, incoming: Incoming) -> (r: ReceiverAction)
        ensures
            final(self)@ == (SessionModel {
                text: heard(old(self)@.text, incoming),
                ..old(self)@
            }),
            old(self).well_formed() ==> final(self).well_formed(),
            match r {
                ReceiverAction::Stop => last_frame(incoming),
                ReceiverAction::Show(text) => delta_of(incoming) is Some && text@
                    == final(self)@.text,
                ReceiverAction::Wait => !last_frame(incoming) && delta_of(incoming) is None,
            },
    {
        match incoming {
            Incoming::Text(Some(message)) => {
                proof {
                    reveal_strlit("transcription.text.delta");
                    reveal_strlit("transcription.done");
                    reveal_strlit("error");
                    assert("transcription.text.delta"@.len() == 24);
                    assert("transcription.done"@.len() == 18);
                    assert("error"@.len() == 5);
                }
                if same(message.msg_type.as_str(), "transcription.text.delta") {
                    match message.text {
                        Some(delta) => {
                            self.final_text.append(delta.as_str());
                            ReceiverAction::Show(self.final_text.clone())
                        },
                        None => ReceiverAction::Wait,
                    }
                } else if same(message.msg_type.as_str(), "transcription.done") || same(
                    message.msg_type.as_str(),
                    "error",
                ) {
                    ReceiverAction::Stop
                } else {
                    ReceiverAction::Wait
                }
            },
            Incoming::Close | Incoming::Failed | Incoming::Ended => ReceiverAction::Stop,
            _ => ReceiverAction::Wait,
        }
    }
}

/// What a connection does next.
pub enum ConnectionAction {
    /// Wait for a frame.
    ReadFrame,
    /// Send the message.
    Send(AudioAppendMessage),
    /// See whether the session is to stop, and whether there is audio.
    LookForAudio,
    /// Rest for so many milliseconds.
    Rest(u64),
    /// Send the message if that is possible, wait so many milliseconds at most
    /// for the receiver, and end well.
    Finish(AudioEndMessage, u64),
    Fail(StreamError),
}

/// What a connection does next, and what it tells before.
pub struct ConnectionTurn {
    /// The session exists: show that the service is connected.
    pub connected: bool,
    /// Everything before is sent: frames go to the receiver from now on.
    pub receiving: bool,
    pub action: ConnectionAction,
}

impl ConnectionTurn {
    /// The status to show, once the service is connected.
    pub fn status(&self) -> (r: Option<String>)
        ensures
            match r {
                Some(status) => self.connected && status@ == "connected"@,
                None => !self.connected,
            },
    {
        if self.connected {
            Some("connected".to_owned())
        } else {
            None
        }
    }
}

/// What happened to a connection.
pub enum ConnectionEvent {
    /// A frame came that was waited for.
    Frame(Incoming),
    /// The message was sent.
    Sent,
    /// The message could not be sent.
    SendFailed { receiver_finished: bool },
    /// The sender looked for work.
    Sender(SenderEvent),
    /// The rest is over.
    Rested,
}

/// How far a connection has come.
pub enum ConnectionStage {
    /// Open, but without a session.
    AwaitingSession,
    /// A chunk of silence is under way, and so many are to follow.
    WarmingUp { left: nat },
    /// A chunk from before is under way, and these are to follow.
    Replaying { rest: Seq<Seq<char>> },
    /// Audio is sent as it comes in.
    Streaming,
    Over,
}

/// An action in terms of mathematical texts: of a message the audio, of an end
/// nothing.
pub enum ActionModel {
    ReadFrame,
    Send(Seq<char>),
    LookForAudio,
    Rest(u64),
    Finish,
    Fail(StreamError),
}

/// A turn in terms of mathematical texts, with what it leaves behind.
pub struct ConnectionTurnModel {
    pub connected: bool,
    pub receiving: bool,
    pub action: ActionModel,
    pub stage: ConnectionStage,
    pub session: SessionModel,
}

/// The action in terms of mathematical texts.
pub open spec fn action_model(action: ConnectionAction) -> ActionModel {
    match action {
        ConnectionAction::ReadFrame => ActionModel::ReadFrame,
        ConnectionAction::Send(message) => ActionModel::Send(message.audio@),
        ConnectionAction::LookForAudio => ActionModel::LookForAudio,
        ConnectionAction::Rest(ms) => ActionModel::Rest(ms),
        ConnectionAction::Finish(_, _) => ActionModel::Finish,
        ConnectionAction::Fail(error) => ActionModel::Fail(error),
    }
}

/// The message of an action is of the type that the service expects.
pub open spec fn proper_message(action: ConnectionAction) -> bool {
    match action {
        ConnectionAction::Send(message) => message.msg_type@ == "input_audio.append"@,
        ConnectionAction::Finish(message, wait) => message.msg_type@ == "input_audio.end"@ && wait
            == END_WAIT_MS,
        _ => true,
    }
}

/// A turn that only acts.
pub open spec fn acting(
    action: ActionModel,
    stage: ConnectionStage,
    session: SessionModel,
) -> ConnectionTurnModel {
    ConnectionTurnModel { connected: false, receiving: false, action, stage, session }
}

/// The audio texts of all chunks, in order.
pub open spec fn audio_texts(chunks: Seq<Seq<i16>>) -> Seq<Seq<char>> {
    chunks.map_values(|c: Seq<i16>| audio_text(c))
}

/// The session after a new connection has taken its audio for a replay.
pub open spec fn replaying(session: SessionModel) -> SessionModel {
    SessionModel {
        text: if session.chunks.len() == 0 {
            session.text
        } else {
            Seq::empty()
        },
        ..session
    }
}

/// The next chunk from before or, after the last, the stream.
pub open spec fn replay_turn(left: Seq<Seq<char>>, session: SessionModel) -> ConnectionTurnModel {
    if left.len() > 0 {
        acting(
            ActionModel::Send(left[0]),
            ConnectionStage::Replaying { rest: left.drop_first() },
            session,
        )
    } else {
        ConnectionTurnModel {
            connected: false,
            receiving: true,
            action: ActionModel::LookForAudio,
            stage: ConnectionStage::Streaming,
            session,
        }
    }
}

/// Whether an event can happen at a stage.
pub open spec fn possible(stage: ConnectionStage, event: ConnectionEvent) -> bool {
    match stage {
        ConnectionStage::AwaitingSession => event is Frame,
        ConnectionStage::WarmingUp { .. } | ConnectionStage::Replaying { .. } => event is Sent
            || event is SendFailed,
        ConnectionStage::Streaming => event !is Frame,
        ConnectionStage::Over => false,
    }
}

/// The turn that follows an event.
pub open spec fn connection_turn(
    stage: ConnectionStage,
    session: SessionModel,
    event: ConnectionEvent,
) -> ConnectionTurnModel {
    match (stage, event) {
        (ConnectionStage::AwaitingSession, ConnectionEvent::Frame(incoming)) => match handshake(
            incoming,
        ) {
            Handshake::Ready => ConnectionTurnModel {
                connected: true,
                receiving: false,
                action: ActionModel::Send(audio_text(silence())),
                stage: ConnectionStage::WarmingUp { left: (WARMUP_CHUNKS - 1) as nat },
                session,
            },
            Handshake::Wait => acting(ActionModel::ReadFrame, stage, session),
            Handshake::Fail(error) => acting(
                ActionModel::Fail(error),
                ConnectionStage::Over,
                session,
            ),
        },
        (ConnectionStage::WarmingUp { left }, ConnectionEvent::Sent) => if left > 0 {
            acting(
                ActionModel::Send(audio_text(silence())),
                ConnectionStage::WarmingUp { left: (left - 1) as nat },
                session,
            )
        } else {
            replay_turn(audio_texts(session.chunks), replaying(session))
        },
        (ConnectionStage::WarmingUp { .. }, ConnectionEvent::SendFailed { .. }) => acting(
            ActionModel::Fail(StreamError::SendWarmup),
            ConnectionStage::Over,
            session,
        ),
        (ConnectionStage::Replaying { rest }, ConnectionEvent::Sent) => replay_turn(rest, session),
        (ConnectionStage::Replaying { .. }, ConnectionEvent::SendFailed { .. }) => acting(
            ActionModel::Fail(StreamError::ReplayAudio),
            ConnectionStage::Over,
            session,
        ),
        (
            ConnectionStage::Streaming,
            ConnectionEvent::Sender(SenderEvent::Samples(samples)),
        ) => acting(
            ActionModel::Send(audio_text(samples@)),
            stage,
            SessionModel { chunks: session.chunks.push(samples@), ..session },
        ),
        (ConnectionStage::Streaming, ConnectionEvent::Sender(SenderEvent::NoAudio)) => acting(
            ActionModel::Rest(IDLE_MS),
            stage,
            session,
        ),
        (ConnectionStage::Streaming, ConnectionEvent::Sender(_)) => acting(
            ActionModel::Finish,
            ConnectionStage::Over,
            session,
        ),
        (ConnectionStage::Streaming, ConnectionEvent::SendFailed { receiver_finished }) => acting(
            ActionModel::Fail(
                if receiver_finished {
                    StreamError::Disconnected
                } else {
                    StreamError::SendAudio
                },
            ),
            ConnectionStage::Over,
            session,
        ),
        _ => acting(ActionModel::LookForAudio, stage, session),
    }
}

enum ConnectionState {
    AwaitingSession,
    WarmingUp { left: u32 },
    Replaying { messages: Vec<AudioAppendMessage>, next: usize },
    Streaming,
    Over,
}

/// A connection to the realtime service, from its opening to its end.
pub struct Connection {
    state: ConnectionState,
}

spec fn audio_of_messages(messages: Seq<AudioAppendMessage>) -> Seq<Seq<char>> {
    messages.map_values(|m: AudioAppendMessage| m.audio@)
}

impl View for Connection {
    type V = ConnectionStage;

    closed spec fn view(&self) -> ConnectionStage {
        match self.state {
            ConnectionState::AwaitingSession => ConnectionStage::AwaitingSession,
            ConnectionState::WarmingUp { left } => ConnectionStage::WarmingUp { left: left as nat },
            ConnectionState::Replaying { messages, next } => ConnectionStage::Replaying {
                rest: audio_of_messages(messages@).skip(next as int),
            },
            ConnectionState::Streaming => ConnectionStage::Streaming,
            ConnectionState::Over => ConnectionStage::Over,
        }
    }
}

impl Connection {
    /// A chunk that is under way is one of those that were to be sent.
    pub closed spec fn well_formed(self) -> bool {
        self.state matches ConnectionState::Replaying { messages, next } ==> {
            &&& next <= messages@.len()
            &&& forall|i: int|
                0 <= i < messages@.len() ==> (#[trigger] messages@[i]).msg_type@
                    == "input_audio.append"@
        }
    }

    /// A connection that was just opened; it waits for a frame.
    pub fn open() -> (r: Self)
        ensures
            r.well_formed(),
            r@ == ConnectionStage::AwaitingSession,
    {
        Connection { state: ConnectionState::AwaitingSession }
    }

    fn replay_next(messages: Vec<AudioAppendMessage>, next: usize) -> (r: (
        Connection,
        ConnectionTurn,
    ))
        requires
            next <= messages@.len(),
            forall|i: int|
                0 <= i < messages@.len() ==> (#[trigger] messages@[i]).msg_type@
                    == "input_audio.append"@,
        ensures
            r.0.well_formed(),
            proper_message(r.1.action),
            forall|session: SessionModel|
                (ConnectionTurnModel {
                    connected: r.1.connected,
                    receiving: r.1.receiving,
                    action: action_model(r.1.action),
                    stage: r.0@,
                    session,
                }) == #[trigger] replay_turn(audio_of_messages(messages@).skip(next as int), session),
    {
        if next < messages.len() {
            let message = AudioAppendMessage {
                msg_type: messages[next].msg_type.clone(),
                audio: messages[next].audio.clone(),
            };
            let ghost left = audio_of_messages(messages@).skip(next as int);
            proof {
                assert(left.drop_first() =~= audio_of_messages(messages@).skip(next + 1));
            }
            (
                Connection { state: ConnectionState::Replaying { messages, next: next + 1 } },
                ConnectionTurn {
                    connected: false,
                    receiving: false,
                    action: ConnectionAction::Send(message),
                },
            )
        } else {
            (
                Connection { state: ConnectionState::Streaming },
                ConnectionTurn {
                    connected: false,
                    receiving: true,
                    action: ConnectionAction::LookForAudio,
                },
            )
        }
    }

    /// Goes on after an event.
    pub fn step(self, session: &mut MistralRealtimeSession, event: ConnectionEvent) -> (r: (
        Connection,
        ConnectionTurn,
    ))
        requires
            self.well_formed(),
            old(session).well_formed(),
            possible(self@, event),
            event matches ConnectionEvent::Sender(SenderEvent::Samples(samples)) ==> encodable(
                samples@,
            ),
        ensures
            r.0.well_formed(),
            final(session).well_formed(),
            proper_message(r.1.action),
            (ConnectionTurnModel {
                connected: r.1.connected,
                receiving: r.1.receiving,
                action: action_model(r.1.action),
                stage: r.0@,
                session: final(session)@,
            }) == connection_turn(self@, old(session)@, event),
    {
        match (self.state, event) {
            (ConnectionState::AwaitingSession, ConnectionEvent::Frame(incoming)) => {
                match await_session(&incoming) {
                    Handshake::Ready => (
                        Connection { state: ConnectionState::WarmingUp { left: WARMUP_CHUNKS - 1 } },
                        ConnectionTurn {
                            connected: true,
                            receiving: false,
                            action: ConnectionAction::Send(warmup_message()),
                        },
                    ),
                    Handshake::Wait => act(
                        ConnectionState::AwaitingSession,
                        ConnectionAction::ReadFrame,
                    ),
                    Handshake::Fail(error) => act(
                        ConnectionState::Over,
                        ConnectionAction::Fail(error),
                    ),
                }
            },
            (ConnectionState::WarmingUp { left }, ConnectionEvent::Sent) => {
                if left > 0 {
                    act(
                        ConnectionState::WarmingUp { left: left - 1 },
                        ConnectionAction::Send(warmup_message()),
                    )
                } else {
                    let ghost before = session@;
                    let messages = session.replay();
                    proof {
                        assert(audio_of_messages(messages@).skip(0) =~= audio_texts(before.chunks));
                        let _ = replay_turn(audio_texts(before.chunks), session@);
                    }
                    Self::replay_next(messages, 0)
                }
            },
            (ConnectionState::WarmingUp { .. }, ConnectionEvent::SendFailed { .. }) => act(
                ConnectionState::Over,
                ConnectionAction::Fail(StreamError::SendWarmup),
            ),
            (ConnectionState::Replaying { messages, next }, ConnectionEvent::Sent) => {
                proof {
                    let _ = replay_turn(audio_of_messages(messages@).skip(next as int), session@);
                }
                Self::replay_next(messages, next)
            },
            (ConnectionState::Replaying { .. }, ConnectionEvent::SendFailed { .. }) => act(
                ConnectionState::Over,
                ConnectionAction::Fail(StreamError::ReplayAudio),
            ),
            (ConnectionState::Streaming, ConnectionEvent::Sender(found)) => {
                match session.sender_step(found) {
                    SenderAction::Send(message) => act(
                        ConnectionState::Streaming,
                        ConnectionAction::Send(message),
                    ),
                    SenderAction::Rest(ms) => act(
                        ConnectionState::Streaming,
                        ConnectionAction::Rest(ms),
                    ),
                    SenderAction::Finish(message, wait) => act(
                        ConnectionState::Over,
                        ConnectionAction::Finish(message, wait),
                    ),
                }
            },
            (ConnectionState::Streaming, ConnectionEvent::SendFailed { receiver_finished }) => act(
                ConnectionState::Over,
                ConnectionAction::Fail(MistralRealtimeSession::send_failed(receiver_finished)),
            ),
            (state, _) => act(state, ConnectionAction::LookForAudio),
        }
    }
}

fn act(state: ConnectionState, action: ConnectionAction) -> (r: (Connection, ConnectionTurn))
    ensures
        r.0.state == state,
        r.1 == (ConnectionTurn { connected: false, receiving: false, action }),
{
    (Connection { state }, ConnectionTurn { connected: false, receiving: false, action })
}

proof fn lemma_quotient(n: int, d: int, q: int, r: int)
    by (nonlinear_arith)
    requires
        0 < d,
        0 <= r < d,
        n == d * q + r,
    ensures
        n / d == q,
        n % d == r,
{
}

proof fn lemma_group_of_three(a: int, b: int, c: int)
    requires
        0 <= a < 256,
        0 <= b < 256,
        0 <= c < 256,
    ensures
        ({
            let group = a * 65536 + b * 256 + c;
            &&& group / 262144 == a / 4
            &&& group / 4096 % 64 == a % 4 * 16 + b / 16
            &&& group / 64 % 64 == b % 16 * 4 + c / 64
            &&& group % 64 == c % 64
        }),
{
    let group = a * 65536 + b * 256 + c;
    lemma_quotient(group, 262144, a / 4, a % 4 * 65536 + b * 256 + c);
    lemma_quotient(group, 4096, 16 * a + b / 16, b % 16 * 256 + c);
    lemma_quotient(16 * a + b / 16, 64, a / 4, a % 4 * 16 + b / 16);
    lemma_quotient(group, 64, 1024 * a + 4 * b + c / 64, c % 64);
    lemma_quotient(1024 * a + 4 * b + c / 64, 64, 16 * a + b / 16, b % 16 * 4 + c / 64);
}

proof fn lemma_alphabet(x: int, y: int)
    requires
        0 <= x < 64,
        0 <= y < 64,
        base64_char(x) == base64_char(y),
    ensures
        x == y,
        base64_char(x) != '=',
{
}

proof fn lemma_sextet_is_six_bits(bytes: Seq<u8>, k: int)
    requires
        0 <= k,
    ensures
        0 <= sextet(bytes, k) < 64,
{
    let i = k / 4 * 3;
    lemma_group_of_three(
        byte_or_zero(bytes, i),
        byte_or_zero(bytes, i + 1),
        byte_or_zero(bytes, i + 2),
    );
}

proof fn lemma_same_sextet(x: Seq<u8>, y: Seq<u8>, k: int)
    requires
        x.len() == y.len(),
        base64_text(x) == base64_text(y),
        0 <= k < base64_len(x.len()),
        k % 4 < 2 || k / 4 * 3 + k % 4 <= x.len(),
    ensures
        sextet(x, k) == sextet(y, k),
{
    lemma_sextet_is_six_bits(x, k);
    lemma_sextet_is_six_bits(y, k);
    assert(base64_text(x)[k] == base64_char(sextet(x, k)));
    assert(base64_text(y)[k] == base64_char(sextet(y, k)));
    lemma_alphabet(sextet(x, k), sextet(y, k));
}

proof fn lemma_base64_tells_length(x: Seq<u8>, y: Seq<u8>)
    requires
        base64_text(x) == base64_text(y),
    ensures
        x.len() == y.len(),
{
    let n = base64_len(x.len()) as int;
    assert(base64_text(x).len() == n);
    assert(base64_text(y).len() == base64_len(y.len()));
    assert((x.len() + 2) / 3 == (y.len() + 2) / 3);
    if n > 0 {
        lemma_padding(x);
        lemma_padding(y);
        assert(base64_text(x)[n - 1] == base64_text(y)[n - 1]);
        assert(base64_text(x)[n - 2] == base64_text(y)[n - 2]);
    }
}

proof fn lemma_padding(x: Seq<u8>)
    requires
        x.len() > 0,
    ensures
        ({
            let n = base64_len(x.len()) as int;
            &&& base64_text(x)[n - 1] == '=' <==> x.len() % 3 != 0
            &&& base64_text(x)[n - 2] == '=' <==> x.len() % 3 == 1
        }),
{
    let n = base64_len(x.len()) as int;
    lemma_sextet_is_six_bits(x, n - 1);
    lemma_sextet_is_six_bits(x, n - 2);
    lemma_alphabet(sextet(x, n - 1), sextet(x, n - 1));
    lemma_alphabet(sextet(x, n - 2), sextet(x, n - 2));
    assert((n - 1) % 4 == 3 && (n - 1) / 4 * 3 + 3 == (x.len() + 2) / 3 * 3);
    assert((n - 2) % 4 == 2 && (n - 2) / 4 * 3 + 3 == (x.len() + 2) / 3 * 3);
}

/// The four sextets of the group `g` of three bytes.
proof fn lemma_sextets_of_group(bytes: Seq<u8>, g: int)
    requires
        0 <= g,
    ensures
        ({
            let a = byte_or_zero(bytes, 3 * g);
            let b = byte_or_zero(bytes, 3 * g + 1);
            let c = byte_or_zero(bytes, 3 * g + 2);
            &&& sextet(bytes, 4 * g) == a / 4
            &&& sextet(bytes, 4 * g + 1) == a % 4 * 16 + b / 16
            &&& sextet(bytes, 4 * g + 2) == b % 16 * 4 + c / 64
            &&& sextet(bytes, 4 * g + 3) == c % 64
        }),
{
    lemma_quotient(4 * g, 4, g, 0);
    lemma_quotient(4 * g + 1, 4, g, 1);
    lemma_quotient(4 * g + 2, 4, g, 2);
    lemma_quotient(4 * g + 3, 4, g, 3);
    lemma_group_of_three(
        byte_or_zero(bytes, 3 * g),
        byte_or_zero(bytes, 3 * g + 1),
        byte_or_zero(bytes, 3 * g + 2),
    );
}

proof fn lemma_first_byte(a: int, b: int, x: int, y: int)
    requires
        0 <= a < 256,
        0 <= b < 256,
        0 <= x < 256,
        0 <= y < 256,
        a / 4 == x / 4,
        a % 4 * 16 + b / 16 == x % 4 * 16 + y / 16,
    ensures
        a == x,
{
}

proof fn lemma_middle_byte(p: int, b: int, c: int, q: int, y: int, z: int)
    requires
        0 <= p < 256,
        0 <= b < 256,
        0 <= c < 256,
        0 <= q < 256,
        0 <= y < 256,
        0 <= z < 256,
        p % 4 * 16 + b / 16 == q % 4 * 16 + y / 16,
        b % 16 * 4 + c / 64 == y % 16 * 4 + z / 64,
    ensures
        b == y,
{
}

proof fn lemma_last_byte(b: int, c: int, y: int, z: int)
    requires
        0 <= b < 256,
        0 <= c < 256,
        0 <= y < 256,
        0 <= z < 256,
        b % 16 * 4 + c / 64 == y % 16 * 4 + z / 64,
        c % 64 == z % 64,
    ensures
        c == z,
{
}

proof fn lemma_same_byte(x: Seq<u8>, y: Seq<u8>, g: int, r: int)
    requires
        x.len() == y.len(),
        base64_text(x) == base64_text(y),
        0 <= g,
        0 <= r < 3,
        3 * g + r < x.len(),
    ensures
        x[3 * g + r] == y[3 * g + r],
{
    let a = byte_or_zero(x, 3 * g);
    let b = byte_or_zero(x, 3 * g + 1);
    let c = byte_or_zero(x, 3 * g + 2);
    let d = byte_or_zero(y, 3 * g);
    let e = byte_or_zero(y, 3 * g + 1);
    let f = byte_or_zero(y, 3 * g + 2);
    lemma_sextets_of_group(x, g);
    lemma_sextets_of_group(y, g);
    lemma_quotient(4 * g + r, 4, g, r);
    lemma_quotient(4 * g + r + 1, 4, g, r + 1);
    assert(base64_len(x.len()) >= 4 * g + 4) by {
        assert((x.len() + 2) / 3 >= g + 1);
    }
    lemma_same_sextet(x, y, 4 * g + r);
    lemma_same_sextet(x, y, 4 * g + r + 1);
    if r == 0 {
        lemma_first_byte(a, b, d, e);
    } else if r == 1 {
        lemma_middle_byte(a, b, c, d, e, f);
    } else {
        lemma_last_byte(b, c, e, f);
    }
}

/// No two byte sequences have the same base64 text.
pub proof fn law_base64_is_lossless(x: Seq<u8>, y: Seq<u8>)
    requires
        base64_text(x) == base64_text(y),
    ensures
        x == y,
{
    lemma_base64_tells_length(x, y);
    assert forall|i: int| 0 <= i < x.len() implies x[i] == y[i] by {
        lemma_same_byte(x, y, i / 3, i % 3);
    }
    assert(x =~= y);
}

/// Different chunks of audio make different messages: the service gets every
/// sample as it is.
pub proof fn law_audio_is_sent_as_it_is(x: Seq<i16>, y: Seq<i16>)
    requires
        base64_text(pcm_bytes(x)) == base64_text(pcm_bytes(y)),
    ensures
        x == y,
{
    law_base64_is_lossless(pcm_bytes(x), pcm_bytes(y));
    assert(pcm_bytes(x).len() == pcm_bytes(y).len());
    assert forall|i: int| 0 <= i < x.len() implies x[i] == y[i] by {
        assert(pcm_bytes(x)[2 * i] == pcm_bytes(y)[2 * i]);
        assert(pcm_bytes(x)[2 * i + 1] == pcm_bytes(y)[2 * i + 1]);
    }
    assert(x =~= y);
}

/// The turn after so many messages were sent, one after the other.
pub open spec fn after_sends(turn: ConnectionTurnModel, n: nat) -> ConnectionTurnModel
    decreases n,
{
    if n == 0 {
        turn
    } else {
        let before = after_sends(turn, (n - 1) as nat);
        connection_turn(before.stage, before.session, ConnectionEvent::Sent)
    }
}

/// What a new session sends as its message number `n`, counted from 0: first
/// the silence, then the audio from before, then nothing of its own accord.
pub open spec fn opening(chunks: Seq<Seq<i16>>, n: nat) -> ActionModel {
    if n < WARMUP_CHUNKS {
        ActionModel::Send(audio_text(silence()))
    } else if n < WARMUP_CHUNKS + chunks.len() {
        ActionModel::Send(audio_text(chunks[n - WARMUP_CHUNKS]))
    } else {
        ActionModel::LookForAudio
    }
}

/// A new session is opened by two seconds of silence, then gets all the audio
/// that was taken in before, each chunk once and in order, and only then new
/// audio; the transcription starts anew if there was any.
pub proof fn law_session_opening(session: SessionModel, incoming: Incoming, n: nat)
    requires
        handshake(incoming) is Ready,
        n <= WARMUP_CHUNKS + session.chunks.len(),
    ensures
        ({
            let ready = connection_turn(
                ConnectionStage::AwaitingSession,
                session,
                ConnectionEvent::Frame(incoming),
            );
            let turn = after_sends(ready, n);
            &&& turn.action == opening(session.chunks, n)
            &&& turn.session == if n < WARMUP_CHUNKS {
                session
            } else {
                replaying(session)
            }
            &&& n == WARMUP_CHUNKS + session.chunks.len() ==> turn.stage is Streaming
                && turn.receiving
            &&& n < WARMUP_CHUNKS ==> turn.stage == (ConnectionStage::WarmingUp {
                left: (WARMUP_CHUNKS - 1 - n) as nat,
            })
            &&& WARMUP_CHUNKS <= n < WARMUP_CHUNKS + session.chunks.len() ==> turn.stage == (
            ConnectionStage::Replaying {
                rest: audio_texts(session.chunks).skip(n - WARMUP_CHUNKS + 1),
            })
        }),
    decreases n,
{
    let ready = connection_turn(
        ConnectionStage::AwaitingSession,
        session,
        ConnectionEvent::Frame(incoming),
    );
    let texts = audio_texts(session.chunks);
    if n > 0 {
        law_session_opening(session, incoming, (n - 1) as nat);
        if n == WARMUP_CHUNKS {
            if texts.len() > 0 {
                assert(texts.drop_first() =~= texts.skip(1));
            }
        } else if n > WARMUP_CHUNKS {
            let left = texts.skip(n - WARMUP_CHUNKS);
            if left.len() > 0 {
                assert(left.drop_first() =~= texts.skip(n - WARMUP_CHUNKS + 1));
            }
        }
    }
}

/// Every chunk that is sent is kept, so that the next session gets it as it was
/// sent.
pub proof fn law_sent_audio_is_kept(session: SessionModel, samples: Vec<i16>)
    ensures
        ({
            let turn = connection_turn(
                ConnectionStage::Streaming,
                session,
                ConnectionEvent::Sender(SenderEvent::Samples(samples)),
            );
            &&& turn.session.chunks.len() > 0
            &&& turn.action == ActionModel::Send(audio_texts(turn.session.chunks).last())
            &&& audio_texts(turn.session.chunks).drop_last() == audio_texts(session.chunks)
        }),
{
    let turn = connection_turn(
        ConnectionStage::Streaming,
        session,
        ConnectionEvent::Sender(SenderEvent::Samples(samples)),
    );
    assert(audio_texts(turn.session.chunks).drop_last() =~= audio_texts(session.chunks));
}

/// A session makes eleven connections at most: it tries again after each of the
/// first ten failures, with rests that double from 100 ms to 5 s, and gives up
/// after the next.
pub proof fn law_retries_are_limited(failures: nat)
    ensures
        failures < 10 ==> after_failure(failures) == AfterFailure::Retry(capped(failures) as u64)
            && 100 <= capped(failures) <= 5000,
        failures >= 10 ==> after_failure(failures) is GiveUp,
{
    crate::backoff::law_backoff_grows_to_cap(failures, failures);
}

/// The transcription after a row of frames.
pub open spec fn transcript(text: Seq<char>, frames: Seq<Incoming>) -> Seq<char>
    decreases frames.len(),
{
    if frames.len() == 0 {
        text
    } else {
        heard(transcript(text, frames.drop_last()), frames.last())
    }
}

/// All that a row of frames carries, in order.
pub open spec fn all_deltas(frames: Seq<Incoming>) -> Seq<char>
    decreases frames.len(),
{
    if frames.len() == 0 {
        Seq::empty()
    } else {
        all_deltas(frames.drop_last()) + match delta_of(frames.last()) {
            Some(delta) => delta,
            None => Seq::empty(),
        }
    }
}

/// The transcription is all that the service has sent, in order: it grows at its
/// end with every part that arrives, and with nothing else.
pub proof fn law_transcription_grows(text: Seq<char>, frames: Seq<Incoming>)
    ensures
        transcript(text, frames) == text + all_deltas(frames),
        text.is_prefix_of(transcript(text, frames)),
    decreases frames.len(),
{
    if frames.len() > 0 {
        law_transcription_grows(text, frames.drop_last());
    }
    assert(transcript(text, frames) =~= text + all_deltas(frames));
}

/// The final text is waited for: a part of the transcription does not end the
/// receiver, and a frame that ends it adds nothing. So after the parts that
/// arrive until then, early or late, the text holds all of them.
pub proof fn law_final_text_is_waited_for(
    text: Seq<char>,
    parts: Seq<Incoming>,
    end: Incoming,
)
    requires
        forall|i: int| 0 <= i < parts.len() ==> delta_of(#[trigger] parts[i]) is Some,
        last_frame(end),
    ensures
        forall|i: int| 0 <= i < parts.len() ==> !last_frame(#[trigger] parts[i]),
        transcript(text, parts.push(end)) == text + all_deltas(parts),
{
    reveal_strlit("transcription.text.delta");
    reveal_strlit("transcription.done");
    reveal_strlit("error");
    assert("transcription.text.delta"@.len() == 24);
    assert("transcription.done"@.len() == 18);
    assert("error"@.len() == 5);
    assert(parts.push(end).drop_last() =~= parts);
    law_transcription_grows(text, parts);
}

} // verus!
