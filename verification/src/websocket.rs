//! The decisions of a streaming connection: its life cycle, and what the
//! background reader does with each thing it reads.
//!
//! The caller owns the socket. It reports what happened (the socket opened,
//! a write completed, a message arrived) and does what the library answers.

use crate::error::{ApiClientError, Failure};
use crate::text::joined;
use vstd::prelude::*;
use vstd::string::*;
use vstd::utf8::{decode_utf8, valid_utf8};

verus! {

/// How many decoded messages may wait between the reader and the consumer.
/// A reader that finds the queue full waits; it drops nothing.
pub const CHANNEL_CAPACITY: usize = 256;

/// Where a connection stands.
#[derive(Debug, Clone, Copy, PartialEq, Eq, Structural)]
pub enum Phase {
    /// The socket is being opened.
    Connecting,
    /// The handshake frame is being written.
    Authenticating,
    /// Messages flow.
    Open,
    /// The close frame is being written.
    Closing,
    /// Nothing more happens on this connection.
    Closed,
}

/// What the caller does next.
#[derive(Debug)]
pub enum Directive {
    /// Write this text frame and report how it went.
    SendText(String),
    /// Start the background reader: the connection is open.
    Ready,
    /// Give up: the connection could not be established.
    Fail(ApiClientError),
}

/// `Directive` with its texts as character sequences.
pub enum DirectiveModel {
    SendText(Seq<char>),
    Ready,
    Fail(Failure),
}

impl View for Directive {
    type V = DirectiveModel;

    open spec fn view(&self) -> DirectiveModel {
        match self {
            Directive::SendText(text) => DirectiveModel::SendText(text@),
            Directive::Ready => DirectiveModel::Ready,
            Directive::Fail(err) => DirectiveModel::Fail(err@),
        }
    }
}

/// How an attempt went: done, or the reason it failed.
pub open spec fn outcome_view(outcome: Result<(), String>) -> Result<(), Seq<char>> {
    match outcome {
        Ok(_) => Ok(()),
        Err(detail) => Err(detail@),
    }
}

/// A serialised message, or the reason it could not be serialised.
pub open spec fn encoded_view(encoded: Result<String, String>) -> Result<Seq<char>, Seq<char>> {
    match encoded {
        Ok(text) => Ok(text@),
        Err(detail) => Err(detail@),
    }
}

/// The handshake payload as the caller hands it in: absent, serialised, or
/// not serialisable.
pub open spec fn handshake_view(handshake: Option<Result<String, String>>) -> Option<
    Result<Seq<char>, Seq<char>>,
> {
    match handshake {
        Some(encoded) => Some(encoded_view(encoded)),
        None => None,
    }
}

/// A streaming failure whose text is `prefix` followed by `detail`.
pub open spec fn streaming_failure(prefix: Seq<char>, detail: Seq<char>) -> Failure {
    Failure::WebSocket(prefix + detail)
}

/// After the attempt to open the socket: the next phase and what to do.
///
/// A failed attempt ends the connection. With a handshake payload the
/// payload goes out as the first frame, unless it could not be serialised;
/// without one the connection is open at once.
pub open spec fn after_connect(
    outcome: Result<(), Seq<char>>,
    handshake: Option<Result<Seq<char>, Seq<char>>>,
) -> (Phase, DirectiveModel) {
    match outcome {
        Err(detail) => (
            Phase::Closed,
            DirectiveModel::Fail(streaming_failure("Connection failed: "@, detail)),
        ),
        Ok(_) => match handshake {
            None => (Phase::Open, DirectiveModel::Ready),
            Some(Ok(text)) => (Phase::Authenticating, DirectiveModel::SendText(text)),
            Some(Err(detail)) => (
                Phase::Closed,
                DirectiveModel::Fail(streaming_failure("Auth serialization: "@, detail)),
            ),
        },
    }
}

/// After the attempt to write the handshake frame.
pub open spec fn after_handshake(outcome: Result<(), Seq<char>>) -> (Phase, DirectiveModel) {
    match outcome {
        Ok(_) => (Phase::Open, DirectiveModel::Ready),
        Err(detail) => (
            Phase::Closed,
            DirectiveModel::Fail(streaming_failure("Auth send failed: "@, detail)),
        ),
    }
}

fn streaming_error(prefix: &str, detail: &str) -> (err: ApiClientError)
    ensures
        err@ == streaming_failure(prefix@, detail@),
{
    ApiClientError::WebSocket(joined(prefix, detail))
}

/// The life cycle of one streaming connection.
///
/// `Connecting`, then `Authenticating` if there is a handshake payload, then
/// `Open`, `Closing`, `Closed`. A failure while the connection is being
/// established leads straight to `Closed`.
#[derive(Debug)]
pub struct Connection {
    phase: Phase,
}

impl Connection {
    /// The phase this connection is in.
    pub closed spec fn phase_of(&self) -> Phase {
        self.phase
    }

    /// A connection whose socket is about to be opened.
    pub fn new() -> (conn: Connection)
        ensures
            conn.phase_of() == Phase::Connecting,
    {
        Connection { phase: Phase::Connecting }
    }

    /// The phase this connection is in.
    pub fn phase(&self) -> (phase: Phase)
        ensures
            phase == self.phase_of(),
    {
        self.phase
    }

    /// The attempt to open the socket has ended with `outcome`.
    ///
    /// `handshake` is the authentication payload, if the stream has one:
    /// its JSON text, or why it could not be serialised. The caller is not
    /// made to wait for the server's answer to it: that arrives later as an
    /// ordinary message.
    pub fn connected(
        &mut self,
        outcome: Result<(), String>,
        handshake: Option<Result<String, String>>,
    ) -> (next: Directive)
        requires
            old(self).phase_of() == Phase::Connecting,
        ensures
            (final(self).phase_of(), next@) == after_connect(
                outcome_view(outcome),
                handshake_view(handshake),
            ),
    {
        match outcome {
            Err(detail) => {
                self.phase = Phase::Closed;
                Directive::Fail(streaming_error("Connection failed: ", detail.as_str()))
            },
            Ok(_) => match handshake {
                None => {
                    self.phase = Phase::Open;
                    Directive::Ready
                },
                Some(Ok(text)) => {
                    self.phase = Phase::Authenticating;
                    Directive::SendText(text)
                },
                Some(Err(detail)) => {
                    self.phase = Phase::Closed;
                    Directive::Fail(streaming_error("Auth serialization: ", detail.as_str()))
                },
            },
        }
    }

    /// The attempt to write the handshake frame has ended with `outcome`.
    pub fn handshake_sent(&mut self, outcome: Result<(), String>) -> (next: Directive)
        requires
            old(self).phase_of() == Phase::Authenticating,
        ensures
            (final(self).phase_of(), next@) == after_handshake(outcome_view(outcome)),
    {
        match outcome {
            Ok(_) => {
                self.phase = Phase::Open;
                Directive::Ready
            },
            Err(detail) => {
                self.phase = Phase::Closed;
                Directive::Fail(streaming_error("Auth send failed: ", detail.as_str()))
            },
        }
    }

    /// The text frame that carries a message, given how serialising the
    /// message went. The connection stays open either way.
    pub fn send(&self, encoded: Result<String, String>) -> (frame: Result<String, ApiClientError>)
        requires
            self.phase_of() == Phase::Open,
        ensures
            match encoded {
                Ok(text) => frame == Ok::<String, ApiClientError>(text),
                Err(detail) => frame matches Err(err) && err@ == streaming_failure(
                    "Serialization: "@,
                    detail@,
                ),
            },
    {
        match encoded {
            Ok(text) => Ok(text),
            Err(detail) => Err(streaming_error("Serialization: ", detail.as_str())),
        }
    }

    /// What `send` reports once the attempt to write the frame has ended
    /// with `outcome`. A failed write does not close the connection.
    pub fn sent(&self, outcome: Result<(), String>) -> (report: Result<(), ApiClientError>)
        requires
            self.phase_of() == Phase::Open,
        ensures
            match outcome {
                Ok(_) => report is Ok,
                Err(detail) => report matches Err(err) && err@ == streaming_failure(
                    "Send failed: "@,
                    detail@,
                ),
            },
    {
        match outcome {
            Ok(_) => Ok(()),
            Err(detail) => Err(streaming_error("Send failed: ", detail.as_str())),
        }
    }

    /// Starts closing: the caller now writes a close frame.
    pub fn close(&mut self)
        requires
            old(self).phase_of() == Phase::Open,
        ensures
            final(self).phase_of() == Phase::Closing,
    {
        self.phase = Phase::Closing;
    }

    /// The attempt to write the close frame has ended with `outcome`. The
    /// connection is closed either way.
    pub fn close_sent(&mut self, outcome: Result<(), String>) -> (report: Result<
        (),
        ApiClientError,
    >)
        requires
            old(self).phase_of() == Phase::Closing,
        ensures
            final(self).phase_of() == Phase::Closed,
            match outcome {
                Ok(_) => report is Ok,
                Err(detail) => report matches Err(err) && err@ == streaming_failure(
                    "Close failed: "@,
                    detail@,
                ),
            },
    {
        self.phase = Phase::Closed;
        match outcome {
            Ok(_) => Ok(()),
            Err(detail) => Err(streaming_error("Close failed: ", detail.as_str())),
        }
    }
}

/// One message as it comes off the socket.
#[derive(Debug)]
pub enum Frame {
    Text(String),
    Binary(Vec<u8>),
    Ping,
    Pong,
    Close,
    /// A raw frame that the transport passes through.
    Raw,
}

/// `Frame` with its payload as a sequence.
pub enum FrameModel {
    Text(Seq<char>),
    Binary(Seq<u8>),
    Ping,
    Pong,
    Close,
    Raw,
}

impl View for Frame {
    type V = FrameModel;

    open spec fn view(&self) -> FrameModel {
        match self {
            Frame::Text(text) => FrameModel::Text(text@),
            Frame::Binary(bytes) => FrameModel::Binary(bytes@),
            Frame::Ping => FrameModel::Ping,
            Frame::Pong => FrameModel::Pong,
            Frame::Close => FrameModel::Close,
            Frame::Raw => FrameModel::Raw,
        }
    }
}

/// One turn of the read loop: a frame, a read failure with its reason, or
/// `None` when the socket has nothing more.
pub type Reading = Option<Result<FrameModel, Seq<char>>>;

/// The view of what the caller read.
pub open spec fn reading_view(read: Option<Result<Frame, String>>) -> Reading {
    match read {
        None => None,
        Some(Ok(frame)) => Some(Ok(frame@)),
        Some(Err(detail)) => Some(Err(detail@)),
    }
}

/// What the background reader does with one reading.
#[derive(Debug)]
pub enum ReaderAction {
    /// Hand this text to the consumer, then read on; stop if the consumer
    /// is gone.
    Forward(String),
    /// Hand this failure to the consumer, then stop.
    Fail(ApiClientError),
    /// Hand on nothing; read on.
    Skip,
    /// Stop reading.
    Stop,
}

/// `ReaderAction` with its texts as character sequences.
pub enum ReaderActionModel {
    Forward(Seq<char>),
    Fail(Failure),
    Skip,
    Stop,
}

impl View for ReaderAction {
    type V = ReaderActionModel;

    open spec fn view(&self) -> ReaderActionModel {
        match self {
            ReaderAction::Forward(text) => ReaderActionModel::Forward(text@),
            ReaderAction::Fail(err) => ReaderActionModel::Fail(err@),
            ReaderAction::Skip => ReaderActionModel::Skip,
            ReaderAction::Stop => ReaderActionModel::Stop,
        }
    }
}

/// What the reader does with one reading.
///
/// Text is forwarded. Binary data is forwarded as text where it is UTF-8
/// and dropped where it is not. Pings, pongs and raw frames are passed
/// over. A close frame or the end of the socket stops the reader. A read
/// failure is forwarded once, and the reader stops.
pub open spec fn reader_action(read: Reading) -> ReaderActionModel {
    match read {
        None => ReaderActionModel::Stop,
        Some(Err(detail)) => ReaderActionModel::Fail(streaming_failure("Read error: "@, detail)),
        Some(Ok(FrameModel::Text(text))) => ReaderActionModel::Forward(text),
        Some(Ok(FrameModel::Binary(bytes))) => if valid_utf8(bytes) {
            ReaderActionModel::Forward(decode_utf8(bytes))
        } else {
            ReaderActionModel::Skip
        },
        Some(Ok(FrameModel::Ping)) => ReaderActionModel::Skip,
        Some(Ok(FrameModel::Pong)) => ReaderActionModel::Skip,
        Some(Ok(FrameModel::Raw)) => ReaderActionModel::Skip,
        Some(Ok(FrameModel::Close)) => ReaderActionModel::Stop,
    }
}

/// `String::from_utf8` of std: the text that `bytes` encode, or `None`
/// where they are not UTF-8.
#[verifier::external_body]
fn text_from_utf8(bytes: Vec<u8>) -> (text: Option<String>)
    ensures
        text is Some <==> valid_utf8(bytes@),
        text matches Some(t) ==> t@ == decode_utf8(bytes@),
{
    match String::from_utf8(bytes) {
        Ok(text) => Some(text),
        Err(_) => None,
    }
}

/// Decides what the background reader does with what it has just read.
pub fn on_read(read: Option<Result<Frame, String>>) -> (action: ReaderAction)
    ensures
        action@ == reader_action(reading_view(read)),
{
    match read {
        None => ReaderAction::Stop,
        Some(Err(detail)) => ReaderAction::Fail(streaming_error("Read error: ", detail.as_str())),
        Some(Ok(Frame::Text(text))) => ReaderAction::Forward(text),
        Some(Ok(Frame::Binary(bytes))) => match text_from_utf8(bytes) {
            Some(text) => ReaderAction::Forward(text),
            None => ReaderAction::Skip,
        },
        Some(Ok(Frame::Ping)) => ReaderAction::Skip,
        Some(Ok(Frame::Pong)) => ReaderAction::Skip,
        Some(Ok(Frame::Raw)) => ReaderAction::Skip,
        Some(Ok(Frame::Close)) => ReaderAction::Stop,
    }
}

/// Whether the reader goes on after `action`, where `delivered` says
/// whether the consumer was still there to take what was handed to it.
pub open spec fn reads_on(action: ReaderActionModel, delivered: bool) -> bool {
    match action {
        ReaderActionModel::Forward(_) => delivered,
        ReaderActionModel::Fail(_) => false,
        ReaderActionModel::Skip => true,
        ReaderActionModel::Stop => false,
    }
}

impl ReaderAction {
    /// Whether the reader goes on after this action. `delivered` says
    /// whether the consumer took what was handed to it; it is not looked at
    /// where nothing was handed over.
    pub fn keeps_reading(&self, delivered: bool) -> (more: bool)
        ensures
            more == reads_on(self@, delivered),
    {
        match self {
            ReaderAction::Forward(_) => delivered,
            ReaderAction::Fail(_) => false,
            ReaderAction::Skip => true,
            ReaderAction::Stop => false,
        }
    }
}

/// What reaches a consumer that keeps taking, reading by reading, until the
/// reader stops.
pub open spec fn deliveries(reads: Seq<Reading>) -> Seq<Result<Seq<char>, Failure>>
    decreases reads.len(),
{
    if reads.len() == 0 {
        Seq::empty()
    } else {
        match reader_action(reads[0]) {
            ReaderActionModel::Forward(text) => seq![Ok(text)] + deliveries(reads.skip(1)),
            ReaderActionModel::Fail(failure) => seq![Err(failure)],
            ReaderActionModel::Skip => deliveries(reads.skip(1)),
            ReaderActionModel::Stop => Seq::empty(),
        }
    }
}

/// The readings of a socket that carries `texts` as text frames, one after
/// the other.
pub open spec fn text_readings(texts: Seq<Seq<char>>) -> Seq<Reading> {
    Seq::new(texts.len(), |i: int| Some(Ok(FrameModel::Text(texts[i]))))
}

/// Text frames reach the consumer in the order in which they were read, each
/// once, and nothing reaches it after the close frame.
pub proof fn text_frames_arrive_in_order(texts: Seq<Seq<char>>, later: Seq<Reading>)
    ensures
        deliveries(text_readings(texts) + seq![Some(Ok(FrameModel::Close))] + later) == Seq::new(
            texts.len(),
            |i: int| Ok::<Seq<char>, Failure>(texts[i]),
        ),
    decreases texts.len(),
{
    let reads = text_readings(texts) + seq![Some(Ok(FrameModel::Close))] + later;
    if texts.len() > 0 {
        let rest = texts.skip(1);
        text_frames_arrive_in_order(rest, later);
        assert(reads.skip(1) =~= text_readings(rest) + seq![Some(Ok(FrameModel::Close))] + later);
    }
}

} // verus!
