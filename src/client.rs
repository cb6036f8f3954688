//! Client sessions: the version gate run at open, the pairing of commands
//! with the replies they must receive, and the streaming lifecycle.
//!
//! The session never touches the transport. The embedding program sends the
//! command lines that [`RequestMessage::to_command`] gives, reads bytes into
//! the session's [`FrameDecoder`], and hands each decoded reply to the
//! decision functions here, which say whether the exchange succeeded, failed,
//! or needs another reply.
//!
//! [`RequestMessage::to_command`]: crate::protocol::GpsdJsonRequest::to_command
use vstd::prelude::*;

use crate::error::{Fault, GpsdJsonError};
use crate::protocol::v3::response::{Kind, Message, Version};
use crate::protocol::v3::types::Watch;
use crate::protocol::{Decoded, FrameDecoder};
use crate::text::{lossy_text, lossy_text_of, trim_end_of, trimmed_end};
use crate::Result;

verus! {

/// A version of the protocol, as the numbers a client requires.
pub trait GpsdJsonProtocol {
    /// The major version, which the daemon must match exactly.
    spec fn spec_major() -> i32;

    /// The least minor version the daemon must offer.
    spec fn spec_minor() -> i32;

    /// The major version, which the daemon must match exactly.
    fn api_version_major() -> (r: i32)
        ensures
            r == Self::spec_major(),
    ;

    /// The least minor version the daemon must offer.
    fn api_version_minor() -> (r: i32)
        ensures
            r == Self::spec_minor(),
    ;
}

/// Marks the format of a stream's frames.
pub trait StreamFormat {
}

/// Structured reports: each frame is a JSON message.
#[derive(Debug, Clone, Copy)]
pub struct Json;

impl StreamFormat for Json {
}

/// Sentences: each frame is a line of NMEA text.
#[derive(Debug, Clone, Copy)]
pub struct Nmea;

impl StreamFormat for Nmea {
}

/// Raw receiver data: each frame is passed on as bytes.
#[derive(Debug, Clone, Copy)]
pub struct Raw;

impl StreamFormat for Raw {
}

/// Watch settings for a stream of format `F`, built before streaming
/// starts.
#[derive(Debug)]
pub struct StreamOptions<F: StreamFormat> {
    inner: Watch,
    _format: core::marker::PhantomData<F>,
}

impl<F: StreamFormat> View for StreamOptions<F> {
    type V = Watch;

    /// The watch configuration that starting the stream sends.
    closed spec fn view(&self) -> Watch {
        self.inner
    }
}

impl<F: StreamFormat> StreamOptions<F> {
    /// Turns scaled output on or off.
    pub fn scaled(self, enable: bool) -> (r: Self)
        ensures
            r@ == (Watch { scaled: Some(enable), ..self@ }),
    {
        let mut s = self;
        s.inner.scaled = Some(enable);
        s
    }

    /// Turns the splitting of AIS type 24 messages on or off.
    pub fn split24(self, enable: bool) -> (r: Self)
        ensures
            r@ == (Watch { split24: Some(enable), ..self@ }),
    {
        let mut s = self;
        s.inner.split24 = Some(enable);
        s
    }

    /// The watch configuration that starting the stream sends.
    pub fn into_watch(self) -> (r: Watch)
        ensures
            r == self@,
    {
        self.inner
    }
}

impl StreamOptions<Json> {
    /// Options for structured reports: streaming and JSON on, every other
    /// field left to the daemon.
    pub fn json() -> (r: StreamOptions<Json>)
        ensures
            r@ == (Watch { enable: Some(true), json: Some(true), ..Watch::spec_empty() }),
    {
        let mut w = Watch::empty();
        w.enable = Some(true);
        w.json = Some(true);
        StreamOptions { inner: w, _format: core::marker::PhantomData }
    }

    /// Turns pulse-per-second reports on or off.
    pub fn pps(self, enable: bool) -> (r: Self)
        ensures
            r@ == (Watch { pps: Some(enable), ..self@ }),
    {
        let mut s = self;
        s.inner.pps = Some(enable);
        s
    }

    /// Turns timing information on or off.
    pub fn timing(self, enable: bool) -> (r: Self)
        ensures
            r@ == (Watch { timing: Some(enable), ..self@ }),
    {
        let mut s = self;
        s.inner.timing = Some(enable);
        s
    }
}

impl StreamOptions<Nmea> {
    /// Options for sentences: streaming and NMEA on, every other field left
    /// to the daemon.
    pub fn nmea() -> (r: StreamOptions<Nmea>)
        ensures
            r@ == (Watch { enable: Some(true), nmea: Some(true), ..Watch::spec_empty() }),
    {
        let mut w = Watch::empty();
        w.enable = Some(true);
        w.nmea = Some(true);
        StreamOptions { inner: w, _format: core::marker::PhantomData }
    }

    /// Streams from the device at `device` only.
    pub fn device(self, device: &str) -> (r: Self)
        ensures
            r@.device matches Some(d) && d@ == device@,
            r@ == (Watch { device: r@.device, ..self@ }),
    {
        let mut s = self;
        s.inner.device = Some(String::from_str(device));
        s
    }
}

impl StreamOptions<Raw> {
    /// Options for raw data: streaming on and raw output as hex dump, every
    /// other field left to the daemon.
    pub fn raw() -> (r: StreamOptions<Raw>)
        ensures
            r@ == (Watch { enable: Some(true), raw: Some(1), ..Watch::spec_empty() }),
    {
        let mut w = Watch::empty();
        w.enable = Some(true);
        w.raw = Some(1);
        StreamOptions { inner: w, _format: core::marker::PhantomData }
    }

    /// Raw output as hex dump (raw mode 1) or as binary (raw mode 2).
    pub fn hex_dump(self, enable: bool) -> (r: Self)
        ensures
            r@ == (Watch { raw: Some(if enable { 1i32 } else { 2i32 }), ..self@ }),
    {
        let mut s = self;
        if enable {
            s.inner.raw = Some(1);
        } else {
            s.inner.raw = Some(2);
        }
        s
    }

    /// Streams from the device at `device` only.
    pub fn device(self, device: &str) -> (r: Self)
        ensures
            r@.device matches Some(d) && d@ == device@,
            r@ == (Watch { device: r@.device, ..self@ }),
    {
        let mut s = self;
        s.inner.device = Some(String::from_str(device));
        s
    }
}

/// True when a daemon offering `major`.`minor` serves a client that
/// requires `req_major`.`req_minor`: the majors are equal and the daemon's
/// minor is at least the required one.
pub open spec fn version_compatible(req_major: i32, req_minor: i32, major: i32, minor: i32) -> bool {
    major == req_major && minor >= req_minor
}

/// What the version gate gives for the first frame of a connection.
pub open spec fn gate(req_major: i32, req_minor: i32, first: Result<Option<Message>>) -> Result<
    Version,
> {
    match first {
        Ok(Some(Message::Version(v))) => if version_compatible(
            req_major,
            req_minor,
            v.proto_major,
            v.proto_minor,
        ) {
            Ok(v)
        } else {
            Err(GpsdJsonError::UnsupportedProtocolVersion((v.proto_major, v.proto_minor)))
        },
        Ok(None) => Err(GpsdJsonError::ProtocolError(Fault::ClosedBeforeVersion)),
        Err(GpsdJsonError::IoError(e)) => Err(GpsdJsonError::IoError(e)),
        _ => Err(GpsdJsonError::ProtocolError(Fault::NoVersionMessage)),
    }
}

/// The version gate: decides on the first frame a connection receives.
/// A version frame is accepted when its protocol version is compatible
/// with the required one, and refused with the daemon's version otherwise;
/// an ended stream, a frame of another kind or an undecodable frame is a
/// protocol error, and a transport failure is passed on.
pub fn check_version(req_major: i32, req_minor: i32, first: Result<Option<Message>>) -> (r: Result<
    Version,
>)
    ensures
        r == gate(req_major, req_minor, first),
{
    match first {
        Ok(Some(Message::Version(v))) => {
            if v.proto_major == req_major && v.proto_minor >= req_minor {
                Ok(v)
            } else {
                Err(GpsdJsonError::UnsupportedProtocolVersion((v.proto_major, v.proto_minor)))
            }
        },
        Ok(None) => Err(GpsdJsonError::ProtocolError(Fault::ClosedBeforeVersion)),
        Err(GpsdJsonError::IoError(e)) => Err(GpsdJsonError::IoError(e)),
        _ => Err(GpsdJsonError::ProtocolError(Fault::NoVersionMessage)),
    }
}

/// A version gate for (3, 15) lets (3, 15) and (3, 20) through and refuses
/// (3, 14) and (4, 15) as incompatible, naming the daemon's version.
pub proof fn lemma_version_gate(v: Version)
    ensures
        (v.proto_major == 3 && v.proto_minor >= 15) ==> gate(3, 15, Ok(Some(Message::Version(v))))
            == Ok::<Version, GpsdJsonError>(v),
        (v.proto_major != 3 || v.proto_minor < 15) ==> gate(3, 15, Ok(Some(Message::Version(v))))
            == Err::<Version, GpsdJsonError>(
            GpsdJsonError::UnsupportedProtocolVersion((v.proto_major, v.proto_minor)),
        ),
{
}

/// The fault named when a reply of kind `k` was expected.
pub open spec fn expected_fault(k: Kind) -> Fault {
    match k {
        Kind::Version => Fault::ExpectedVersion,
        Kind::Devices => Fault::ExpectedDevices,
        Kind::Device => Fault::ExpectedDevice,
        Kind::Watch => Fault::ExpectedWatch,
        _ => Fault::ExpectedPoll,
    }
}

fn fault_for(k: Kind) -> (r: Fault)
    ensures
        r == expected_fault(k),
{
    match k {
        Kind::Version => Fault::ExpectedVersion,
        Kind::Devices => Fault::ExpectedDevices,
        Kind::Device => Fault::ExpectedDevice,
        Kind::Watch => Fault::ExpectedWatch,
        _ => Fault::ExpectedPoll,
    }
}

/// Decides on the one reply of a simple command, which must be of kind
/// `expected`: any other kind, or an ended stream, is a protocol error
/// that names the expected kind.
pub fn expect_reply(expected: Kind, reply: Option<Message>) -> (r: Result<Message>)
    ensures
        match reply {
            Some(m) => if m.spec_kind() == expected {
                r == Ok::<Message, GpsdJsonError>(m)
            } else {
                r == Err::<Message, GpsdJsonError>(
                    GpsdJsonError::ProtocolError(expected_fault(expected)),
                )
            },
            None => r == Err::<Message, GpsdJsonError>(
                GpsdJsonError::ProtocolError(expected_fault(expected)),
            ),
        },
{
    match reply {
        Some(m) => {
            if m.kind() == expected {
                Ok(m)
            } else {
                Err(GpsdJsonError::ProtocolError(fault_for(expected)))
            }
        },
        None => Err(GpsdJsonError::ProtocolError(fault_for(expected))),
    }
}

/// Decides on the reply to a version query.
pub fn version_reply(reply: Option<Message>) -> (r: Result<Version>)
    ensures
        match reply {
            Some(Message::Version(v)) => r == Ok::<Version, GpsdJsonError>(v),
            _ => r == Err::<Version, GpsdJsonError>(
                GpsdJsonError::ProtocolError(Fault::ExpectedVersion),
            ),
        },
{
    match reply {
        Some(Message::Version(v)) => Ok(v),
        _ => Err(GpsdJsonError::ProtocolError(Fault::ExpectedVersion)),
    }
}

/// Where a two-phase watch exchange stands.
#[derive(Debug, Clone)]
pub enum WatchStage {
    /// The device list has not come yet.
    AwaitDevices,
    /// The device list came, with this frame text; the confirmation has not.
    AwaitConfirmation(String),
    /// Both replies came.
    Done,
}

/// What one reply does to a watch exchange that expects the confirmation's
/// enable flag to be `expect` (any flag, when `None`): the next stage and
/// the outcome, `Ok(None)` while a reply is still due.
pub open spec fn watch_step(stage: WatchStage, expect: Option<bool>, reply: Option<Message>) -> (
    WatchStage,
    Result<Option<(Watch, String)>>,
) {
    match stage {
        WatchStage::AwaitDevices => match reply {
            Some(Message::Report(Kind::Devices, t)) => (WatchStage::AwaitConfirmation(t), Ok(None)),
            _ => (stage, Err(GpsdJsonError::ProtocolError(Fault::ExpectedDevices))),
        },
        WatchStage::AwaitConfirmation(t) => match reply {
            Some(Message::Watch(w)) => match expect {
                Some(e) => if w.enable == Some(e) {
                    (WatchStage::Done, Ok(Some((w, t))))
                } else {
                    (stage, Err(GpsdJsonError::ProtocolError(Fault::WatchNotConfirmed)))
                },
                None => (WatchStage::Done, Ok(Some((w, t)))),
            },
            _ => (stage, Err(GpsdJsonError::ProtocolError(Fault::ExpectedWatch))),
        },
        WatchStage::Done => (stage, Ok(None)),
    }
}

/// The exchange that a watch command starts: the daemon replies with its
/// device list, then with a confirmation of the watch settings now in
/// force. Both must come, in that order.
#[derive(Debug)]
pub struct WatchExchange {
    stage: WatchStage,
    expect: Option<bool>,
}

impl WatchExchange {
    /// Where the exchange stands.
    pub closed spec fn spec_stage(&self) -> WatchStage {
        self.stage
    }

    /// The enable flag the confirmation must carry, if one was requested.
    pub closed spec fn spec_expect(&self) -> Option<bool> {
        self.expect
    }

    /// Where the exchange stands.
    pub fn stage(&self) -> (r: &WatchStage)
        ensures
            *r == self.spec_stage(),
    {
        &self.stage
    }

    /// The enable flag the confirmation must carry, if one was requested.
    pub fn expect(&self) -> (r: Option<bool>)
        ensures
            r == self.spec_expect(),
    {
        self.expect
    }

    /// An exchange waiting for the device list.
    pub fn new(expect: Option<bool>) -> (r: WatchExchange)
        ensures
            r.spec_stage() is AwaitDevices,
            r.spec_expect() == expect,
    {
        WatchExchange { stage: WatchStage::AwaitDevices, expect }
    }

    /// Takes the next reply (`None` when the stream ended). Returns the
    /// confirmation and the device list's frame text once both came in
    /// order, `Ok(None)` while the confirmation is still due, and a protocol
    /// error for a reply out of order, a missing reply, or a confirmation
    /// whose enable flag is not the expected one.
    pub fn step(&mut self, reply: Option<Message>) -> (r: Result<Option<(Watch, String)>>)
        ensures
            (final(self).spec_stage(), r) == watch_step(
                old(self).spec_stage(),
                old(self).spec_expect(),
                reply,
            ),
            final(self).spec_expect() == old(self).spec_expect(),
    {
        let mut stage = WatchStage::Done;
        core::mem::swap(&mut stage, &mut self.stage);
        match stage {
            WatchStage::AwaitDevices => match reply {
                Some(Message::Report(Kind::Devices, t)) => {
                    self.stage = WatchStage::AwaitConfirmation(t);
                    Ok(None)
                },
                _ => {
                    self.stage = WatchStage::AwaitDevices;
                    Err(GpsdJsonError::ProtocolError(Fault::ExpectedDevices))
                },
            },
            WatchStage::AwaitConfirmation(t) => match reply {
                Some(Message::Watch(w)) => {
                    let confirmed = match self.expect {
                        Some(e) => match w.enable {
                            Some(f) => f == e,
                            None => false,
                        },
                        None => true,
                    };
                    if confirmed {
                        Ok(Some((w, t)))
                    } else {
                        self.stage = WatchStage::AwaitConfirmation(t);
                        Err(GpsdJsonError::ProtocolError(Fault::WatchNotConfirmed))
                    }
                },
                _ => {
                    self.stage = WatchStage::AwaitConfirmation(t);
                    Err(GpsdJsonError::ProtocolError(Fault::ExpectedWatch))
                },
            },
            WatchStage::Done => Ok(None),
        }
    }
}

/// A watch exchange accepts the device list followed by the confirmation,
/// and refuses the two in the reverse order: a confirmation that comes
/// first is a protocol error, whatever follows it.
pub proof fn lemma_watch_order(expect: Option<bool>, w: Watch, devices: String)
    ensures
        watch_step(WatchStage::AwaitDevices, expect, Some(Message::Watch(w))).1
            == Err::<Option<(Watch, String)>, GpsdJsonError>(
            GpsdJsonError::ProtocolError(Fault::ExpectedDevices),
        ),
        watch_step(WatchStage::AwaitDevices, expect, Some(Message::Watch(w))).0 is AwaitDevices,
        ({
            let (s1, r1) = watch_step(
                WatchStage::AwaitDevices,
                expect,
                Some(Message::Report(Kind::Devices, devices)),
            );
            let (s2, r2) = watch_step(s1, expect, Some(Message::Watch(w)));
            &&& r1 == Ok::<Option<(Watch, String)>, GpsdJsonError>(None)
            &&& (expect is None || w.enable == expect) ==> r2 == Ok::<
                Option<(Watch, String)>,
                GpsdJsonError,
            >(Some((w, devices)))
        }),
{
}

/// Where switching a watch off stands.
#[derive(Debug, Clone, Copy, PartialEq, Eq, Structural)]
pub enum CloseStage {
    /// No decode error has been met.
    Waiting,
    /// One decode error has been met and discarded.
    DiscardedError,
    /// The daemon confirmed that the watch is off.
    Closed,
}

/// What one reply does while a watch is being switched off: the next stage
/// and the outcome, `Ok(false)` while the confirmation is still due.
///
/// Reports still in flight are discarded, and so is one undecodable frame;
/// a second one, a transport failure, or an ended stream ends the close
/// with an error. The confirmation must say that the watch is off.
pub open spec fn close_step(stage: CloseStage, reply: Result<Option<Message>>) -> (
    CloseStage,
    Result<bool>,
) {
    match reply {
        Ok(Some(Message::Watch(w))) => if w.enable == Some(false) {
            (CloseStage::Closed, Ok(true))
        } else {
            (stage, Err(GpsdJsonError::ProtocolError(Fault::WatchNotConfirmed)))
        },
        Ok(Some(_)) => (stage, Ok(false)),
        Ok(None) => (stage, Err(GpsdJsonError::ProtocolError(Fault::EndedWhileClosing))),
        Err(GpsdJsonError::SerdeError(e)) => if stage is Waiting {
            (CloseStage::DiscardedError, Ok(false))
        } else {
            (stage, Err(GpsdJsonError::SerdeError(e)))
        },
        Err(e) => (stage, Err(e)),
    }
}

/// The exchange that switching a watch off starts.
#[derive(Debug)]
pub struct CloseExchange {
    stage: CloseStage,
}

impl CloseExchange {
    /// Where the exchange stands.
    pub closed spec fn spec_stage(&self) -> CloseStage {
        self.stage
    }

    /// Where the exchange stands.
    pub fn stage(&self) -> (r: CloseStage)
        ensures
            r == self.spec_stage(),
    {
        self.stage
    }

    /// An exchange that has met nothing yet.
    pub fn new() -> (r: CloseExchange)
        ensures
            r.spec_stage() is Waiting,
    {
        CloseExchange { stage: CloseStage::Waiting }
    }

    /// Takes the next reply: `Ok(true)` once the daemon confirmed the watch
    /// off, `Ok(false)` while the confirmation is still due, an error when
    /// the close failed.
    pub fn step(&mut self, reply: Result<Option<Message>>) -> (r: Result<bool>)
        ensures
            (final(self).spec_stage(), r) == close_step(old(self).spec_stage(), reply),
    {
        match reply {
            Ok(Some(Message::Watch(w))) => {
                let off = match w.enable {
                    Some(f) => !f,
                    None => false,
                };
                if off {
                    self.stage = CloseStage::Closed;
                    Ok(true)
                } else {
                    Err(GpsdJsonError::ProtocolError(Fault::WatchNotConfirmed))
                }
            },
            Ok(Some(_)) => Ok(false),
            Ok(None) => Err(GpsdJsonError::ProtocolError(Fault::EndedWhileClosing)),
            Err(GpsdJsonError::SerdeError(e)) => {
                if self.stage == CloseStage::Waiting {
                    self.stage = CloseStage::DiscardedError;
                    Ok(false)
                } else {
                    Err(GpsdJsonError::SerdeError(e))
                }
            },
            Err(e) => Err(e),
        }
    }
}

/// A connected session that passed the version gate and is not streaming.
#[derive(Debug)]
pub struct GpsdClientCore<Proto: GpsdJsonProtocol> {
    /// The partial frame read so far.
    pub decoder: FrameDecoder,
    _proto: core::marker::PhantomData<Proto>,
}

/// A session of protocol version 3.
pub type GpsdClient = GpsdClientCore<crate::protocol::v3::V3>;

impl<Proto: GpsdJsonProtocol> GpsdClientCore<Proto> {
    /// The bytes of the partial frame read so far.
    pub closed spec fn buffered(&self) -> Seq<u8> {
        self.decoder@
    }

    /// Starts a session from the connection's first frame, `first`, with
    /// the bytes read after it kept in `decoder`. The session exists only
    /// when the version gate for the numbers of `Proto` accepts that frame.
    pub fn open(decoder: FrameDecoder, first: Result<Option<Message>>) -> (r: Result<Self>)
        ensures
            match gate(Proto::spec_major(), Proto::spec_minor(), first) {
                Ok(_) => r matches Ok(c) && c.buffered() == decoder@,
                Err(e) => r matches Err(f) && f == e,
            },
    {
        let major = Proto::api_version_major();
        let minor = Proto::api_version_minor();
        match check_version(major, minor, first) {
            Ok(_) => Ok(GpsdClientCore { decoder, _proto: core::marker::PhantomData }),
            Err(e) => Err(e),
        }
    }

    /// Enters streaming in format `F` once `exchange`, the watch exchange
    /// that the stream's options started, has completed with streaming
    /// confirmed on. Otherwise the session is handed back unchanged.
    pub fn stream<F: StreamFormat>(self, exchange: &WatchExchange) -> (r: core::result::Result<
        GpsdDataStream<Proto, F>,
        Self,
    >)
        ensures
            (exchange.spec_stage() is Done && exchange.spec_expect() == Some(true)) ==> (r matches Ok(
                s,
            ) && s.buffered() == self.buffered()),
            !(exchange.spec_stage() is Done && exchange.spec_expect() == Some(true)) ==> (r matches Err(
                c,
            ) && c.buffered() == self.buffered()),
    {
        let confirmed = match exchange.stage() {
            WatchStage::Done => match exchange.expect() {
                Some(e) => e,
                None => false,
            },
            _ => false,
        };
        if confirmed {
            Ok(GpsdDataStream { inner: self, _format: core::marker::PhantomData })
        } else {
            Err(self)
        }
    }
}

/// The watch configuration that only sets streaming on or off, every
/// other switch at the protocol's default.
pub fn watch_mode_config(enable: bool) -> (r: Watch)
    ensures
        r == (Watch { enable: Some(enable), ..Watch::spec_default() }),
{
    let mut w = Watch::default();
    w.enable = Some(enable);
    w
}

/// The configuration that switches a watch off: the protocol's defaults.
pub fn close_config() -> (r: Watch)
    ensures
        r == Watch::spec_default(),
{
    Watch::default()
}

/// What a stream yields next.
#[derive(Debug)]
pub enum Next<T> {
    /// An element: a value, or an error that does not end the stream.
    Item(Result<T>),
    /// The connection closed; the stream is over.
    Finished,
    /// More bytes are needed.
    Pending,
}

/// A session that streams in format `Format`. It owns the connected
/// session until the watch is switched off again.
#[derive(Debug)]
pub struct GpsdDataStream<Proto: GpsdJsonProtocol, Format: StreamFormat> {
    inner: GpsdClientCore<Proto>,
    _format: core::marker::PhantomData<Format>,
}

impl<Proto: GpsdJsonProtocol, Format: StreamFormat> GpsdDataStream<Proto, Format> {
    /// The bytes of the partial frame read so far.
    pub closed spec fn buffered(&self) -> Seq<u8> {
        self.inner.decoder@
    }

    /// The decoder that the stream's bytes are fed to.
    pub fn decoder(&mut self) -> (r: &mut FrameDecoder)
        ensures
            (*r)@ == old(self).buffered(),
            final(self).buffered() == (*final(r))@,
    {
        &mut self.inner.decoder
    }

    /// Leaves streaming once `exchange`, the close exchange that the
    /// watch-off command started, saw the watch confirmed off; the partial
    /// frame is dropped and the connected session handed back. Otherwise
    /// the stream is handed back unchanged.
    pub fn close(self, exchange: &CloseExchange) -> (r: core::result::Result<
        GpsdClientCore<Proto>,
        Self,
    >)
        ensures
            exchange.spec_stage() is Closed ==> (r matches Ok(c) && c.buffered() == Seq::<
                u8,
            >::empty()),
            !(exchange.spec_stage() is Closed) ==> (r matches Err(s) && s.buffered() == self.buffered()),
    {
        if exchange.stage() == CloseStage::Closed {
            let mut inner = self.inner;
            inner.decoder.clear();
            Ok(inner)
        } else {
            Err(self)
        }
    }
}

/// What a structured stream yields for a decoding step.
pub open spec fn structured_next(d: Decoded<Message>) -> Next<Message> {
    match d {
        Decoded::Message(m) => Next::Item(Ok(m)),
        Decoded::Failed(e) => Next::Item(Err(e)),
        Decoded::Ended => Next::Finished,
        Decoded::NeedMore => Next::Pending,
    }
}

impl<Proto: GpsdJsonProtocol> GpsdDataStream<Proto, Json> {
    /// The next element of a structured stream, from one decoding step: a
    /// message, or a decoding error that does not end the stream; the end
    /// when the connection closed; nothing yet when more bytes are needed.
    pub fn next_message(&self, d: Decoded<Message>) -> (r: Next<Message>)
        ensures
            r == structured_next(d),
    {
        match d {
            Decoded::Message(m) => Next::Item(Ok(m)),
            Decoded::Failed(e) => Next::Item(Err(e)),
            Decoded::Ended => Next::Finished,
            Decoded::NeedMore => Next::Pending,
        }
    }
}

/// The text of a sentence frame: its bytes as text, trailing whitespace
/// and the newline removed.
pub fn sentence_text(frame: &[u8]) -> (r: String)
    ensures
        r@ == trim_end_of(lossy_text_of(frame@)),
{
    let text = lossy_text(frame);
    trimmed_end(text.as_str())
}

impl<Proto: GpsdJsonProtocol> GpsdDataStream<Proto, Nmea> {
    /// The next element of a sentence stream, from a frame (`None` when
    /// the connection closed).
    pub fn next_sentence(&self, frame: Option<Vec<u8>>) -> (r: Next<String>)
        ensures
            match frame {
                Some(f) => r matches Next::Item(Ok(t)) && t@ == trim_end_of(lossy_text_of(f@)),
                None => r is Finished,
            },
    {
        match frame {
            Some(f) => Next::Item(Ok(sentence_text(f.as_slice()))),
            None => Next::Finished,
        }
    }
}

impl<Proto: GpsdJsonProtocol> GpsdDataStream<Proto, Raw> {
    /// The next element of a raw stream, from a frame (`None` when the
    /// connection closed): the frame's bytes, newline included.
    pub fn next_raw(&self, frame: Option<Vec<u8>>) -> (r: Next<Vec<u8>>)
        ensures
            match frame {
                Some(f) => r matches Next::Item(Ok(b)) && b@ == f@,
                None => r is Finished,
            },
    {
        match frame {
            Some(f) => Next::Item(Ok(f)),
            None => Next::Finished,
        }
    }
}

} // verus!
