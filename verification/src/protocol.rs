//! What the client and the daemon say to each other.
use vstd::prelude::*;

use crate::text::{cat2, cat3, hex, join, joined, print_hex, texts};

verus! {

/// The identity of a session: the 128 bits of its UUID.
#[derive(Clone, Debug, Copy, PartialEq, Eq, Hash, Structural)]
pub struct SessionId {
    pub bits: u128,
}

/// A version 4 UUID: version and variant stand in their places.
pub open spec fn is_v4(bits: u128) -> bool {
    (bits >> 76) & 0xf == 4 && (bits >> 62) & 0x3 == 2
}

impl SessionId {
    /// The identity that belongs to no session: all bits are zero.
    pub open spec fn nil_id() -> SessionId {
        SessionId { bits: 0 }
    }

    /// The identity that belongs to no session.
    pub fn nil() -> (r: SessionId)
        ensures
            r == SessionId::nil_id(),
    {
        SessionId { bits: 0 }
    }

    /// The identity of a new session.
    pub fn fresh() -> (r: SessionId)
        ensures
            is_v4(r.bits),
    {
        fresh_session_id()
    }

    /// The identity as it is written: lower case hexadecimal digits in five groups.
    pub fn text(&self) -> (r: String)
        ensures
            r@ == session_text(*self),
    {
        let a: u64 = (self.bits / 0x1_0000_0000_0000_0000_0000_0000) as u64;
        let b: u64 = (self.bits / 0x1_0000_0000_0000_0000_0000 % 0x1_0000) as u64;
        let c: u64 = (self.bits / 0x1_0000_0000_0000_0000 % 0x1_0000) as u64;
        let d: u64 = (self.bits / 0x1_0000_0000_0000 % 0x1_0000) as u64;
        let e: u64 = (self.bits % 0x1_0000_0000_0000) as u64;
        let mut out = print_hex(a, 8);
        out.push('-');
        out.push_str(print_hex(b, 4).as_str());
        out.push('-');
        out.push_str(print_hex(c, 4).as_str());
        out.push('-');
        out.push_str(print_hex(d, 4).as_str());
        out.push('-');
        out.push_str(print_hex(e, 12).as_str());
        assert(out@ =~= session_text(*self));
        out
    }
}

/// The identity as it is written: 8, 4, 4, 4 and 12 hexadecimal digits, with hyphens between.
pub open spec fn session_text(id: SessionId) -> Seq<char> {
    let bits = id.bits as nat;
    hex(bits / 0x1_0000_0000_0000_0000_0000_0000, 8) + seq!['-'] + hex(
        bits / 0x1_0000_0000_0000_0000_0000 % 0x1_0000,
        4,
    ) + seq!['-'] + hex(bits / 0x1_0000_0000_0000_0000 % 0x1_0000, 4) + seq!['-'] + hex(
        bits / 0x1_0000_0000_0000 % 0x1_0000,
        4,
    ) + seq!['-'] + hex(bits % 0x1_0000_0000_0000, 12)
}

/// An identity for a new session.
///
/// Calls `uuid::Uuid::new_v4`. The bits are random; version and variant are those of a
/// version 4 UUID.
#[verifier::external_body]
pub(crate) fn fresh_session_id() -> (r: SessionId)
    ensures
        is_v4(r.bits),
{
    SessionId { bits: uuid::Uuid::new_v4().as_u128() }
}

/// The identity of a new session is never the one that belongs to none.
pub proof fn law_fresh_session_is_not_nil(id: SessionId)
    requires
        is_v4(id.bits),
    ensures
        id != SessionId::nil_id(),
{
    let bits = id.bits;
    assert((bits >> 76) & 0xf == 4 ==> bits != 0) by (bit_vector);
}

/// A 32-bit floating point number, by its bits.
#[derive(Clone, Debug, Copy, PartialEq, Eq, Structural)]
pub struct FloatBits {
    pub bits: u32,
}

/// The daemon's own account of its state: each field's name, and its value as JSON.
#[derive(Debug, PartialEq, Eq)]
pub struct DaemonStatus {
    pub fields: Vec<(String, String)>,
}

/// What the daemon says.
#[allow(inconsistent_fields)]
#[derive(Debug, PartialEq, Eq)]
pub enum ServerMessage {
    SessionStarted { session_id: SessionId },
    FinalResult {
        session_id: SessionId,
        text: String,
        latency_ms: u64,
        audio_ms: u64,
        lang: Option<String>,
        confidence: Option<FloatBits>,
    },
    Error { session_id: Option<SessionId>, code: String, message: String },
    InterimState { session_id: SessionId, seq: u64, state: String },
    InterimText { session_id: SessionId, seq: u64, text: String },
    AudioLevel { session_id: SessionId, level_db: FloatBits },
    SessionEnded { session_id: SessionId, reason: Option<String> },
    SessionWarning {
        session_id: SessionId,
        warning: String,
        remaining_seconds: FloatBits,
        limit_seconds: FloatBits,
    },
    Status(DaemonStatus),
}

/// What the client says.
#[derive(Debug, PartialEq, Eq)]
pub enum ClientMessage {
    StartSession { session_id: SessionId, mode: String, preferred_lang: Option<String> },
    StopSession { session_id: SessionId },
}

/// The message that starts a push-to-talk session.
pub fn start_message(session_id: SessionId, preferred_lang: Option<String>) -> (r: ClientMessage)
    ensures
        r matches ClientMessage::StartSession { session_id: s, mode, preferred_lang: lang } && s
            == session_id && mode@ == "push_to_talk"@ && lang == preferred_lang,
{
    ClientMessage::StartSession { session_id, mode: "push_to_talk".to_owned(), preferred_lang }
}

/// The message that stops a session.
pub fn stop_message(session_id: SessionId) -> (r: ClientMessage)
    ensures
        r == (ClientMessage::StopSession { session_id }),
{
    ClientMessage::StopSession { session_id }
}

/// One field of a status, as it is shown.
pub open spec fn status_field(field: (String, String)) -> Seq<char> {
    field.0@ + "="@ + field.1@
}

/// The fields of a status, as they are shown.
pub open spec fn status_fields(fields: Seq<(String, String)>) -> Seq<Seq<char>> {
    Seq::new(fields.len(), |i: int| status_field(fields[i]))
}

/// The daemon's status in one line.
pub fn format_daemon_status(status: &DaemonStatus) -> (r: String)
    ensures
        r@ == "Daemon status: "@ + joined(status_fields(status.fields@), ", "@),
{
    let mut shown: Vec<String> = Vec::new();
    let mut i: usize = 0;
    while i < status.fields.len()
        invariant
            i <= status.fields@.len(),
            texts(shown@) == status_fields(status.fields@).take(i as int),
        decreases status.fields@.len() - i,
    {
        let field = cat3(status.fields[i].0.as_str(), "=", status.fields[i].1.as_str());
        let ghost before = texts(shown@);
        shown.push(field);
        i = i + 1;
        assert(texts(shown@) =~= before.push(field@));
        assert(texts(shown@) =~= status_fields(status.fields@).take(i as int));
    }
    assert(texts(shown@) =~= status_fields(status.fields@));
    let list = join(&shown, ", ");
    cat2("Daemon status: ", list.as_str())
}

/// A frame that came over the connection.
#[derive(Debug, Clone, Copy, PartialEq, Eq, Structural)]
pub enum Frame {
    /// A text that decoded to a known message.
    KnownText,
    /// A text whose message type is not known.
    UnknownText,
    /// A text that could not be decoded.
    BadText,
    Binary,
    Ping,
    Pong,
    Close,
    /// The connection failed.
    Failed,
    /// The stream is at its end.
    End,
}

/// What to do with a frame.
#[derive(Debug, Clone, Copy, PartialEq, Eq, Structural)]
pub enum FrameStep {
    /// Hand the message on.
    Deliver,
    /// Wait for the next frame.
    Next,
    /// Answer with a pong, then wait for the next frame.
    ReplyPong,
    /// There are no more messages.
    Closed,
    /// Hand the error on.
    Fail,
}

/// Decides what to do with a frame.
pub fn frame_step(frame: Frame) -> (r: FrameStep)
    ensures
        r == match frame {
            Frame::KnownText => FrameStep::Deliver,
            Frame::BadText => FrameStep::Fail,
            Frame::Failed => FrameStep::Fail,
            Frame::Ping => FrameStep::ReplyPong,
            Frame::Close => FrameStep::Closed,
            Frame::End => FrameStep::Closed,
            Frame::UnknownText => FrameStep::Next,
            Frame::Binary => FrameStep::Next,
            Frame::Pong => FrameStep::Next,
        },
{
    match frame {
        Frame::KnownText => FrameStep::Deliver,
        Frame::BadText | Frame::Failed => FrameStep::Fail,
        Frame::Ping => FrameStep::ReplyPong,
        Frame::Close | Frame::End => FrameStep::Closed,
        Frame::UnknownText | Frame::Binary | Frame::Pong => FrameStep::Next,
    }
}

/// An identity is written in thirty-six characters, hyphens in their places, and its digits say
/// its bits.
pub proof fn law_identity_is_written_in_groups(id: SessionId)
    ensures
        session_text(id).len() == 36,
        session_text(id)[8] == '-' && session_text(id)[13] == '-' && session_text(id)[18] == '-'
            && session_text(id)[23] == '-',
        crate::text::said_in_hex(session_text(id).subrange(0, 8)) == id.bits as int
            / 0x1_0000_0000_0000_0000_0000_0000,
        crate::text::said_in_hex(session_text(id).subrange(9, 13)) == id.bits as int
            / 0x1_0000_0000_0000_0000_0000 % 0x1_0000,
        crate::text::said_in_hex(session_text(id).subrange(14, 18)) == id.bits as int
            / 0x1_0000_0000_0000_0000 % 0x1_0000,
        crate::text::said_in_hex(session_text(id).subrange(19, 23)) == id.bits as int
            / 0x1_0000_0000_0000 % 0x1_0000,
        crate::text::said_in_hex(session_text(id).subrange(24, 36)) == id.bits as int
            % 0x1_0000_0000_0000,
{
    reveal_with_fuel(crate::text::sixteens, 13);
    let bits = id.bits as nat;
    let a = bits / 0x1_0000_0000_0000_0000_0000_0000;
    let b = bits / 0x1_0000_0000_0000_0000_0000 % 0x1_0000;
    let c = bits / 0x1_0000_0000_0000_0000 % 0x1_0000;
    let d = bits / 0x1_0000_0000_0000 % 0x1_0000;
    let e = bits % 0x1_0000_0000_0000;
    crate::text::law_printed_hex_is_read_back(a, 8);
    crate::text::law_printed_hex_is_read_back(b, 4);
    crate::text::law_printed_hex_is_read_back(c, 4);
    crate::text::law_printed_hex_is_read_back(d, 4);
    crate::text::law_printed_hex_is_read_back(e, 12);
    let s = session_text(id);
    assert(s.subrange(0, 8) =~= hex(a, 8));
    assert(s.subrange(9, 13) =~= hex(b, 4));
    assert(s.subrange(14, 18) =~= hex(c, 4));
    assert(s.subrange(19, 23) =~= hex(d, 4));
    assert(s.subrange(24, 36) =~= hex(e, 12));
}

/// A field of a status is shown as its name and its value.
pub proof fn law_status_fields_are_shown(fields: Seq<(String, String)>, i: int)
    requires
        0 <= i < fields.len(),
    ensures
        status_fields(fields).len() == fields.len(),
        status_fields(fields)[i] == fields[i].0@ + "="@ + fields[i].1@,
{
}

/// A start names its session and the language asked for, a stop its session.
pub proof fn law_messages_name_their_session(
    id: SessionId,
    lang: Option<String>,
    start: ClientMessage,
    stop: ClientMessage,
)
    requires
        call_ensures(start_message, (id, lang), start),
        call_ensures(stop_message, (id,), stop),
    ensures
        start matches ClientMessage::StartSession { session_id, preferred_lang, .. } && session_id
            == id && preferred_lang == lang,
        stop == (ClientMessage::StopSession { session_id: id }),
{
}

/// Only a known text is delivered, only a ping is answered, and only a close or the end closes;
/// what cannot be read fails, and all else is passed over.
pub proof fn law_frames_are_told_apart(frame: Frame, r: FrameStep)
    requires
        call_ensures(frame_step, (frame,), r),
    ensures
        r is Deliver <==> frame is KnownText,
        r is ReplyPong <==> frame is Ping,
        r is Closed <==> frame is Close || frame is End,
        r is Fail <==> frame is BadText || frame is Failed,
{
}

} // verus!
