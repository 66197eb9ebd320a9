//! The wire protocol between clients and the daemon.
//!
//! A command travels as a four-byte little-endian variant tag. A reply travels
//! as a four-byte little-endian tag (0 for an accepted request, 1 for a
//! refusal), an eight-byte little-endian length, and that many bytes of text.
use vstd::prelude::*;

verus! {

/// Where the daemon listens.
pub const SOCKET_ADDRESS: &'static str = "/tmp/pomodoro.sock";

/// Number of bytes of an encoded command.
pub const ACTION_FRAME_LEN: usize = 4;

/// Number of bytes that precede the text of an encoded reply.
pub const REPLY_HEADER_LEN: usize = 12;

/// A request sent to the daemon.
#[derive(Clone, Copy, Debug, PartialEq, Eq, Structural)]
pub enum Action {
    Work,
    WorkDone,
    Break,
    Stop,
    GetState,
}

/// The daemon's answer: an accepted request or a refusal, with its text.
#[derive(Clone, Debug)]
pub struct Reply {
    pub accepted: bool,
    pub text: Vec<u8>,
}

/// Bytes that are not a well-formed message.
#[derive(Clone, Copy, Debug, PartialEq, Eq, Structural)]
pub enum DecodeError {
    MalformedMessage,
}

pub open spec fn action_tag(a: Action) -> u8 {
    match a {
        Action::Work => 0,
        Action::WorkDone => 1,
        Action::Break => 2,
        Action::Stop => 3,
        Action::GetState => 4,
    }
}

pub open spec fn action_of_tag(t: u8) -> Option<Action> {
    if t == 0 {
        Some(Action::Work)
    } else if t == 1 {
        Some(Action::WorkDone)
    } else if t == 2 {
        Some(Action::Break)
    } else if t == 3 {
        Some(Action::Stop)
    } else if t == 4 {
        Some(Action::GetState)
    } else {
        None
    }
}

/// The encoding of a command.
pub open spec fn action_bytes(a: Action) -> Seq<u8> {
    seq![action_tag(a), 0u8, 0u8, 0u8]
}

/// The command that a frame holds, if it is well-formed.
pub open spec fn parse_action(b: Seq<u8>) -> Option<Action> {
    if b.len() == 4 && b[1] == 0 && b[2] == 0 && b[3] == 0 {
        action_of_tag(b[0])
    } else {
        None
    }
}

/// The eight little-endian bytes of `v`.
pub open spec fn u64_le(v: u64) -> Seq<u8> {
    seq![
        v as u8,
        (v >> 8u64) as u8,
        (v >> 16u64) as u8,
        (v >> 24u64) as u8,
        (v >> 32u64) as u8,
        (v >> 40u64) as u8,
        (v >> 48u64) as u8,
        (v >> 56u64) as u8,
    ]
}

pub open spec fn u64_from_bytes(
    b0: u8,
    b1: u8,
    b2: u8,
    b3: u8,
    b4: u8,
    b5: u8,
    b6: u8,
    b7: u8,
) -> u64 {
    (b0 as u64) | ((b1 as u64) << 8u64) | ((b2 as u64) << 16u64) | ((b3 as u64) << 24u64) | ((
    b4 as u64) << 32u64) | ((b5 as u64) << 40u64) | ((b6 as u64) << 48u64) | ((b7 as u64)
        << 56u64)
}

/// The integer that the eight bytes of `b` from `at` on hold, little-endian.
pub open spec fn u64_at(b: Seq<u8>, at: int) -> u64 {
    u64_from_bytes(b[at], b[at + 1], b[at + 2], b[at + 3], b[at + 4], b[at + 5], b[at + 6], b[at + 7])
}

pub open spec fn reply_tag(accepted: bool) -> u8 {
    if accepted {
        0
    } else {
        1
    }
}

/// The encoding of a reply.
pub open spec fn reply_bytes(accepted: bool, text: Seq<u8>) -> Seq<u8> {
    seq![reply_tag(accepted), 0u8, 0u8, 0u8] + u64_le(text.len() as u64) + text
}

/// The reply (acceptance and text) that `b` encodes, if it is well-formed:
/// a known tag, and exactly as many bytes of text as the length says.
pub open spec fn parse_reply(b: Seq<u8>) -> Option<(bool, Seq<u8>)> {
    if b.len() >= 12 && (b[0] == 0 || b[0] == 1) && b[1] == 0 && b[2] == 0 && b[3] == 0
        && b.len() - 12 == u64_at(b, 4) {
        Some((b[0] == 0, b.subrange(12, b.len() as int)))
    } else {
        None
    }
}

/// Encodes a command.
pub fn encode_action(a: Action) -> (r: Vec<u8>)
    ensures
        r@ == action_bytes(a),
{
    let tag: u8 = match a {
        Action::Work => 0,
        Action::WorkDone => 1,
        Action::Break => 2,
        Action::Stop => 3,
        Action::GetState => 4,
    };
    let r = vec![tag, 0u8, 0u8, 0u8];
    assert(r@ =~= action_bytes(a));
    r
}

/// Decodes a command frame; fails on a frame of another length, an unknown
/// tag, or nonzero upper tag bytes.
pub fn decode_action(b: &[u8]) -> (r: Result<Action, DecodeError>)
    ensures
        r == (match parse_action(b@) {
            Some(a) => Ok(a),
            None => Err(DecodeError::MalformedMessage),
        }),
{
    if b.len() != ACTION_FRAME_LEN || b[1] != 0 || b[2] != 0 || b[3] != 0 {
        return Err(DecodeError::MalformedMessage);
    }
    let t = b[0];
    if t == 0 {
        Ok(Action::Work)
    } else if t == 1 {
        Ok(Action::WorkDone)
    } else if t == 2 {
        Ok(Action::Break)
    } else if t == 3 {
        Ok(Action::Stop)
    } else if t == 4 {
        Ok(Action::GetState)
    } else {
        Err(DecodeError::MalformedMessage)
    }
}

/// Appends the eight little-endian bytes of `v`.
fn push_u64_le(out: &mut Vec<u8>, v: u64)
    ensures
        final(out)@ == old(out)@ + u64_le(v),
{
    out.push(v as u8);
    out.push((v >> 8u64) as u8);
    out.push((v >> 16u64) as u8);
    out.push((v >> 24u64) as u8);
    out.push((v >> 32u64) as u8);
    out.push((v >> 40u64) as u8);
    out.push((v >> 48u64) as u8);
    out.push((v >> 56u64) as u8);
    assert(final(out)@ =~= old(out)@ + u64_le(v));
}

/// Appends all of `src` to `out`.
pub fn extend_bytes(out: &mut Vec<u8>, src: &[u8])
    ensures
        final(out)@ == old(out)@ + src@,
{
    let ghost start = out@;
    let mut i: usize = 0;
    while i < src.len()
        invariant
            i <= src@.len(),
            out@ == start + src@.subrange(0, i as int),
        decreases src@.len() - i,
    {
        out.push(src[i]);
        i = i + 1;
        assert(out@ =~= start + src@.subrange(0, i as int));
    }
    assert(src@.subrange(0, i as int) =~= src@);
}

/// Encodes a reply.
pub fn encode_reply(reply: &Reply) -> (r: Vec<u8>)
    ensures
        r@ == reply_bytes(reply.accepted, reply.text@),
{
    let tag: u8 = if reply.accepted {
        0
    } else {
        1
    };
    let mut r = vec![tag, 0u8, 0u8, 0u8];
    push_u64_le(&mut r, reply.text.len() as u64);
    extend_bytes(&mut r, reply.text.as_slice());
    assert(r@ =~= reply_bytes(reply.accepted, reply.text@));
    r
}

/// Decodes a whole reply message; fails on a truncated or overlong message
/// or an unknown tag.
pub fn decode_reply(b: &[u8]) -> (r: Result<Reply, DecodeError>)
    ensures
        parse_reply(b@) is None <==> r is Err,
        r is Err ==> r == Err::<Reply, DecodeError>(DecodeError::MalformedMessage),
        r matches Ok(rep) ==> parse_reply(b@) == Some((rep.accepted, rep.text@)),
{
    if b.len() < REPLY_HEADER_LEN || (b[0] != 0 && b[0] != 1) || b[1] != 0 || b[2] != 0 || b[3]
        != 0 {
        return Err(DecodeError::MalformedMessage);
    }
    let len: u64 = (b[4] as u64) | ((b[5] as u64) << 8u64) | ((b[6] as u64) << 16u64) | ((
    b[7] as u64) << 24u64) | ((b[8] as u64) << 32u64) | ((b[9] as u64) << 40u64) | ((
    b[10] as u64) << 48u64) | ((b[11] as u64) << 56u64);
    if (b.len() - REPLY_HEADER_LEN) as u64 != len {
        return Err(DecodeError::MalformedMessage);
    }
    let mut text: Vec<u8> = Vec::new();
    let mut i: usize = REPLY_HEADER_LEN;
    while i < b.len()
        invariant
            REPLY_HEADER_LEN <= i <= b@.len(),
            text@ == b@.subrange(12, i as int),
        decreases b@.len() - i,
    {
        text.push(b[i]);
        i = i + 1;
        assert(text@ =~= b@.subrange(12, i as int));
    }
    Ok(Reply { accepted: b[0] == 0, text })
}

/// Reading back the bytes of a little-endian integer gives the integer.
pub proof fn lemma_u64_le_round_trip(v: u64)
    ensures
        u64_at(u64_le(v), 0) == v,
{
    let b = u64_le(v);
    assert(u64_from_bytes(
        v as u8,
        (v >> 8u64) as u8,
        (v >> 16u64) as u8,
        (v >> 24u64) as u8,
        (v >> 32u64) as u8,
        (v >> 40u64) as u8,
        (v >> 48u64) as u8,
        (v >> 56u64) as u8,
    ) == v) by (bit_vector);
}

/// Eight bytes are the little-endian bytes of the integer they hold.
pub proof fn lemma_u64_le_of_bytes(b0: u8, b1: u8, b2: u8, b3: u8, b4: u8, b5: u8, b6: u8, b7: u8)
    ensures
        u64_le(u64_from_bytes(b0, b1, b2, b3, b4, b5, b6, b7)) == seq![b0, b1, b2, b3, b4, b5, b6, b7],
{
    let v = u64_from_bytes(b0, b1, b2, b3, b4, b5, b6, b7);
    assert(v as u8 == b0 && (v >> 8u64) as u8 == b1 && (v >> 16u64) as u8 == b2 && (v
        >> 24u64) as u8 == b3 && (v >> 32u64) as u8 == b4 && (v >> 40u64) as u8 == b5 && (v
        >> 48u64) as u8 == b6 && (v >> 56u64) as u8 == b7) by (bit_vector)
        requires
            v == (b0 as u64) | ((b1 as u64) << 8u64) | ((b2 as u64) << 16u64) | ((b3 as u64)
                << 24u64) | ((b4 as u64) << 32u64) | ((b5 as u64) << 40u64) | ((b6 as u64)
                << 48u64) | ((b7 as u64) << 56u64),
    ;
    assert(u64_le(v) =~= seq![b0, b1, b2, b3, b4, b5, b6, b7]);
}

/// Every command decodes from its own encoding.
pub proof fn lemma_action_round_trip(a: Action)
    ensures
        parse_action(action_bytes(a)) == Some(a),
{
}

/// A well-formed command frame is the encoding of the command it holds.
pub proof fn lemma_action_frame_canonical(b: Seq<u8>)
    requires
        parse_action(b) is Some,
    ensures
        action_bytes(parse_action(b)->Some_0) == b,
{
    assert(action_bytes(parse_action(b)->Some_0) =~= b);
}

/// Every reply decodes from its own encoding, text byte for byte.
pub proof fn lemma_reply_round_trip(accepted: bool, text: Seq<u8>)
    requires
        text.len() <= u64::MAX,
    ensures
        parse_reply(reply_bytes(accepted, text)) == Some((accepted, text)),
{
    let b = reply_bytes(accepted, text);
    lemma_u64_le_round_trip(text.len() as u64);
    assert(u64_at(b, 4) == u64_at(u64_le(text.len() as u64), 0));
    assert(b.subrange(12, b.len() as int) =~= text);
}

/// A well-formed reply message is exactly the encoding of the reply it holds,
/// so messages are self-delimiting.
pub proof fn lemma_reply_canonical(b: Seq<u8>)
    requires
        parse_reply(b) is Some,
    ensures
        reply_bytes(parse_reply(b)->Some_0.0, parse_reply(b)->Some_0.1) == b,
{
    let text = b.subrange(12, b.len() as int);
    lemma_u64_le_of_bytes(b[4], b[5], b[6], b[7], b[8], b[9], b[10], b[11]);
    assert(text.len() as u64 == u64_at(b, 4));
    assert(reply_bytes(b[0] == 0, text) =~= b);
}

} // verus!
