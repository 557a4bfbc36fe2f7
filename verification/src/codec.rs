//! Framing of what the client writes to nsqd, and of the message frames it
//! receives.

use vstd::prelude::*;
use vstd::slice::slice_to_vec;
use vstd::utf8::*;
use bytes::BytesMut;
use crate::buffer::{
    buf_as_slice, buf_contents, buf_extend, buf_remaining_mut, buf_reserve, buf_split_to,
};
use crate::wire::{be_bytes_u16, be_bytes_u32, be_bytes_u64, byte_len, lemma_be_u16_roundtrip, lemma_be_u64_roundtrip, be_u16, be_u64, read_i64, read_u16, signed64, utf8_text, write_u32};

verus! {

/// Bytes in front of every frame: its size and its type.
pub const HEADER_LENGTH: usize = 8;

// Frame types
pub const FRAME_TYPE_RESPONSE: i32 = 0x00;
pub const FRAME_TYPE_ERROR: i32 = 0x01;
pub const FRAME_TYPE_MESSAGE: i32 = 0x02;

/// The text of the frame by which nsqd checks that the client is alive.
pub const HEARTBEAT: &'static str = "_heartbeat_";

/// A reply of nsqd to a command.
#[derive(Debug, PartialEq, Clone)]
pub enum Response {
    Response(String),
    Error(String),
}

/// A reply of nsqd, by its text.
pub enum ResponseView {
    Response(Seq<char>),
    Error(Seq<char>),
}

impl View for Response {
    type V = ResponseView;

    open spec fn view(&self) -> ResponseView {
        match self {
            Response::Response(s) => ResponseView::Response(s@),
            Response::Error(s) => ResponseView::Error(s@),
        }
    }
}

/// A command as the command builders make it: a line alone, a line with one
/// body, or a line with several bodies.
#[derive(Debug, Clone)]
pub enum Cmd {
    Command(String),
    Msg(String, String),
    MMsg(String, Vec<String>),
}

/// Bytes 10..26 of a message frame: the message id.
pub open spec fn msg_id_bytes(b: Seq<u8>) -> Seq<u8> {
    b.subrange(10, 26)
}

/// The id text of a message frame: its UTF-8 text, or the empty text when
/// the id bytes are not valid UTF-8.
pub open spec fn msg_id_text(b: Seq<u8>) -> Seq<char> {
    if valid_utf8(msg_id_bytes(b)) {
        decode_utf8(msg_id_bytes(b))
    } else {
        Seq::empty()
    }
}

/// Splits a message frame into timestamp, attempts, id and body: 8 bytes of
/// big-endian timestamp, 2 bytes of attempts, 16 bytes of id, then the body.
/// What is left in `buf` afterwards is the body.
pub fn decode_msg(buf: &mut BytesMut) -> (r: (i64, u16, String, Vec<u8>))
    requires
        buf_contents(*old(buf)).len() >= 26,
    ensures
        r.0 as int == signed64(be_u64(buf_contents(*old(buf)))),
        r.1 as int == be_u16(buf_contents(*old(buf)).skip(8)),
        r.2@ == msg_id_text(buf_contents(*old(buf))),
        r.3@ == buf_contents(*old(buf)).skip(26),
        buf_contents(*final(buf)) == buf_contents(*old(buf)).skip(26),
{
    let ghost b0 = buf_contents(*buf);
    let ts_bytes = buf_split_to(buf, 8);
    let timestamp = read_i64(buf_as_slice(&ts_bytes));
    let att_bytes = buf_split_to(buf, 2);
    let attemps = read_u16(buf_as_slice(&att_bytes));
    let id_part = buf_split_to(buf, 16);
    proof {
        assert(buf_contents(ts_bytes) =~= b0.take(8));
        assert(be_u64(b0.take(8)) == be_u64(b0));
        assert(buf_contents(att_bytes) =~= b0.skip(8).take(2));
        assert(buf_contents(id_part) =~= msg_id_bytes(b0));
        assert(buf_contents(*buf) =~= b0.skip(26));
    }
    let id = match utf8_text(buf_as_slice(&id_part)) {
        Some(s) => s.to_owned(),
        None => String::new(),
    };
    let body = slice_to_vec(buf_as_slice(buf));
    (timestamp, attemps, id, body)
}

/// Appends a line feed.
fn write_n(buf: &mut BytesMut)
    ensures
        buf_contents(*final(buf)) == buf_contents(*old(buf)).push(10u8),
{
    let nl: [u8; 1] = [10u8];
    buf_extend(buf, &nl);
    assert(buf_contents(*buf) =~= buf_contents(*old(buf)).push(10u8));
}

/// Makes room for `size` more bytes when there is less; the bytes held do not
/// change.
fn check_and_reserve(buf: &mut BytesMut, size: usize)
    ensures
        buf_contents(*final(buf)) == buf_contents(*old(buf)),
{
    let remaining_bytes = buf_remaining_mut(buf);
    if remaining_bytes < size {
        buf_reserve(buf, size);
    }
}

/// Writes the protocol's magic text as it stands, with no line feed.
pub fn write_magic(buf: &mut BytesMut, cmd: &str)
    ensures
        buf_contents(*final(buf)) == buf_contents(*old(buf)) + encode_utf8(cmd@),
{
    let cmd_as_bytes = cmd.as_bytes();
    let size = byte_len(cmd_as_bytes);
    check_and_reserve(buf, size);
    buf_extend(buf, cmd_as_bytes);
}

/// The bytes of a command line: the command's UTF-8 bytes and a line feed.
pub open spec fn cmd_line(cmd: Seq<char>) -> Seq<u8> {
    encode_utf8(cmd).push(10u8)
}

/// Writes a command line: the command, then a line feed.
pub fn write_cmd(buf: &mut BytesMut, cmd: &str)
    ensures
        buf_contents(*final(buf)) == buf_contents(*old(buf)) + cmd_line(cmd@),
{
    let cmd_as_bytes = cmd.as_bytes();
    let size = byte_len(cmd_as_bytes) + 1;
    check_and_reserve(buf, size);
    buf_extend(buf, cmd_as_bytes);
    write_n(buf);
    assert(buf_contents(*buf) =~= buf_contents(*old(buf)) + cmd_line(cmd@));
}

/// A body as it is sent: its length as four big-endian bytes, then the body.
pub open spec fn msg_frame(m: Seq<u8>) -> Seq<u8> {
    be_bytes_u32(m.len() as u32) + m
}

/// Writes one body: its length as four big-endian bytes, then the body.
pub fn write_msg(buf: &mut BytesMut, msg: Vec<u8>)
    ensures
        buf_contents(*final(buf)) == buf_contents(*old(buf)) + msg_frame(msg@),
{
    let msg_as_bytes = msg.as_slice();
    let msg_len = byte_len(msg_as_bytes);
    let size = 4 + msg_len;
    check_and_reserve(buf, size);
    let len_bytes = write_u32(msg_len as u32);
    buf_extend(buf, &len_bytes);
    buf_extend(buf, msg_as_bytes);
    assert(buf_contents(*buf) =~= buf_contents(*old(buf)) + msg_frame(msg@));
}

/// The bodies one after the other, each as `msg_frame` gives it.
pub open spec fn msg_frames(ms: Seq<Seq<u8>>) -> Seq<u8>
    decreases ms.len(),
{
    if ms.len() == 0 {
        Seq::empty()
    } else {
        msg_frames(ms.drop_last()) + msg_frame(ms.last())
    }
}

/// The size of a multi-body payload: four bytes of count, and four bytes of
/// length for each body besides the body itself.
pub open spec fn mmsg_body_size(ms: Seq<Seq<u8>>) -> int
    decreases ms.len(),
{
    if ms.len() == 0 {
        4
    } else {
        mmsg_body_size(ms.drop_last()) + ms.last().len() + 4
    }
}

/// A multi-body payload as it is sent: the count, then the bodies, each with
/// its length.
pub open spec fn mmsg_frame(ms: Seq<Seq<u8>>) -> Seq<u8> {
    be_bytes_u32(ms.len() as u32) + msg_frames(ms)
}

pub proof fn lemma_mmsg_body_size_min(ms: Seq<Seq<u8>>)
    ensures
        mmsg_body_size(ms) >= 4,
    decreases ms.len(),
{
    if ms.len() > 0 {
        lemma_mmsg_body_size_min(ms.drop_last());
    }
}

/// One more body adds its length and four bytes to the size.
pub proof fn lemma_mmsg_body_size_step(ms: Seq<Seq<u8>>, i: int)
    requires
        0 <= i < ms.len(),
    ensures
        mmsg_body_size(ms.take(i + 1)) == mmsg_body_size(ms.take(i)) + ms[i].len() + 4,
        msg_frames(ms.take(i + 1)) == msg_frames(ms.take(i)) + msg_frame(ms[i]),
{
    assert(ms.take(i + 1).drop_last() =~= ms.take(i));
    assert(ms.take(i + 1).last() == ms[i]);
}

/// The size of a prefix lies between 4 and the size of the whole.
pub proof fn lemma_mmsg_body_size_prefix(ms: Seq<Seq<u8>>, i: int)
    requires
        0 <= i <= ms.len(),
    ensures
        4 <= mmsg_body_size(ms.take(i)) <= mmsg_body_size(ms),
    decreases ms.len() - i,
{
    lemma_mmsg_body_size_min(ms.take(i));
    if i < ms.len() {
        lemma_mmsg_body_size_prefix(ms, i + 1);
        lemma_mmsg_body_size_step(ms, i);
    } else {
        assert(ms.take(i) =~= ms);
    }
}

/// Writes several bodies (the payload of a multi-publish): the count, then
/// each body with its length. Room for the whole payload is made first; its
/// size is summed in a 32-bit signed integer, which must not overflow.
pub fn write_mmsg(buf: &mut BytesMut, msgs: Vec<Vec<u8>>)
    requires
        mmsg_body_size(msgs.deep_view()) <= i32::MAX,
    ensures
        buf_contents(*final(buf)) == buf_contents(*old(buf)) + mmsg_frame(msgs.deep_view()),
{
    let ghost ms = msgs.deep_view();
    let len = msgs.len();
    let mut sum: i32 = 0;
    let mut i: usize = 0;
    while i < len
        invariant
            len == msgs.len(),
            ms == msgs.deep_view(),
            mmsg_body_size(ms) <= i32::MAX,
            0 <= i <= len,
            sum as int + 4 == mmsg_body_size(ms.take(i as int)),
        decreases len - i,
    {
        proof {
            lemma_mmsg_body_size_prefix(ms, i as int);
            lemma_mmsg_body_size_prefix(ms, i as int + 1);
            lemma_mmsg_body_size_step(ms, i as int);
            assert(ms[i as int] =~= msgs[i as int]@);
        }
        let item_size = msgs[i].len() + 4;
        assert(sum as int + item_size as int <= i32::MAX);
        sum = sum + item_size as i32;
        i = i + 1;
    }
    proof {
        assert(ms.take(len as int) =~= ms);
        lemma_mmsg_body_size_prefix(ms, len as int);
    }
    let body_size = (sum + 4) as usize;
    assert(body_size as int == mmsg_body_size(ms));
    check_and_reserve(buf, body_size);
    let count_bytes = write_u32(len as u32);
    buf_extend(buf, &count_bytes);
    let ghost head = buf_contents(*buf);
    assert(head =~= buf_contents(*old(buf)) + be_bytes_u32(ms.len() as u32));
    let mut j: usize = 0;
    while j < len
        invariant
            len == msgs.len(),
            ms == msgs.deep_view(),
            mmsg_body_size(ms) <= i32::MAX,
            0 <= j <= len,
            buf_contents(*buf) == head + msg_frames(ms.take(j as int)),
        decreases len - j,
    {
        proof {
            lemma_mmsg_body_size_prefix(ms, j as int);
            lemma_mmsg_body_size_prefix(ms, j as int + 1);
            lemma_mmsg_body_size_step(ms, j as int);
            assert(ms[j as int] =~= msgs[j as int]@);
        }
        let m = msgs[j].clone();
        assert(m@ =~= msgs[j as int]@);
        write_msg(buf, m);
        assert(head + msg_frames(ms.take(j as int + 1)) =~= head + msg_frames(ms.take(j as int))
            + msg_frame(ms[j as int]));
        j = j + 1;
    }
    proof {
        assert(ms.take(len as int) =~= ms);
    }
    assert(buf_contents(*buf) =~= buf_contents(*old(buf)) + mmsg_frame(ms));
}

/// A message frame's payload as nsqd lays it out: the timestamp in eight
/// bytes and the attempts in two, big-endian, then 16 bytes of id, then the
/// body.
pub open spec fn msg_payload(timestamp: i64, attempts: u16, id: Seq<u8>, body: Seq<u8>) -> Seq<u8> {
    be_bytes_u64(timestamp as u64) + be_bytes_u16(attempts) + id + body
}

/// `decode_msg` reads back what `msg_payload` lays out: the timestamp, the
/// attempts, the id bytes and the body.
pub proof fn law_msg_payload_roundtrip(timestamp: i64, attempts: u16, id: Seq<u8>, body: Seq<u8>)
    requires
        id.len() == 16,
    ensures
        ({
            let p = msg_payload(timestamp, attempts, id, body);
            &&& p.len() >= 26
            &&& signed64(be_u64(p)) == timestamp as int
            &&& be_u16(p.skip(8)) == attempts as int
            &&& msg_id_bytes(p) == id
            &&& p.skip(26) == body
        }),
{
    let p = msg_payload(timestamp, attempts, id, body);
    let t = timestamp as u64;
    lemma_be_u64_roundtrip(t);
    lemma_be_u16_roundtrip(attempts);
    assert((timestamp as u64) as i64 == timestamp) by (bit_vector);
    assert(p.subrange(0, 8) =~= be_bytes_u64(t));
    assert(be_u64(p) == be_u64(p.subrange(0, 8)));
    assert(p.skip(8).subrange(0, 2) =~= be_bytes_u16(attempts));
    assert(be_u16(p.skip(8)) == be_u16(p.skip(8).subrange(0, 2)));
    assert(msg_id_bytes(p) =~= id);
    assert(p.skip(26) =~= body);
}

/// The size made room for before several bodies are written counts every
/// byte written: the four bytes of count and each body with its four bytes
/// of length.
pub proof fn law_mmsg_size_counts_payload(ms: Seq<Seq<u8>>)
    ensures
        mmsg_body_size(ms) == 4 + msg_frames(ms).len(),
        mmsg_frame(ms).len() == mmsg_body_size(ms),
    decreases ms.len(),
{
    if ms.len() > 0 {
        law_mmsg_size_counts_payload(ms.drop_last());
    }
}

} // verus!
