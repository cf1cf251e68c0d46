//! Decoding of WebSocket (RFC 6455) frame headers from a possibly incomplete
//! byte buffer, without copying anything out of it.
//!
//! [`Frame::decode`] reads the two fixed header bytes, the extended payload
//! length and the masking key. When the buffer ends early it reports
//! [`Status::Partial`] and leaves every field it had already decoded in place,
//! so a caller can look at them before reading more.
use vstd::prelude::*;

pub mod iter;
pub mod lemmas;

pub use iter::Bytes;

verus! {

/// The result of a decode pass.
///
/// `Complete` is used when the buffer held the whole header; `Partial` when
/// the buffer ended before it, with no invalid data found on the way.
#[derive(Debug, PartialEq, Eq, Structural)]
pub enum Status {
    /// The header is complete; holds the number of bytes it took.
    Complete(usize),
    /// More bytes are needed.
    Partial,
}

impl Status {
    /// Whether the status is `Complete`.
    pub fn is_complete(&self) -> (r: bool)
        ensures
            r == (*self is Complete),
    {
        match *self {
            Status::Complete(..) => true,
            Status::Partial => false,
        }
    }

    /// Whether the status is `Partial`.
    pub fn is_partial(&self) -> (r: bool)
        ensures
            r == (*self is Partial),
    {
        match *self {
            Status::Complete(..) => false,
            Status::Partial => true,
        }
    }

    /// The byte count of a `Complete` status; only a complete status may be
    /// unwrapped.
    pub fn unwrap(self) -> (r: usize)
        requires
            self is Complete,
        ensures
            self == Status::Complete(r),
    {
        match self {
            Status::Complete(len) => len,
            Status::Partial => vstd::pervasive::unreached(),
        }
    }
}

/// The kind of a frame, from the low four bits of its first byte.
#[derive(Debug, PartialEq, Eq, Structural, Copy, Clone)]
pub enum Opcode {
    Continue,
    Text,
    Binary,
    Close,
    Ping,
    Pong,
    /// Any value the protocol does not define (3 to 7, 11 to 15, and
    /// anything above 15).
    Reserved,
}

/// The opcode that the value `n` stands for.
pub open spec fn opcode_of(n: u8) -> Opcode {
    if n == 0 {
        Opcode::Continue
    } else if n == 1 {
        Opcode::Text
    } else if n == 2 {
        Opcode::Binary
    } else if n == 8 {
        Opcode::Close
    } else if n == 9 {
        Opcode::Ping
    } else if n == 10 {
        Opcode::Pong
    } else {
        Opcode::Reserved
    }
}

impl From<u8> for Opcode {
    fn from(opcode: u8) -> (r: Opcode)
        ensures
            r == opcode_of(opcode),
    {
        match opcode {
            0 => Opcode::Continue,
            1 => Opcode::Text,
            2 => Opcode::Binary,
            8 => Opcode::Close,
            9 => Opcode::Ping,
            10 => Opcode::Pong,
            _ => Opcode::Reserved,
        }
    }
}

impl vstd::std_specs::convert::FromSpecImpl<u8> for Opcode {
    open spec fn obeys_from_spec() -> bool {
        true
    }

    open spec fn from_spec(v: u8) -> Opcode {
        opcode_of(v)
    }
}

/// The meaning of a frame's first byte.
#[derive(Debug, PartialEq, Copy, Clone)]
pub struct Head {
    pub op: Opcode,
    /// The FIN bit: this frame is the last fragment of its message.
    pub finished: bool,
    /// RSV1, RSV2 and RSV3, in that order.
    pub rsv: [bool; 3],
}

/// A [`Head`] as a mathematical value.
pub struct HeadView {
    pub op: Opcode,
    pub finished: bool,
    pub rsv: Seq<bool>,
}

impl View for Head {
    type V = HeadView;

    open spec fn view(&self) -> HeadView {
        HeadView { op: self.op, finished: self.finished, rsv: self.rsv@ }
    }
}

/// Whether the most significant bit of `b` is set.
pub open spec fn high_bit(b: u8) -> bool {
    b >> 7 == 1
}

/// Whether bit `i` of `b` (counting from the least significant) is set.
pub open spec fn bit(b: u8, i: u8) -> bool {
    (b >> i) & 1 == 1
}

/// What the first header byte `b` says.
pub open spec fn head_of(b: u8) -> HeadView {
    HeadView { op: opcode_of(b & 0xF), finished: high_bit(b), rsv: seq![bit(b, 6), bit(b, 5), bit(b, 4)] }
}

/// A decoded frame header.
///
/// Each field is `None` until a decode reaches it. A decode that runs out of
/// bytes stops where it is, so the fields it got to stay readable.
#[derive(Debug, PartialEq)]
pub struct Frame {
    /// The first header byte.
    pub head: Option<Head>,
    /// The masking key, present only on masked frames.
    pub mask: Option<[u8; 4]>,
    /// The length of the payload that follows the header.
    pub payload_len: Option<u64>,
}

/// A [`Frame`] as a mathematical value.
pub struct FrameView {
    pub head: Option<HeadView>,
    pub mask: Option<Seq<u8>>,
    pub payload_len: Option<u64>,
}

impl View for Frame {
    type V = FrameView;

    open spec fn view(&self) -> FrameView {
        FrameView {
            head: match self.head {
                Some(h) => Some(h@),
                None => None,
            },
            mask: match self.mask {
                Some(m) => Some(m@),
                None => None,
            },
            payload_len: self.payload_len,
        }
    }
}

/// A frame with no field decoded.
pub open spec fn empty_view() -> FrameView {
    FrameView { head: None, mask: None, payload_len: None }
}

/// The 16-bit unsigned integer that the first two bytes of `b` hold, most
/// significant byte first.
pub open spec fn be_u16(b: Seq<u8>) -> u16 {
    ((b[0] as u16) << 8u16) | (b[1] as u16)
}

/// The 64-bit unsigned integer that the first eight bytes of `b` hold, most
/// significant byte first.
pub open spec fn be_u64(b: Seq<u8>) -> u64 {
    ((b[0] as u64) << 56u64) | ((b[1] as u64) << 48u64) | ((b[2] as u64) << 40u64) | ((
    b[3] as u64) << 32u64) | ((b[4] as u64) << 24u64) | ((b[5] as u64) << 16u64) | ((
    b[6] as u64) << 8u64) | (b[7] as u64)
}

/// The seven-bit base length code of a header whose second byte is `b`.
pub open spec fn length_code(b: u8) -> u8 {
    b & 0x7F
}

/// How many extended-length bytes follow the base length code `code`.
pub open spec fn ext_len_size(code: u8) -> nat {
    if code == 126 {
        2
    } else if code == 127 {
        8
    } else {
        0
    }
}

/// Where the masking key, if any, starts in a header whose first two bytes
/// are those of `b`.
pub open spec fn mask_start(b: Seq<u8>) -> nat {
    2 + ext_len_size(length_code(b[1]))
}

/// The length of the whole header whose first two bytes are those of `b`.
pub open spec fn header_len(b: Seq<u8>) -> nat {
    mask_start(b) + if high_bit(b[1]) {
        4nat
    } else {
        0nat
    }
}

/// The payload length that a header starting with `b` gives, once its
/// extended length is in `b`.
pub open spec fn payload_len_of(b: Seq<u8>) -> u64 {
    let code = length_code(b[1]);
    if code == 126 {
        be_u16(b.subrange(2, 4)) as u64
    } else if code == 127 {
        be_u64(b.subrange(2, 10))
    } else {
        code as u64
    }
}

/// The masking key of a masked header that `b` holds whole.
pub open spec fn mask_of(b: Seq<u8>) -> Seq<u8> {
    b.subrange(mask_start(b) as int, mask_start(b) + 4int)
}

/// Whether `b` holds a whole header.
pub open spec fn holds_header(b: Seq<u8>) -> bool {
    b.len() >= 2 && b.len() >= header_len(b)
}

/// The status that decoding `b` reports.
pub open spec fn decode_status(b: Seq<u8>) -> Status {
    if holds_header(b) {
        Status::Complete(header_len(b) as usize)
    } else {
        Status::Partial
    }
}

/// The frame `f` after decoding `b` into it: each field that `b` is long
/// enough to give is replaced, the others keep their value in `f`.
pub open spec fn decode_view(f: FrameView, b: Seq<u8>) -> FrameView {
    FrameView {
        head: if b.len() >= 1 {
            Some(head_of(b[0]))
        } else {
            f.head
        },
        mask: if holds_header(b) && high_bit(b[1]) {
            Some(mask_of(b))
        } else {
            f.mask
        },
        payload_len: if b.len() >= 2 && b.len() >= mask_start(b) {
            Some(payload_len_of(b))
        } else {
            f.payload_len
        },
    }
}

/// Relies on byteorder's `BigEndian::read_u16`: the first two bytes of `buf`,
/// most significant first. It panics on fewer than two bytes.
#[verifier::external_body]
fn read_be_u16(buf: &[u8]) -> (r: u16)
    requires
        buf@.len() >= 2,
    ensures
        r == be_u16(buf@),
{
    <byteorder::BigEndian as byteorder::ByteOrder>::read_u16(buf)
}

/// Relies on byteorder's `BigEndian::read_u64`: the first eight bytes of
/// `buf`, most significant first. It panics on fewer than eight bytes.
#[verifier::external_body]
fn read_be_u64(buf: &[u8]) -> (r: u64)
    requires
        buf@.len() >= 8,
    ensures
        r == be_u64(buf@),
{
    <byteorder::BigEndian as byteorder::ByteOrder>::read_u64(buf)
}

fn first_bit(byte: u8) -> (r: bool)
    ensures
        r == high_bit(byte),
{
    byte >> 7 == 1u8
}

impl Frame {
    /// A frame with no field decoded.
    pub fn empty() -> (r: Self)
        ensures
            r@ == empty_view(),
    {
        Frame { head: None, mask: None, payload_len: None }
    }

    /// Decodes the header at the start of `buf` into this frame.
    ///
    /// Returns `Complete` with the header's length when `buf` holds it whole,
    /// and `Partial` otherwise. Each field is written as soon as its bytes
    /// have been read, so on `Partial` the fields reached keep their new
    /// value and the others their old one.
    ///
    /// A base length code of 126 is followed by a 16-bit length and 127 by a
    /// 64-bit one, both big-endian; the top bit of the 64-bit length is not
    /// required to be zero. The masking key is only extracted, never applied.
    pub fn decode(&mut self, buf: &[u8]) -> (r: Status)
        ensures
            r == decode_status(buf@),
            final(self)@ == decode_view(old(self)@, buf@),
    {
        let mut bytes = Bytes::new(buf);

        let first = match bytes.next() {
            Some(b) => b,
            None => return Status::Partial,
        };
        let rsv = [(first >> 6) & 1 == 1, (first >> 5) & 1 == 1, (first >> 4) & 1 == 1];
        assert(rsv@ =~= head_of(first).rsv);
        self.head = Some(Head { op: Opcode::from(first & 0xF), finished: first_bit(first), rsv });

        let second = match bytes.next() {
            Some(b) => b,
            None => return Status::Partial,
        };
        let code = second & 0x7F;
        let len: u64 = if code == 126 {
            match bytes.slice_to(2) {
                Some(s) => read_be_u16(s) as u64,
                None => return Status::Partial,
            }
        } else if code == 127 {
            match bytes.slice_to(8) {
                Some(s) => read_be_u64(s),
                None => return Status::Partial,
            }
        } else {
            code as u64
        };
        self.payload_len = Some(len);

        if first_bit(second) {
            match bytes.slice_to(4) {
                Some(s) => {
                    let mask = [s[0], s[1], s[2], s[3]];
                    assert(mask@ =~= mask_of(buf@));
                    self.mask = Some(mask);
                },
                None => return Status::Partial,
            }
        }
        Status::Complete(bytes.pos())
    }
}

} // verus!
