//! Properties of header decoding, stated over the model that
//! [`Frame::decode`](crate::Frame::decode) is proved against.
use vstd::prelude::*;

use crate::{
    decode_status, decode_view, head_of, header_len, high_bit, holds_header, length_code,
    mask_of, mask_start, opcode_of, payload_len_of, be_u16, be_u64, FrameView, Opcode, Status,
};

verus! {

/// The two bytes of `v`, most significant first.
pub open spec fn u16_be_bytes(v: u16) -> Seq<u8> {
    seq![(v >> 8u16) as u8, v as u8]
}

/// The eight bytes of `v`, most significant first.
pub open spec fn u64_be_bytes(v: u64) -> Seq<u8> {
    seq![
        (v >> 56u64) as u8,
        (v >> 48u64) as u8,
        (v >> 40u64) as u8,
        (v >> 32u64) as u8,
        (v >> 24u64) as u8,
        (v >> 16u64) as u8,
        (v >> 8u64) as u8,
        v as u8,
    ]
}

/// An unmasked frame whose base length code `L` is at most 125 has a header
/// of exactly two bytes, so the whole frame spans `2 + L` bytes; its payload
/// length is `L`, and its opcode follows the opcode table, with every value
/// the protocol leaves undefined read as `Reserved`.
pub proof fn lemma_short_unmasked_frame(f: FrameView, b: Seq<u8>)
    requires
        b.len() >= 2,
        !high_bit(b[1]),
        length_code(b[1]) <= 125,
    ensures
        decode_status(b) == Status::Complete(2),
        decode_view(f, b).payload_len == Some(length_code(b[1]) as u64),
        decode_view(f, b).head == Some(head_of(b[0])),
        head_of(b[0]).op == opcode_of(b[0] & 0xF),
        (b[0] & 0xF) == 0 ==> head_of(b[0]).op == Opcode::Continue,
        (b[0] & 0xF) == 1 ==> head_of(b[0]).op == Opcode::Text,
        (b[0] & 0xF) == 2 ==> head_of(b[0]).op == Opcode::Binary,
        (b[0] & 0xF) == 8 ==> head_of(b[0]).op == Opcode::Close,
        (b[0] & 0xF) == 9 ==> head_of(b[0]).op == Opcode::Ping,
        (b[0] & 0xF) == 10 ==> head_of(b[0]).op == Opcode::Pong,
        (3 <= (b[0] & 0xF) <= 7 || 11 <= (b[0] & 0xF) <= 15) ==> head_of(b[0]).op
            == Opcode::Reserved,
        decode_view(f, b).mask == f.mask,
{
}

/// A buffer cut short of the header it begins with decodes as `Partial`,
/// whatever the length of the cut.
pub proof fn lemma_truncated_header_is_partial(b: Seq<u8>, k: nat)
    requires
        decode_status(b) is Complete,
        k < header_len(b),
    ensures
        decode_status(b.take(k as int)) == Status::Partial,
{
    if k >= 2 {
        assert(b.take(k as int)[1] == b[1]);
    }
}

/// A decode never clears a field: what was set before the call is still set
/// after it, whether the call completes or not.
pub proof fn lemma_decode_clears_nothing(f: FrameView, b: Seq<u8>)
    ensures
        f.head is Some ==> decode_view(f, b).head is Some,
        f.mask is Some ==> decode_view(f, b).mask is Some,
        f.payload_len is Some ==> decode_view(f, b).payload_len is Some,
{
}

/// Decoding a prefix of a buffer sets each field either not at all or to the
/// value that decoding the whole buffer gives it: a `Partial` result shows
/// only values that more bytes will not change.
pub proof fn lemma_prefix_agrees(f: FrameView, b: Seq<u8>, k: nat)
    requires
        k <= b.len(),
    ensures
        decode_view(f, b.take(k as int)).head == f.head || decode_view(f, b.take(k as int)).head
            == decode_view(f, b).head,
        decode_view(f, b.take(k as int)).mask == f.mask || decode_view(f, b.take(k as int)).mask
            == decode_view(f, b).mask,
        decode_view(f, b.take(k as int)).payload_len == f.payload_len || decode_view(
            f,
            b.take(k as int),
        ).payload_len == decode_view(f, b).payload_len,
{
    let p = b.take(k as int);
    if k >= 2 {
        assert(p[0] == b[0] && p[1] == b[1]);
        if k >= mask_start(b) {
            if length_code(b[1]) == 126 {
                assert(p.subrange(2, 4) =~= b.subrange(2, 4));
            } else if length_code(b[1]) == 127 {
                assert(p.subrange(2, 10) =~= b.subrange(2, 10));
            }
            assert(payload_len_of(p) == payload_len_of(b));
        }
        if holds_header(p) && high_bit(b[1]) {
            assert(mask_of(p) =~= mask_of(b));
        }
    } else if k == 1 {
        assert(p[0] == b[0]);
    }
}

/// A header with base length code 126 followed by the two bytes of `v`
/// decodes to payload length `v`.
pub proof fn lemma_extended_length_u16(
    f: FrameView,
    first: u8,
    second: u8,
    v: u16,
    rest: Seq<u8>,
)
    requires
        length_code(second) == 126,
    ensures
        decode_view(f, seq![first, second] + u16_be_bytes(v) + rest).payload_len == Some(
            v as u64,
        ),
{
    let b = seq![first, second] + u16_be_bytes(v) + rest;
    assert(b.subrange(2, 4) =~= u16_be_bytes(v));
    assert(((((v >> 8u16) as u8) as u16) << 8u16) | ((v as u8) as u16) == v) by (bit_vector);
}

/// A header with base length code 127 followed by the eight bytes of `v`
/// decodes to payload length `v`.
pub proof fn lemma_extended_length_u64(
    f: FrameView,
    first: u8,
    second: u8,
    v: u64,
    rest: Seq<u8>,
)
    requires
        length_code(second) == 127,
    ensures
        decode_view(f, seq![first, second] + u64_be_bytes(v) + rest).payload_len == Some(v),
{
    let b = seq![first, second] + u64_be_bytes(v) + rest;
    assert(b.subrange(2, 10) =~= u64_be_bytes(v));
    assert(((((v >> 56u64) as u8) as u64) << 56u64) | ((((v >> 48u64) as u8) as u64) << 48u64)
        | ((((v >> 40u64) as u8) as u64) << 40u64) | ((((v >> 32u64) as u8) as u64) << 32u64)
        | ((((v >> 24u64) as u8) as u64) << 24u64) | ((((v >> 16u64) as u8) as u64) << 16u64)
        | ((((v >> 8u64) as u8) as u64) << 8u64) | ((v as u8) as u64) == v) by (bit_vector);
}

/// A masked header held whole yields the four bytes that end it as its
/// masking key; the mask is taken as it stands and nothing is applied to
/// it. An unmasked header leaves the mask field as it was, so a fresh frame
/// keeps it absent.
pub proof fn lemma_mask_extraction(f: FrameView, b: Seq<u8>)
    requires
        b.len() >= 2,
    ensures
        high_bit(b[1]) && holds_header(b) ==> decode_view(f, b).mask == Some(
            b.subrange(header_len(b) - 4, header_len(b) as int),
        ) && mask_of(b).len() == 4,
        !high_bit(b[1]) ==> decode_view(f, b).mask == f.mask,
        !high_bit(b[1]) && f.mask is None ==> decode_view(f, b).mask is None,
{
}

} // verus!
