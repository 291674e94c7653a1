//! The length-prefixed binary wire protocol: per-message framing is
//! `[u32 packet_type][u32 payload_length][payload]`, all integers big-endian.

use vstd::prelude::*;

verus! {

// ---------------------------------------------------------------------------
// Big-endian integer layouts.
// ---------------------------------------------------------------------------

/// The four bytes of `v`, most significant first.
pub open spec fn spec_u32_be(v: u32) -> Seq<u8> {
    seq![(v >> 24) as u8, (v >> 16) as u8, (v >> 8) as u8, v as u8]
}

/// The eight bytes of `v`, most significant first.
pub open spec fn spec_u64_be(v: u64) -> Seq<u8> {
    seq![
        (v >> 56) as u8,
        (v >> 48) as u8,
        (v >> 40) as u8,
        (v >> 32) as u8,
        (v >> 24) as u8,
        (v >> 16) as u8,
        (v >> 8) as u8,
        v as u8,
    ]
}

/// Two's-complement big-endian layout of a signed 32-bit value.
pub open spec fn spec_i32_be(v: i32) -> Seq<u8> {
    spec_u32_be(v as u32)
}

/// Two's-complement big-endian layout of a signed 64-bit value.
pub open spec fn spec_i64_be(v: i64) -> Seq<u8> {
    spec_u64_be(v as u64)
}

/// The value read back from four big-endian bytes.
pub open spec fn spec_u32_from_be(s: Seq<u8>) -> u32
    recommends
        s.len() == 4,
{
    ((s[0] as u32) << 24) | ((s[1] as u32) << 16) | ((s[2] as u32) << 8) | (s[3] as u32)
}

/// The value read back from eight big-endian bytes.
pub open spec fn spec_u64_from_be(s: Seq<u8>) -> u64
    recommends
        s.len() == 8,
{
    ((s[0] as u64) << 56) | ((s[1] as u64) << 48) | ((s[2] as u64) << 40) | ((s[3] as u64) << 32)
        | ((s[4] as u64) << 24) | ((s[5] as u64) << 16) | ((s[6] as u64) << 8) | (s[7] as u64)
}

/// Reading the four bytes of `v` yields `v` again.
pub proof fn lemma_u32_be_round_trip(v: u32)
    ensures
        spec_u32_from_be(spec_u32_be(v)) == v,
{
    let b0 = (v >> 24) as u8;
    let b1 = (v >> 16) as u8;
    let b2 = (v >> 8) as u8;
    let b3 = v as u8;
    assert(((b0 as u32) << 24) | ((b1 as u32) << 16) | ((b2 as u32) << 8) | (b3 as u32) == v)
        by (bit_vector)
        requires
            b0 == (v >> 24) as u8,
            b1 == (v >> 16) as u8,
            b2 == (v >> 8) as u8,
            b3 == v as u8,
    ;
}

/// Reading the eight bytes of `v` yields `v` again.
pub proof fn lemma_u64_be_round_trip(v: u64)
    ensures
        spec_u64_from_be(spec_u64_be(v)) == v,
{
    let b0 = (v >> 56) as u8;
    let b1 = (v >> 48) as u8;
    let b2 = (v >> 40) as u8;
    let b3 = (v >> 32) as u8;
    let b4 = (v >> 24) as u8;
    let b5 = (v >> 16) as u8;
    let b6 = (v >> 8) as u8;
    let b7 = v as u8;
    assert(((b0 as u64) << 56) | ((b1 as u64) << 48) | ((b2 as u64) << 40) | ((b3 as u64) << 32)
        | ((b4 as u64) << 24) | ((b5 as u64) << 16) | ((b6 as u64) << 8) | (b7 as u64) == v)
        by (bit_vector)
        requires
            b0 == (v >> 56) as u8,
            b1 == (v >> 48) as u8,
            b2 == (v >> 40) as u8,
            b3 == (v >> 32) as u8,
            b4 == (v >> 24) as u8,
            b5 == (v >> 16) as u8,
            b6 == (v >> 8) as u8,
            b7 == v as u8,
    ;
}

/// A signed 32-bit value survives the unsigned two's-complement detour.
pub proof fn lemma_i32_be_round_trip(v: i32)
    ensures
        spec_u32_from_be(spec_i32_be(v)) as i32 == v,
{
    lemma_u32_be_round_trip(v as u32);
    assert((v as u32) as i32 == v) by (bit_vector);
}

/// A signed 64-bit value survives the unsigned two's-complement detour.
pub proof fn lemma_i64_be_round_trip(v: i64)
    ensures
        spec_u64_from_be(spec_i64_be(v)) as i64 == v,
{
    lemma_u64_be_round_trip(v as u64);
    assert((v as u64) as i64 == v) by (bit_vector);
}

/// Appends the big-endian bytes of `v`.
pub fn push_u32_be(out: &mut Vec<u8>, v: u32)
    ensures
        final(out)@ == old(out)@ + spec_u32_be(v),
{
    out.push(#[verifier::truncate] ((v >> 24) as u8));
    out.push(#[verifier::truncate] ((v >> 16) as u8));
    out.push(#[verifier::truncate] ((v >> 8) as u8));
    out.push(#[verifier::truncate] (v as u8));
    proof {
        assert(out@ =~= old(out)@ + spec_u32_be(v));
    }
}

/// Appends the big-endian bytes of `v`.
pub fn push_u64_be(out: &mut Vec<u8>, v: u64)
    ensures
        final(out)@ == old(out)@ + spec_u64_be(v),
{
    out.push(#[verifier::truncate] ((v >> 56) as u8));
    out.push(#[verifier::truncate] ((v >> 48) as u8));
    out.push(#[verifier::truncate] ((v >> 40) as u8));
    out.push(#[verifier::truncate] ((v >> 32) as u8));
    out.push(#[verifier::truncate] ((v >> 24) as u8));
    out.push(#[verifier::truncate] ((v >> 16) as u8));
    out.push(#[verifier::truncate] ((v >> 8) as u8));
    out.push(#[verifier::truncate] (v as u8));
    proof {
        assert(out@ =~= old(out)@ + spec_u64_be(v));
    }
}

/// Appends the big-endian two's-complement bytes of `v`.
pub fn push_i32_be(out: &mut Vec<u8>, v: i32)
    ensures
        final(out)@ == old(out)@ + spec_i32_be(v),
{
    push_u32_be(out, #[verifier::truncate] (v as u32));
}

/// Appends the big-endian two's-complement bytes of `v`.
pub fn push_i64_be(out: &mut Vec<u8>, v: i64)
    ensures
        final(out)@ == old(out)@ + spec_i64_be(v),
{
    push_u64_be(out, #[verifier::truncate] (v as u64));
}

/// Reads the big-endian `u32` at offset `at`.
pub fn read_u32_be(buf: &[u8], at: usize) -> (r: u32)
    requires
        at + 4 <= buf.len(),
    ensures
        r == spec_u32_from_be(buf@.subrange(at as int, at as int + 4)),
{
    let b0 = *vstd::slice::slice_index_get(buf, at);
    let b1 = *vstd::slice::slice_index_get(buf, at + 1);
    let b2 = *vstd::slice::slice_index_get(buf, at + 2);
    let b3 = *vstd::slice::slice_index_get(buf, at + 3);
    ((b0 as u32) << 24) | ((b1 as u32) << 16) | ((b2 as u32) << 8) | (b3 as u32)
}

/// Reads the big-endian `u64` at offset `at`.
pub fn read_u64_be(buf: &[u8], at: usize) -> (r: u64)
    requires
        at + 8 <= buf.len(),
    ensures
        r == spec_u64_from_be(buf@.subrange(at as int, at as int + 8)),
{
    let b0 = *vstd::slice::slice_index_get(buf, at);
    let b1 = *vstd::slice::slice_index_get(buf, at + 1);
    let b2 = *vstd::slice::slice_index_get(buf, at + 2);
    let b3 = *vstd::slice::slice_index_get(buf, at + 3);
    let b4 = *vstd::slice::slice_index_get(buf, at + 4);
    let b5 = *vstd::slice::slice_index_get(buf, at + 5);
    let b6 = *vstd::slice::slice_index_get(buf, at + 6);
    let b7 = *vstd::slice::slice_index_get(buf, at + 7);
    ((b0 as u64) << 56) | ((b1 as u64) << 48) | ((b2 as u64) << 40) | ((b3 as u64) << 32)
        | ((b4 as u64) << 24) | ((b5 as u64) << 16) | ((b6 as u64) << 8) | (b7 as u64)
}

} // verus!

verus! {

// ---------------------------------------------------------------------------
// Packet model.
// ---------------------------------------------------------------------------

/// Why a byte buffer was rejected by the parser.
#[derive(Clone, Copy, Debug, PartialEq, Eq, Structural)]
pub enum WireError {
    /// Fewer bytes than the header, or than the announced payload length.
    Truncated,
    /// A packet type outside the protocol.
    UnknownType,
    /// A payload whose layout does not match its packet type.
    Malformed,
}

/// One protocol message. Integers travel big-endian; `params` are
/// length-prefixed blobs carried by the two configuration packets.
pub enum Packet {
    Video { timestamp_ms: i64, data: Vec<u8> },
    Audio { timestamp_ms: i64, data: Vec<u8> },
    Timestamp { timestamp_ms: i64 },
    Configure { width: i32, height: i32, params: Vec<Vec<u8>> },
    CursorPosition { x: i32, y: i32, visible: bool },
    CursorImage { crc32: u32, data: Vec<u8> },
    AudioConfigure { channels: u8, sample_rate: i32, params: Vec<Vec<u8>> },
}

/// Mathematical image of a [`Packet`].
pub ghost enum PacketView {
    Video { timestamp_ms: i64, data: Seq<u8> },
    Audio { timestamp_ms: i64, data: Seq<u8> },
    Timestamp { timestamp_ms: i64 },
    Configure { width: i32, height: i32, params: Seq<Seq<u8>> },
    CursorPosition { x: i32, y: i32, visible: bool },
    CursorImage { crc32: u32, data: Seq<u8> },
    AudioConfigure { channels: u8, sample_rate: i32, params: Seq<Seq<u8>> },
}

impl View for Packet {
    type V = PacketView;

    open spec fn view(&self) -> PacketView {
        match *self {
            Packet::Video { timestamp_ms, data } => PacketView::Video {
                timestamp_ms,
                data: data@,
            },
            Packet::Audio { timestamp_ms, data } => PacketView::Audio {
                timestamp_ms,
                data: data@,
            },
            Packet::Timestamp { timestamp_ms } => PacketView::Timestamp { timestamp_ms },
            Packet::Configure { width, height, params } => PacketView::Configure {
                width,
                height,
                params: params@.map_values(|v: Vec<u8>| v@),
            },
            Packet::CursorPosition { x, y, visible } => PacketView::CursorPosition {
                x,
                y,
                visible,
            },
            Packet::CursorImage { crc32, data } => PacketView::CursorImage { crc32, data: data@ },
            Packet::AudioConfigure { channels, sample_rate, params } => {
                PacketView::AudioConfigure {
                    channels,
                    sample_rate,
                    params: params@.map_values(|v: Vec<u8>| v@),
                }
            },
        }
    }
}

/// The `packet_type` header field of each message.
pub open spec fn spec_tag(p: PacketView) -> u32 {
    match p {
        PacketView::Video { .. } => 0,
        PacketView::Audio { .. } => 1,
        PacketView::Timestamp { .. } => 2,
        PacketView::Configure { .. } => 3,
        PacketView::CursorPosition { .. } => 4,
        PacketView::CursorImage { .. } => 5,
        PacketView::AudioConfigure { .. } => 6,
    }
}

/// Length-prefixed concatenation of parameter blobs: `[u32 len][bytes]` each.
pub open spec fn spec_blobs(params: Seq<Seq<u8>>) -> Seq<u8>
    decreases params.len(),
{
    if params.len() == 0 {
        Seq::empty()
    } else {
        spec_u32_be(params[0].len() as u32) + params[0] + spec_blobs(params.drop_first())
    }
}

/// The payload bytes of each message.
pub open spec fn spec_payload(p: PacketView) -> Seq<u8> {
    match p {
        PacketView::Video { timestamp_ms, data } => spec_i64_be(timestamp_ms) + data,
        PacketView::Audio { timestamp_ms, data } => spec_i64_be(timestamp_ms) + data,
        PacketView::Timestamp { timestamp_ms } => spec_i64_be(timestamp_ms),
        PacketView::Configure { width, height, params } => spec_i32_be(width) + spec_i32_be(
            height,
        ) + spec_blobs(params),
        PacketView::CursorPosition { x, y, visible } => spec_i32_be(x) + spec_i32_be(y)
            + spec_u32_be(if visible { 1 } else { 0 }),
        PacketView::CursorImage { crc32, data } => spec_u32_be(crc32) + data,
        PacketView::AudioConfigure { channels, sample_rate, params } => seq![channels]
            + spec_i32_be(sample_rate) + spec_blobs(params),
    }
}

/// The full framed message: `[u32 packet_type][u32 payload_length][payload]`.
pub open spec fn spec_encode(p: PacketView) -> Seq<u8> {
    spec_u32_be(spec_tag(p)) + spec_u32_be(spec_payload(p).len() as u32) + spec_payload(p)
}

/// Every parameter blob fits its 32-bit length prefix.
pub open spec fn blob_list_wf(params: Seq<Seq<u8>>) -> bool {
    forall|i: int| 0 <= i < params.len() ==> #[trigger] params[i].len() <= u32::MAX
}

/// A packet that the framing can carry: the payload fits its 32-bit length
/// field, and so does each parameter blob.
pub open spec fn packet_wf(p: PacketView) -> bool {
    &&& spec_payload(p).len() <= u32::MAX
    &&& match p {
        PacketView::Configure { params, .. } => blob_list_wf(params),
        PacketView::AudioConfigure { params, .. } => blob_list_wf(params),
        _ => true,
    }
}

// ---------------------------------------------------------------------------
// Encoding.
// ---------------------------------------------------------------------------

/// Appending one blob to the list appends its length prefix and bytes.
pub proof fn lemma_blobs_push(s: Seq<Seq<u8>>, x: Seq<u8>)
    ensures
        spec_blobs(s.push(x)) == spec_blobs(s) + spec_u32_be(x.len() as u32) + x,
    decreases s.len(),
{
    if s.len() == 0 {
        let t = s.push(x).drop_first();
        assert(t.len() == 0);
        assert(spec_blobs(t) == Seq::<u8>::empty());
        assert(spec_blobs(s) == Seq::<u8>::empty());
        assert(s.push(x)[0] == x);
        assert(spec_blobs(s.push(x)) == spec_u32_be(x.len() as u32) + x + spec_blobs(t));
        assert(spec_blobs(s.push(x)) =~= spec_blobs(s) + spec_u32_be(x.len() as u32) + x);
    } else {
        lemma_blobs_push(s.drop_first(), x);
        assert(s.push(x).drop_first() =~= s.drop_first().push(x));
        assert(s.push(x)[0] == s[0]);
        assert(spec_blobs(s.push(x)) == spec_u32_be(s[0].len() as u32) + s[0] + spec_blobs(
            s.drop_first().push(x),
        ));
        assert(spec_blobs(s.push(x)) =~= spec_blobs(s) + spec_u32_be(x.len() as u32) + x);
    }
}

/// Appends `bytes` unchanged.
pub fn push_bytes(out: &mut Vec<u8>, bytes: &[u8])
    ensures
        final(out)@ == old(out)@ + bytes@,
{
    out.extend_from_slice(bytes);
    proof {
        assert(out@ =~= old(out)@ + bytes@);
    }
}

/// The header tag of `p`.
fn tag_of(p: &Packet) -> (r: u32)
    ensures
        r == spec_tag(p@),
{
    match p {
        Packet::Video { .. } => 0,
        Packet::Audio { .. } => 1,
        Packet::Timestamp { .. } => 2,
        Packet::Configure { .. } => 3,
        Packet::CursorPosition { .. } => 4,
        Packet::CursorImage { .. } => 5,
        Packet::AudioConfigure { .. } => 6,
    }
}

/// Appends the blob list in order, each behind its length prefix.
fn push_blobs(out: &mut Vec<u8>, params: &Vec<Vec<u8>>)
    requires
        blob_list_wf(params@.map_values(|v: Vec<u8>| v@)),
    ensures
        final(out)@ == old(out)@ + spec_blobs(params@.map_values(|v: Vec<u8>| v@)),
{
    let ghost views = params@.map_values(|v: Vec<u8>| v@);
    let ghost base = out@;
    let mut i: usize = 0;
    while i < params.len()
        invariant
            i <= params.len(),
            views == params@.map_values(|v: Vec<u8>| v@),
            blob_list_wf(views),
            out@ == base + spec_blobs(views.take(i as int)),
        decreases params.len() - i,
    {
        let blob = &params[i];
        push_u32_be(out, blob.len() as u32);
        push_bytes(out, blob.as_slice());
        proof {
            lemma_blobs_push(views.take(i as int), views[i as int]);
            assert(views.take(i as int).push(views[i as int]) =~= views.take(i as int + 1));
            assert(out@ =~= base + spec_blobs(views.take(i as int + 1)));
        }
        i = i + 1;
    }
    proof {
        assert(views.take(params@.len() as int) =~= views);
    }
}

/// The payload bytes of `p`.
fn encode_payload(p: &Packet) -> (r: Vec<u8>)
    requires
        packet_wf(p@),
    ensures
        r@ == spec_payload(p@),
{
    let mut out: Vec<u8> = Vec::new();
    match p {
        Packet::Video { timestamp_ms, data } => {
            push_i64_be(&mut out, *timestamp_ms);
            push_bytes(&mut out, data.as_slice());
        },
        Packet::Audio { timestamp_ms, data } => {
            push_i64_be(&mut out, *timestamp_ms);
            push_bytes(&mut out, data.as_slice());
        },
        Packet::Timestamp { timestamp_ms } => {
            push_i64_be(&mut out, *timestamp_ms);
        },
        Packet::Configure { width, height, params } => {
            push_i32_be(&mut out, *width);
            push_i32_be(&mut out, *height);
            push_blobs(&mut out, params);
        },
        Packet::CursorPosition { x, y, visible } => {
            push_i32_be(&mut out, *x);
            push_i32_be(&mut out, *y);
            push_u32_be(&mut out, if *visible { 1 } else { 0 });
        },
        Packet::CursorImage { crc32, data } => {
            push_u32_be(&mut out, *crc32);
            push_bytes(&mut out, data.as_slice());
        },
        Packet::AudioConfigure { channels, sample_rate, params } => {
            out.push(*channels);
            push_i32_be(&mut out, *sample_rate);
            push_blobs(&mut out, params);
        },
    }
    proof {
        assert(out@ =~= spec_payload(p@));
    }
    out
}

/// Serializes one message into its framed wire form.
pub fn encode_packet(p: &Packet) -> (r: Vec<u8>)
    requires
        packet_wf(p@),
    ensures
        r@ == spec_encode(p@),
{
    let mut payload = encode_payload(p);
    let mut out: Vec<u8> = Vec::new();
    push_u32_be(&mut out, tag_of(p));
    push_u32_be(&mut out, payload.len() as u32);
    out.append(&mut payload);
    proof {
        assert(out@ =~= spec_encode(p@));
    }
    out
}

} // verus!

verus! {

// ---------------------------------------------------------------------------
// Parsing.
// ---------------------------------------------------------------------------

/// Splits a sequence of `[u32 len][bytes]` blobs; `None` when the bytes do
/// not divide exactly into prefixed blobs.
pub open spec fn spec_parse_blobs(s: Seq<u8>) -> Option<Seq<Seq<u8>>>
    decreases s.len(),
{
    if s.len() == 0 {
        Some(Seq::empty())
    } else if s.len() < 4 {
        None
    } else {
        let l = spec_u32_from_be(s.subrange(0, 4)) as int;
        if s.len() < 4 + l {
            None
        } else {
            match spec_parse_blobs(s.subrange(4 + l, s.len() as int)) {
                Some(rest) => Some(seq![s.subrange(4, 4 + l)] + rest),
                None => None,
            }
        }
    }
}

/// Reads a payload of the given packet type back into a message.
pub open spec fn spec_parse_payload(tag: u32, p: Seq<u8>) -> Result<PacketView, WireError> {
    if tag == 0 {
        if p.len() >= 8 {
            Ok(PacketView::Video {
                timestamp_ms: spec_u64_from_be(p.subrange(0, 8)) as i64,
                data: p.subrange(8, p.len() as int),
            })
        } else {
            Err(WireError::Malformed)
        }
    } else if tag == 1 {
        if p.len() >= 8 {
            Ok(PacketView::Audio {
                timestamp_ms: spec_u64_from_be(p.subrange(0, 8)) as i64,
                data: p.subrange(8, p.len() as int),
            })
        } else {
            Err(WireError::Malformed)
        }
    } else if tag == 2 {
        if p.len() == 8 {
            Ok(PacketView::Timestamp { timestamp_ms: spec_u64_from_be(p.subrange(0, 8)) as i64 })
        } else {
            Err(WireError::Malformed)
        }
    } else if tag == 3 {
        if p.len() >= 8 {
            match spec_parse_blobs(p.subrange(8, p.len() as int)) {
                Some(params) => Ok(PacketView::Configure {
                    width: spec_u32_from_be(p.subrange(0, 4)) as i32,
                    height: spec_u32_from_be(p.subrange(4, 8)) as i32,
                    params,
                }),
                None => Err(WireError::Malformed),
            }
        } else {
            Err(WireError::Malformed)
        }
    } else if tag == 4 {
        if p.len() == 12 {
            let v = spec_u32_from_be(p.subrange(8, 12));
            if v == 0 || v == 1 {
                Ok(PacketView::CursorPosition {
                    x: spec_u32_from_be(p.subrange(0, 4)) as i32,
                    y: spec_u32_from_be(p.subrange(4, 8)) as i32,
                    visible: v == 1,
                })
            } else {
                Err(WireError::Malformed)
            }
        } else {
            Err(WireError::Malformed)
        }
    } else if tag == 5 {
        if p.len() >= 4 {
            Ok(PacketView::CursorImage {
                crc32: spec_u32_from_be(p.subrange(0, 4)),
                data: p.subrange(4, p.len() as int),
            })
        } else {
            Err(WireError::Malformed)
        }
    } else if tag == 6 {
        if p.len() >= 5 {
            match spec_parse_blobs(p.subrange(5, p.len() as int)) {
                Some(params) => Ok(PacketView::AudioConfigure {
                    channels: p[0],
                    sample_rate: spec_u32_from_be(p.subrange(1, 5)) as i32,
                    params,
                }),
                None => Err(WireError::Malformed),
            }
        } else {
            Err(WireError::Malformed)
        }
    } else {
        Err(WireError::UnknownType)
    }
}

/// Reads one framed message from the front of `bytes`; on success also
/// yields how many bytes the message occupied.
pub open spec fn spec_parse(bytes: Seq<u8>) -> Result<(PacketView, int), WireError> {
    if bytes.len() < 8 {
        Err(WireError::Truncated)
    } else {
        let tag = spec_u32_from_be(bytes.subrange(0, 4));
        let plen = spec_u32_from_be(bytes.subrange(4, 8)) as int;
        if bytes.len() < 8 + plen {
            Err(WireError::Truncated)
        } else {
            match spec_parse_payload(tag, bytes.subrange(8, 8 + plen)) {
                Ok(p) => Ok((p, 8 + plen)),
                Err(e) => Err(e),
            }
        }
    }
}

/// Splits the length-prefixed blobs of a configuration payload.
fn parse_blobs(s: &[u8]) -> (r: Option<Vec<Vec<u8>>>)
    ensures
        match r {
            Some(v) => spec_parse_blobs(s@) == Some(v@.map_values(|b: Vec<u8>| b@)),
            None => spec_parse_blobs(s@) == None::<Seq<Seq<u8>>>,
        },
{
    let n = s.len();
    let mut acc: Vec<Vec<u8>> = Vec::new();
    let mut at: usize = 0;
    proof {
        assert(s@.subrange(0, n as int) =~= s@);
        assert(acc@.map_values(|b: Vec<u8>| b@) =~= Seq::<Seq<u8>>::empty());
        if spec_parse_blobs(s@) is Some {
            assert(Seq::<Seq<u8>>::empty() + spec_parse_blobs(s@)->Some_0 =~= spec_parse_blobs(
                s@,
            )->Some_0);
        }
    }
    while at < n
        invariant
            at <= n,
            n == s@.len(),
            ({
                let tail = spec_parse_blobs(s@.subrange(at as int, n as int));
                let full = spec_parse_blobs(s@);
                match tail {
                    Some(rest) => full == Some(acc@.map_values(|b: Vec<u8>| b@) + rest),
                    None => full == None::<Seq<Seq<u8>>>,
                }
            }),
        decreases n - at,
    {
        let ghost tail_bytes = s@.subrange(at as int, n as int);
        if n - at < 4 {
            proof {
                assert(spec_parse_blobs(tail_bytes) == None::<Seq<Seq<u8>>>);
            }
            return None;
        }
        let l = read_u32_be(s, at) as usize;
        proof {
            assert(tail_bytes.subrange(0, 4) =~= s@.subrange(at as int, at as int + 4));
        }
        if n - at - 4 < l {
            proof {
                assert(spec_parse_blobs(tail_bytes) == None::<Seq<Seq<u8>>>);
            }
            return None;
        }
        let blob_slice = vstd::slice::slice_subrange(s, at + 4, at + 4 + l);
        let blob = vstd::slice::slice_to_vec(blob_slice);
        proof {
            let ghost old_views = acc@.map_values(|b: Vec<u8>| b@);
            assert(tail_bytes.subrange(4, 4 + l as int) =~= s@.subrange(
                at as int + 4,
                at as int + 4 + l as int,
            ));
            assert(tail_bytes.subrange(4 + l as int, tail_bytes.len() as int) =~= s@.subrange(
                at as int + 4 + l as int,
                n as int,
            ));
        }
        let ghost prev_views = acc@.map_values(|b: Vec<u8>| b@);
        acc.push(blob);
        at = at + 4 + l;
        proof {
            assert(acc@.map_values(|b: Vec<u8>| b@) =~= prev_views.push(blob@));
            let tail2 = spec_parse_blobs(s@.subrange(at as int, n as int));
            match tail2 {
                Some(rest) => {
                    assert(spec_parse_blobs(tail_bytes) == Some(seq![blob@] + rest));
                    assert(prev_views + (seq![blob@] + rest) =~= prev_views.push(blob@) + rest);
                },
                None => {
                    assert(spec_parse_blobs(tail_bytes) == None::<Seq<Seq<u8>>>);
                },
            }
        }
    }
    proof {
        assert(s@.subrange(n as int, n as int) =~= Seq::<u8>::empty());
        assert(spec_parse_blobs(s@.subrange(at as int, n as int)) == Some(Seq::<Seq<u8>>::empty()));
        assert(acc@.map_values(|b: Vec<u8>| b@) + Seq::<Seq<u8>>::empty() =~= acc@.map_values(
            |b: Vec<u8>| b@,
        ));
    }
    Some(acc)
}

/// Reads one framed message from the front of `buf`, returning it with the
/// number of bytes it occupied; rejects exactly the buffers the layout
/// rejects.
pub fn parse_packet(buf: &[u8]) -> (r: Result<(Packet, usize), WireError>)
    ensures
        match r {
            Ok(pn) => spec_parse(buf@) == Ok::<_, WireError>((pn.0@, pn.1 as int)),
            Err(e) => spec_parse(buf@) == Err::<(PacketView, int), _>(e),
        },
{
    let n = buf.len();
    if n < 8 {
        return Err(WireError::Truncated);
    }
    let tag = read_u32_be(buf, 0);
    let plen = read_u32_be(buf, 4) as usize;
    proof {
        assert(buf@.subrange(0, 4) =~= buf@.subrange(0 as int, 0 as int + 4));
        assert(buf@.subrange(4, 8) =~= buf@.subrange(4 as int, 4 as int + 4));
    }
    if n - 8 < plen {
        return Err(WireError::Truncated);
    }
    let payload = vstd::slice::slice_subrange(buf, 8, 8 + plen);
    match parse_payload(tag, payload) {
        Ok(p) => Ok((p, 8 + plen)),
        Err(e) => Err(e),
    }
}

/// Reads a payload of the given packet type back into a message.
fn parse_payload(tag: u32, p: &[u8]) -> (r: Result<Packet, WireError>)
    ensures
        match r {
            Ok(pkt) => spec_parse_payload(tag, p@) == Ok::<_, WireError>(pkt@),
            Err(e) => spec_parse_payload(tag, p@) == Err::<PacketView, _>(e),
        },
{
    let n = p.len();
    if tag == 0 || tag == 1 {
        if n < 8 {
            return Err(WireError::Malformed);
        }
        let ts = read_u64_be(p, 0) as i64;
        let data = vstd::slice::slice_to_vec(vstd::slice::slice_subrange(p, 8, n));
        proof {
            assert(p@.subrange(0, 8) =~= p@.subrange(0 as int, 0 as int + 8));
        }
        if tag == 0 {
            Ok(Packet::Video { timestamp_ms: ts, data })
        } else {
            Ok(Packet::Audio { timestamp_ms: ts, data })
        }
    } else if tag == 2 {
        if n != 8 {
            return Err(WireError::Malformed);
        }
        let ts = read_u64_be(p, 0) as i64;
        proof {
            assert(p@.subrange(0, 8) =~= p@.subrange(0 as int, 0 as int + 8));
        }
        Ok(Packet::Timestamp { timestamp_ms: ts })
    } else if tag == 3 {
        if n < 8 {
            return Err(WireError::Malformed);
        }
        let width = read_u32_be(p, 0) as i32;
        let height = read_u32_be(p, 4) as i32;
        proof {
            assert(p@.subrange(0, 4) =~= p@.subrange(0 as int, 0 as int + 4));
            assert(p@.subrange(4, 8) =~= p@.subrange(4 as int, 4 as int + 4));
        }
        match parse_blobs(vstd::slice::slice_subrange(p, 8, n)) {
            Some(params) => Ok(Packet::Configure { width, height, params }),
            None => Err(WireError::Malformed),
        }
    } else if tag == 4 {
        if n != 12 {
            return Err(WireError::Malformed);
        }
        let x = read_u32_be(p, 0) as i32;
        let y = read_u32_be(p, 4) as i32;
        let v = read_u32_be(p, 8);
        proof {
            assert(p@.subrange(0, 4) =~= p@.subrange(0 as int, 0 as int + 4));
            assert(p@.subrange(4, 8) =~= p@.subrange(4 as int, 4 as int + 4));
            assert(p@.subrange(8, 12) =~= p@.subrange(8 as int, 8 as int + 4));
        }
        if v == 0 || v == 1 {
            Ok(Packet::CursorPosition { x, y, visible: v == 1 })
        } else {
            Err(WireError::Malformed)
        }
    } else if tag == 5 {
        if n < 4 {
            return Err(WireError::Malformed);
        }
        let crc32 = read_u32_be(p, 0);
        let data = vstd::slice::slice_to_vec(vstd::slice::slice_subrange(p, 4, n));
        proof {
            assert(p@.subrange(0, 4) =~= p@.subrange(0 as int, 0 as int + 4));
        }
        Ok(Packet::CursorImage { crc32, data })
    } else if tag == 6 {
        if n < 5 {
            return Err(WireError::Malformed);
        }
        let channels = *vstd::slice::slice_index_get(p, 0);
        let sample_rate = read_u32_be(p, 1) as i32;
        proof {
            assert(p@.subrange(1, 5) =~= p@.subrange(1 as int, 1 as int + 4));
        }
        match parse_blobs(vstd::slice::slice_subrange(p, 5, n)) {
            Some(params) => Ok(Packet::AudioConfigure { channels, sample_rate, params }),
            None => Err(WireError::Malformed),
        }
    } else {
        Err(WireError::UnknownType)
    }
}

} // verus!

verus! {

// ---------------------------------------------------------------------------
// Round trip: parsing an encoded message yields the message back.
// ---------------------------------------------------------------------------

/// Splitting the encoded blob list recovers every blob, in order.
#[verifier::rlimit(100)]
#[verifier::spinoff_prover]
pub proof fn lemma_parse_blobs_round_trip(params: Seq<Seq<u8>>)
    requires
        blob_list_wf(params),
    ensures
        spec_parse_blobs(spec_blobs(params)) == Some(params),
    decreases params.len(),
{
    let s = spec_blobs(params);
    if params.len() == 0 {
        assert(s.len() == 0);
        assert(spec_parse_blobs(s) == Some(Seq::<Seq<u8>>::empty()));
        assert(Seq::<Seq<u8>>::empty() =~= params);
    } else {
        let p0 = params[0];
        let rest = params.drop_first();
        assert(p0.len() <= u32::MAX);
        assert forall|i: int| 0 <= i < rest.len() implies #[trigger] rest[i].len()
            <= u32::MAX by {
            assert(rest[i] == params[i + 1]);
        }
        lemma_parse_blobs_round_trip(rest);
        let l32 = p0.len() as u32;
        lemma_u32_be_round_trip(l32);
        assert(s == spec_u32_be(l32) + p0 + spec_blobs(rest));
        assert(s.len() == 4 + p0.len() + spec_blobs(rest).len());
        assert(s.subrange(0, 4) =~= spec_u32_be(l32));
        assert(spec_u32_from_be(s.subrange(0, 4)) as int == p0.len());
        assert(s.subrange(4, 4 + p0.len() as int) =~= p0);
        assert(s.subrange(4 + p0.len() as int, s.len() as int) =~= spec_blobs(rest));
        assert(seq![p0] + rest =~= params);
    }
}

/// Reading a well-formed payload back yields the original message fields.
#[verifier::spinoff_prover]
proof fn lemma_payload_round_trip(p: PacketView)
    requires
        packet_wf(p),
    ensures
        spec_parse_payload(spec_tag(p), spec_payload(p)) == Ok::<_, WireError>(p),
{
    let payload = spec_payload(p);
    match p {
        PacketView::Video { timestamp_ms, data } => {
            lemma_i64_be_round_trip(timestamp_ms);
            assert(payload.subrange(0, 8) =~= spec_i64_be(timestamp_ms));
            assert(payload.subrange(8, payload.len() as int) =~= data);
        },
        PacketView::Audio { timestamp_ms, data } => {
            lemma_i64_be_round_trip(timestamp_ms);
            assert(payload.subrange(0, 8) =~= spec_i64_be(timestamp_ms));
            assert(payload.subrange(8, payload.len() as int) =~= data);
        },
        PacketView::Timestamp { timestamp_ms } => {
            lemma_i64_be_round_trip(timestamp_ms);
            assert(payload.subrange(0, 8) =~= spec_i64_be(timestamp_ms));
        },
        PacketView::Configure { width, height, params } => {
            lemma_i32_be_round_trip(width);
            lemma_i32_be_round_trip(height);
            lemma_parse_blobs_round_trip(params);
            assert(payload.subrange(0, 4) =~= spec_i32_be(width));
            assert(payload.subrange(4, 8) =~= spec_i32_be(height));
            assert(payload.subrange(8, payload.len() as int) =~= spec_blobs(params));
        },
        PacketView::CursorPosition { x, y, visible } => {
            lemma_i32_be_round_trip(x);
            lemma_i32_be_round_trip(y);
            let v: u32 = if visible { 1 } else { 0 };
            lemma_u32_be_round_trip(v);
            assert(payload.len() == 12);
            assert(payload.subrange(0, 4) =~= spec_i32_be(x));
            assert(payload.subrange(4, 8) =~= spec_i32_be(y));
            assert(payload.subrange(8, 12) =~= spec_u32_be(v));
        },
        PacketView::CursorImage { crc32, data } => {
            lemma_u32_be_round_trip(crc32);
            assert(payload.subrange(0, 4) =~= spec_u32_be(crc32));
            assert(payload.subrange(4, payload.len() as int) =~= data);
        },
        PacketView::AudioConfigure { channels, sample_rate, params } => {
            lemma_i32_be_round_trip(sample_rate);
            lemma_parse_blobs_round_trip(params);
            assert(payload[0] == channels);
            assert(payload.subrange(1, 5) =~= spec_i32_be(sample_rate));
            assert(payload.subrange(5, payload.len() as int) =~= spec_blobs(params));
        },
    }
}

/// Parsing a well-formed encoded message yields the message and consumes
/// exactly its framed length: the wire format loses nothing.
#[verifier::spinoff_prover]
pub proof fn lemma_wire_round_trip(p: PacketView)
    requires
        packet_wf(p),
    ensures
        spec_parse(spec_encode(p)) == Ok::<_, WireError>((p, spec_encode(p).len() as int)),
{
    let tag = spec_tag(p);
    let payload = spec_payload(p);
    let bytes = spec_encode(p);
    let plen32 = payload.len() as u32;
    assert(bytes.len() == 8 + payload.len());
    lemma_u32_be_round_trip(tag);
    lemma_u32_be_round_trip(plen32);
    assert(bytes.subrange(0, 4) =~= spec_u32_be(tag));
    assert(bytes.subrange(4, 8) =~= spec_u32_be(plen32));
    assert(spec_u32_from_be(bytes.subrange(4, 8)) as int == payload.len());
    assert(bytes.subrange(8, 8 + payload.len() as int) =~= payload);
    lemma_payload_round_trip(p);
}

} // verus!

verus! {

// ---------------------------------------------------------------------------
// Session handshake and capture-side configuration records.
// ---------------------------------------------------------------------------

/// The logical channel a connecting client selects right after sending its
/// monitor id.
#[derive(Clone, Copy, Debug, PartialEq, Eq, Structural)]
pub enum ChannelKind {
    Video,
    Audio,
    Control,
}

/// The channel selected by the handshake word, if any.
pub open spec fn spec_channel_kind(v: u32) -> Option<ChannelKind> {
    if v == 0 {
        Some(ChannelKind::Video)
    } else if v == 1 {
        Some(ChannelKind::Audio)
    } else if v == 2 {
        Some(ChannelKind::Control)
    } else {
        None
    }
}

/// Maps the handshake word to its channel.
pub fn parse_channel_kind(v: u32) -> (r: Option<ChannelKind>)
    ensures
        r == spec_channel_kind(v),
{
    if v == 0 {
        Some(ChannelKind::Video)
    } else if v == 1 {
        Some(ChannelKind::Audio)
    } else if v == 2 {
        Some(ChannelKind::Control)
    } else {
        None
    }
}

/// What the eight handshake bytes select.
pub open spec fn spec_parse_handshake(bytes: Seq<u8>) -> Result<(u32, ChannelKind), WireError> {
    if bytes.len() < 8 {
        Err(WireError::Truncated)
    } else {
        match spec_channel_kind(spec_u32_from_be(bytes.subrange(4, 8))) {
            Some(kind) => Ok((spec_u32_from_be(bytes.subrange(0, 4)), kind)),
            None => Err(WireError::UnknownType),
        }
    }
}

/// Reads the session handshake: a big-endian monitor id followed by the
/// channel-type word.
pub fn parse_handshake(buf: &[u8]) -> (r: Result<(u32, ChannelKind), WireError>)
    ensures
        match r {
            Ok(ok) => spec_parse_handshake(buf@) == Ok::<_, WireError>(ok),
            Err(e) => spec_parse_handshake(buf@) == Err::<(u32, ChannelKind), _>(e),
        },
{
    if buf.len() < 8 {
        return Err(WireError::Truncated);
    }
    let monitor_id = read_u32_be(buf, 0);
    let channel_word = read_u32_be(buf, 4);
    proof {
        assert(buf@.subrange(0, 4) =~= buf@.subrange(0 as int, 0 as int + 4));
        assert(buf@.subrange(4, 8) =~= buf@.subrange(4 as int, 4 as int + 4));
    }
    match parse_channel_kind(channel_word) {
        Some(kind) => Ok((monitor_id, kind)),
        None => Err(WireError::UnknownType),
    }
}

/// The value read back from four little-endian bytes.
pub open spec fn spec_u32_from_le(s: Seq<u8>) -> u32
    recommends
        s.len() == 4,
{
    ((s[3] as u32) << 24) | ((s[2] as u32) << 16) | ((s[1] as u32) << 8) | (s[0] as u32)
}

/// Reads the little-endian `u32` at offset `at`.
pub fn read_u32_le(buf: &[u8], at: usize) -> (r: u32)
    requires
        at + 4 <= buf.len(),
    ensures
        r == spec_u32_from_le(buf@.subrange(at as int, at as int + 4)),
{
    let b0 = *vstd::slice::slice_index_get(buf, at);
    let b1 = *vstd::slice::slice_index_get(buf, at + 1);
    let b2 = *vstd::slice::slice_index_get(buf, at + 2);
    let b3 = *vstd::slice::slice_index_get(buf, at + 3);
    ((b3 as u32) << 24) | ((b2 as u32) << 16) | ((b1 as u32) << 8) | (b0 as u32)
}

/// The geometry record the capture side leaves at the head of the shared
/// frame buffer: a nonzero `configured` word, then width, height and
/// framerate, all little-endian.
pub open spec fn spec_read_configuration(bytes: Seq<u8>) -> Option<(u32, u32, u32)> {
    if bytes.len() < 4 {
        None
    } else if spec_u32_from_le(bytes.subrange(0, 4)) == 0 {
        None
    } else if bytes.len() < 16 {
        None
    } else {
        Some(
            (
                spec_u32_from_le(bytes.subrange(4, 8)),
                spec_u32_from_le(bytes.subrange(8, 12)),
                spec_u32_from_le(bytes.subrange(12, 16)),
            ),
        )
    }
}

/// Reads the capture side's geometry record, if one has been written.
pub fn read_configuration(buf: &[u8]) -> (r: Option<(u32, u32, u32)>)
    ensures
        r == spec_read_configuration(buf@),
{
    if buf.len() < 4 {
        return None;
    }
    let configured = read_u32_le(buf, 0);
    proof {
        assert(buf@.subrange(0, 4) =~= buf@.subrange(0 as int, 0 as int + 4));
    }
    if configured == 0 {
        return None;
    }
    if buf.len() < 16 {
        return None;
    }
    let width = read_u32_le(buf, 4);
    let height = read_u32_le(buf, 8);
    let framerate = read_u32_le(buf, 12);
    proof {
        assert(buf@.subrange(4, 8) =~= buf@.subrange(4 as int, 4 as int + 4));
        assert(buf@.subrange(8, 12) =~= buf@.subrange(8 as int, 8 as int + 4));
        assert(buf@.subrange(12, 16) =~= buf@.subrange(12 as int, 12 as int + 4));
    }
    Some((width, height, framerate))
}

} // verus!

verus! {

// ---------------------------------------------------------------------------
// The cursor record the capture side leaves in its shared buffer.
// ---------------------------------------------------------------------------

/// The position record at the head of the shared cursor buffer: `x`, `y`
/// and a visibility word, little-endian.
pub open spec fn spec_read_cursor_position(bytes: Seq<u8>) -> Option<(i32, i32, bool)> {
    if bytes.len() < 12 {
        None
    } else {
        Some(
            (
                spec_u32_from_le(bytes.subrange(0, 4)) as i32,
                spec_u32_from_le(bytes.subrange(4, 8)) as i32,
                spec_u32_from_le(bytes.subrange(8, 12)) == 1,
            ),
        )
    }
}

/// Reads the cursor position record, if the buffer holds one.
pub fn read_cursor_position(buf: &[u8]) -> (r: Option<(i32, i32, bool)>)
    ensures
        r == spec_read_cursor_position(buf@),
{
    if buf.len() < 12 {
        return None;
    }
    let x = read_u32_le(buf, 0) as i32;
    let y = read_u32_le(buf, 4) as i32;
    let visible = read_u32_le(buf, 8);
    proof {
        assert(buf@.subrange(0, 4) =~= buf@.subrange(0 as int, 0 as int + 4));
        assert(buf@.subrange(4, 8) =~= buf@.subrange(4 as int, 4 as int + 4));
        assert(buf@.subrange(8, 12) =~= buf@.subrange(8 as int, 8 as int + 4));
    }
    Some((x, y, visible == 1))
}

/// The pixel rows of the shared cursor bitmap, tightly packed: each of the
/// `rows` rows contributes its first `4 * width` bytes out of a `pitch`-
/// byte stride, starting at offset 24.
pub open spec fn spec_cursor_rows(bytes: Seq<u8>, width: u32, pitch: u32, rows: int) -> Seq<u8>
    decreases rows,
{
    if rows <= 0 {
        Seq::empty()
    } else {
        spec_cursor_rows(bytes, width, pitch, rows - 1) + bytes.subrange(
            24 + (rows - 1) * pitch,
            24 + (rows - 1) * pitch + 4 * width,
        )
    }
}

/// The image record of the shared cursor buffer: geometry at offset 12,
/// then `height` rows of `pitch` bytes each, of which `4 * width` carry
/// pixels; `None` when the buffer cannot hold what its header announces.
pub open spec fn spec_read_cursor_image(bytes: Seq<u8>) -> Option<(u32, u32, Seq<u8>)> {
    if bytes.len() < 24 {
        None
    } else {
        let width = spec_u32_from_le(bytes.subrange(12, 16));
        let height = spec_u32_from_le(bytes.subrange(16, 20));
        let pitch = spec_u32_from_le(bytes.subrange(20, 24));
        if pitch < 4 * width {
            None
        } else if height > 0 && 24 + (height - 1) * pitch + 4 * width > bytes.len() {
            None
        } else {
            Some((width, height, spec_cursor_rows(bytes, width, pitch, height as int)))
        }
    }
}

/// Reads the cursor bitmap out of the shared buffer, packing the rows
/// tightly; `None` when the header announces more than the buffer holds.
pub fn read_cursor_image(buf: &[u8]) -> (r: Option<(u32, u32, Vec<u8>)>)
    ensures
        match r {
            Some(t) => spec_read_cursor_image(buf@) == Some((t.0, t.1, t.2@)),
            None => spec_read_cursor_image(buf@) == None::<(u32, u32, Seq<u8>)>,
        },
{
    if buf.len() < 24 {
        return None;
    }
    let width = read_u32_le(buf, 12);
    let height = read_u32_le(buf, 16);
    let pitch = read_u32_le(buf, 20);
    proof {
        assert(buf@.subrange(12, 16) =~= buf@.subrange(12 as int, 12 as int + 4));
        assert(buf@.subrange(16, 20) =~= buf@.subrange(16 as int, 16 as int + 4));
        assert(buf@.subrange(20, 24) =~= buf@.subrange(20 as int, 20 as int + 4));
    }
    if (pitch as u64) < 4 * (width as u64) {
        return None;
    }
    if height > 0 {
        proof {
            assert((height as int - 1) * (pitch as int) < 0x10000000000000000) by (nonlinear_arith)
                requires
                    height as int <= 0x100000000,
                    pitch as int <= 0x100000000,
                    height > 0,
            ;
        }
        let need = 24u128 + ((height - 1) as u128) * (pitch as u128) + 4 * (width as u128);
        if need > buf.len() as u128 {
            return None;
        }
    }
    let n = buf.len();
    let mut out: Vec<u8> = Vec::new();
    proof {
        assert(out@ =~= spec_cursor_rows(buf@, width, pitch, 0));
    }
    let mut j: u32 = 0;
    while j < height
        invariant
            j <= height,
            n == buf@.len(),
            buf@.len() >= 24,
            pitch >= 4 * (width as int),
            height > 0 ==> 24 + (height - 1) * (pitch as int) + 4 * (width as int) <= buf@.len(),
            out@ == spec_cursor_rows(buf@, width, pitch, j as int),
        decreases height - j,
    {
        proof {
            vstd::arithmetic::mul::lemma_mul_inequality(j as int, height as int - 1, pitch as int);
        }
        let row_start = (24u64 + (j as u64) * (pitch as u64)) as usize;
        let row_end = row_start + 4 * (width as usize);
        push_bytes(&mut out, vstd::slice::slice_subrange(buf, row_start, row_end));
        proof {
            assert(out@ =~= spec_cursor_rows(buf@, width, pitch, j as int + 1));
        }
        j = j + 1;
    }
    Some((width, height, out))
}

} // verus!
