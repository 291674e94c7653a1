//! The device-bridge client's wire logic: the four-digit hexadecimal
//! length that frames every packet, and the parsing of the device-tracker
//! payload into `(serial, state)` pairs. The sockets stay with the caller.

use vstd::prelude::*;

verus! {

/// Why a device-list payload was rejected.
#[derive(Clone, Copy, Debug, PartialEq, Eq, Structural)]
pub enum AdbError {
    /// A line of the device list carries fewer than two fields.
    MissingField,
}

// ---------------------------------------------------------------------------
// The hexadecimal length prefix.
// ---------------------------------------------------------------------------

/// The value of one hexadecimal digit byte, either case.
pub open spec fn spec_hex_digit(b: u8) -> Option<u8> {
    if 0x30 <= b <= 0x39 {
        Some((b - 0x30) as u8)
    } else if 0x61 <= b <= 0x66 {
        Some((b - 0x61 + 10) as u8)
    } else if 0x41 <= b <= 0x46 {
        Some((b - 0x41 + 10) as u8)
    } else {
        None
    }
}

/// The value of a four-digit hexadecimal length prefix, if well-formed.
pub open spec fn spec_parse_hex4(s: Seq<u8>) -> Option<u32>
    recommends
        s.len() == 4,
{
    match (spec_hex_digit(s[0]), spec_hex_digit(s[1]), spec_hex_digit(s[2]), spec_hex_digit(
        s[3],
    )) {
        (Some(d0), Some(d1), Some(d2), Some(d3)) => Some(
            ((d0 as u32) * 0x1000 + (d1 as u32) * 0x100 + (d2 as u32) * 0x10 + (d3 as u32)) as u32,
        ),
        _ => None,
    }
}

/// The value of one hexadecimal digit byte, either case.
pub fn hex_digit(b: u8) -> (r: Option<u8>)
    ensures
        r == spec_hex_digit(b),
{
    if 0x30 <= b && b <= 0x39 {
        Some(b - 0x30)
    } else if 0x61 <= b && b <= 0x66 {
        Some(b - 0x61 + 10)
    } else if 0x41 <= b && b <= 0x46 {
        Some(b - 0x41 + 10)
    } else {
        None
    }
}

/// Reads the four-digit hexadecimal length that frames a packet.
pub fn parse_hex_len(buf: &[u8]) -> (r: Option<u32>)
    requires
        buf@.len() == 4,
    ensures
        r == spec_parse_hex4(buf@),
{
    let d0 = hex_digit(*vstd::slice::slice_index_get(buf, 0));
    let d1 = hex_digit(*vstd::slice::slice_index_get(buf, 1));
    let d2 = hex_digit(*vstd::slice::slice_index_get(buf, 2));
    let d3 = hex_digit(*vstd::slice::slice_index_get(buf, 3));
    match (d0, d1, d2, d3) {
        (Some(d0), Some(d1), Some(d2), Some(d3)) => Some(
            (d0 as u32) * 0x1000 + (d1 as u32) * 0x100 + (d2 as u32) * 0x10 + (d3 as u32),
        ),
        _ => None,
    }
}

/// One uppercase hexadecimal digit byte.
fn hex_char(v: u8) -> (r: u8)
    requires
        v < 16,
    ensures
        spec_hex_digit(r) == Some(v),
{
    if v < 10 {
        0x30 + v
    } else {
        0x41 + (v - 10)
    }
}

/// The four-digit uppercase hexadecimal length prefix of a packet, the
/// form the framing writes; reading it back yields the length.
pub fn format_hex_len(len: u16) -> (r: Vec<u8>)
    ensures
        r@.len() == 4,
        spec_parse_hex4(r@) == Some(len as u32),
{
    let mut out: Vec<u8> = Vec::new();
    proof {
        assert(((len >> 12) & 0xF) < 16 && ((len >> 8) & 0xF) < 16 && ((len >> 4) & 0xF) < 16
            && (len & 0xF) < 16) by (bit_vector);
    }
    out.push(hex_char(#[verifier::truncate] (((len >> 12) & 0xF) as u8)));
    out.push(hex_char(#[verifier::truncate] (((len >> 8) & 0xF) as u8)));
    out.push(hex_char(#[verifier::truncate] (((len >> 4) & 0xF) as u8)));
    out.push(hex_char(#[verifier::truncate] ((len & 0xF) as u8)));
    proof {
        let l = len;
        let d0 = ((l >> 12) & 0xF) as u8;
        let d1 = ((l >> 8) & 0xF) as u8;
        let d2 = ((l >> 4) & 0xF) as u8;
        let d3 = (l & 0xF) as u8;
        assert((d0 as u32) * 0x1000 + (d1 as u32) * 0x100 + (d2 as u32) * 0x10 + (d3 as u32)
            == l as u32) by (bit_vector)
            requires
                d0 == ((l >> 12) & 0xF) as u8 && d1 == ((l >> 8) & 0xF) as u8 && d2 == ((l >> 4)
                    & 0xF) as u8 && d3 == (l & 0xF) as u8,
        ;
    }
    out
}

} // verus!

verus! {

// ---------------------------------------------------------------------------
// The device-tracker payload: one device per line, serial then state.
// ---------------------------------------------------------------------------

/// The whitespace the device list is split on.
pub open spec fn is_space(c: char) -> bool {
    c == ' ' || c == '\t' || c == '\r' || c == '\n'
}

/// First position at or after `i`, below `end`, holding a non-space — or
/// `end`.
pub open spec fn spec_skip_spaces(s: Seq<char>, i: int, end: int) -> int
    decreases end - i,
{
    if i < end && is_space(s[i]) {
        spec_skip_spaces(s, i + 1, end)
    } else {
        i
    }
}

/// First position at or after `i`, below `end`, holding a space — or
/// `end`.
pub open spec fn spec_scan_token(s: Seq<char>, i: int, end: int) -> int
    decreases end - i,
{
    if i < end && !is_space(s[i]) {
        spec_scan_token(s, i + 1, end)
    } else {
        i
    }
}

/// First position at or after `i`, below `end`, holding a line break — or
/// `end`.
pub open spec fn spec_find_nl(s: Seq<char>, i: int, end: int) -> int
    decreases end - i,
{
    if i < end && s[i] != '\n' {
        spec_find_nl(s, i + 1, end)
    } else {
        i
    }
}

/// Position after dropping trailing spaces from `s[..end]`.
pub open spec fn spec_trim_end(s: Seq<char>, end: int) -> int
    decreases end,
{
    if end > 0 && is_space(s[end - 1]) {
        spec_trim_end(s, end - 1)
    } else {
        end
    }
}

/// The first two whitespace-separated fields of the line `s[pos..end]`,
/// if the line has at least two.
pub open spec fn spec_line_pair(s: Seq<char>, pos: int, end: int) -> Option<
    (Seq<char>, Seq<char>),
> {
    let a = spec_skip_spaces(s, pos, end);
    if a >= end {
        None
    } else {
        let b = spec_scan_token(s, a, end);
        let c = spec_skip_spaces(s, b, end);
        if c >= end {
            None
        } else {
            let d = spec_scan_token(s, c, end);
            Some((s.subrange(a, b), s.subrange(c, d)))
        }
    }
}

/// The `(serial, state)` pairs of the lines of `s[pos..end]`, or nothing
/// if some line has fewer than two fields.
pub open spec fn spec_parse_lines(s: Seq<char>, pos: int, end: int) -> Option<
    Seq<(Seq<char>, Seq<char>)>,
>
    decreases end - pos,
{
    if pos >= end {
        Some(Seq::empty())
    } else {
        let e = spec_find_nl(s, pos, end);
        match spec_line_pair(s, pos, e) {
            None => None,
            Some(pair) => {
                let next = if e < end {
                    e + 1
                } else {
                    end
                };
                match spec_parse_lines(s, next, end) {
                    Some(rest) => Some(seq![pair] + rest),
                    None => None,
                }
            },
        }
    }
}

/// What the device-tracker payload lists: after trimming surrounding
/// whitespace, one `(serial, state)` pair per line; nothing at all when a
/// line is short of fields.
pub open spec fn spec_parse_devices(s: Seq<char>) -> Option<Seq<(Seq<char>, Seq<char>)>> {
    let lo = spec_skip_spaces(s, 0, s.len() as int);
    let hi = spec_trim_end(s, s.len() as int);
    if lo >= hi {
        Some(Seq::empty())
    } else {
        spec_parse_lines(s, lo, hi)
    }
}

/// Whether the character is part of the whitespace the list is split on.
fn is_space_char(c: char) -> (r: bool)
    ensures
        r == is_space(c),
{
    c == ' ' || c == '\t' || c == '\r' || c == '\n'
}

/// Advances past spaces, up to `end`.
fn skip_spaces(s: &str, i: usize, end: usize) -> (r: usize)
    requires
        i <= end <= s@.len(),
    ensures
        r == spec_skip_spaces(s@, i as int, end as int),
        i <= r <= end,
    decreases end - i,
{
    if i < end && is_space_char(s.get_char(i)) {
        skip_spaces(s, i + 1, end)
    } else {
        i
    }
}

/// Advances past non-spaces, up to `end`.
fn scan_token(s: &str, i: usize, end: usize) -> (r: usize)
    requires
        i <= end <= s@.len(),
    ensures
        r == spec_scan_token(s@, i as int, end as int),
        i <= r <= end,
    decreases end - i,
{
    if i < end && !is_space_char(s.get_char(i)) {
        scan_token(s, i + 1, end)
    } else {
        i
    }
}

/// Advances to the next line break, up to `end`.
fn find_nl(s: &str, i: usize, end: usize) -> (r: usize)
    requires
        i <= end <= s@.len(),
    ensures
        r == spec_find_nl(s@, i as int, end as int),
        i <= r <= end,
    decreases end - i,
{
    if i < end && s.get_char(i) != '\n' {
        find_nl(s, i + 1, end)
    } else {
        i
    }
}

/// Retreats past trailing spaces.
fn trim_end(s: &str, end: usize) -> (r: usize)
    requires
        end <= s@.len(),
    ensures
        r == spec_trim_end(s@, end as int),
        r <= end,
    decreases end,
{
    if end > 0 && is_space_char(s.get_char(end - 1)) {
        trim_end(s, end - 1)
    } else {
        end
    }
}

/// A client of the local device bridge.
pub struct AdbClient {}

impl AdbClient {
    /// Splits a device-tracker payload into `(serial, state)` pairs: one
    /// device per line, fields separated by whitespace, surrounding
    /// whitespace ignored; a line short of two fields rejects the payload.
    pub fn parse_devices(packet: &str) -> (r: Result<Vec<(String, String)>, AdbError>)
        ensures
            match r {
                Ok(v) => spec_parse_devices(packet@) == Some(
                    v@.map_values(|p: (String, String)| (p.0@, p.1@)),
                ),
                Err(_) => spec_parse_devices(packet@) == None::<Seq<(Seq<char>, Seq<char>)>>,
            },
    {
        let n = packet.unicode_len();
        let lo = skip_spaces(packet, 0, n);
        let hi = trim_end(packet, n);
        let mut out: Vec<(String, String)> = Vec::new();
        if lo >= hi {
            proof {
                assert(out@.map_values(|p: (String, String)| (p.0@, p.1@)) =~= Seq::<
                    (Seq<char>, Seq<char>),
                >::empty());
            }
            return Ok(out);
        }
        let mut pos = lo;
        proof {
            if spec_parse_lines(packet@, lo as int, hi as int) is Some {
                assert(Seq::<(Seq<char>, Seq<char>)>::empty() + spec_parse_lines(
                    packet@,
                    lo as int,
                    hi as int,
                )->Some_0 =~= spec_parse_lines(packet@, lo as int, hi as int)->Some_0);
            }
        }
        while pos < hi
            invariant
                lo <= pos <= hi <= packet@.len(),
                n == packet@.len(),
                lo == spec_skip_spaces(packet@, 0, n as int),
                hi == spec_trim_end(packet@, n as int),
                lo < hi,
                ({
                    let tail = spec_parse_lines(packet@, pos as int, hi as int);
                    let full = spec_parse_lines(packet@, lo as int, hi as int);
                    match tail {
                        Some(rest) => full == Some(
                            out@.map_values(|p: (String, String)| (p.0@, p.1@)) + rest,
                        ),
                        None => full == None::<Seq<(Seq<char>, Seq<char>)>>,
                    }
                }),
            decreases hi - pos,
        {
            let line_end = find_nl(packet, pos, hi);
            let a = skip_spaces(packet, pos, line_end);
            if a >= line_end {
                proof {
                    assert(spec_line_pair(packet@, pos as int, line_end as int) is None);
                    assert(spec_parse_lines(packet@, pos as int, hi as int) is None);
                }
                return Err(AdbError::MissingField);
            }
            let b = scan_token(packet, a, line_end);
            let c = skip_spaces(packet, b, line_end);
            if c >= line_end {
                proof {
                    assert(spec_line_pair(packet@, pos as int, line_end as int) is None);
                    assert(spec_parse_lines(packet@, pos as int, hi as int) is None);
                }
                return Err(AdbError::MissingField);
            }
            let d = scan_token(packet, c, line_end);
            let serial = packet.substring_char(a, b).to_owned();
            let state = packet.substring_char(c, d).to_owned();
            let ghost prev = out@;
            out.push((serial, state));
            proof {
                prev.lemma_push_map_commute(
                    |p: (String, String)| (p.0@, p.1@),
                    (serial, state),
                );
            }
            pos = if line_end < hi {
                line_end + 1
            } else {
                hi
            };
            proof {
                let tail2 = spec_parse_lines(packet@, pos as int, hi as int);
                match tail2 {
                    Some(rest) => {
                        assert(prev.map_values(|p: (String, String)| (p.0@, p.1@)) + (seq![
                            (packet@.subrange(a as int, b as int), packet@.subrange(
                                c as int,
                                d as int,
                            )),
                        ] + rest) =~= out@.map_values(|p: (String, String)| (p.0@, p.1@)) + rest);
                    },
                    None => {},
                }
            }
        }
        proof {
            assert(spec_parse_lines(packet@, pos as int, hi as int) == Some(Seq::<
                (Seq<char>, Seq<char>),
            >::empty()));
            assert(out@.map_values(|p: (String, String)| (p.0@, p.1@)) + Seq::<
                (Seq<char>, Seq<char>),
            >::empty() =~= out@.map_values(|p: (String, String)| (p.0@, p.1@)));
        }
        Ok(out)
    }
}

} // verus!
