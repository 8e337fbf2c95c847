//! TPKT framing and X.224 Connection Request parsing.
//!
//! The X.224 CR is the very first packet an RDP client sends.  It is
//! wrapped in a 4-byte TPKT header and may carry a routing cookie of
//! the form `Cookie: mstshash=<username>\r\n`, which the broker uses to
//! pick the per-user backend.  The raw packet is preserved so it can be
//! replayed to the backend byte for byte.

use vstd::prelude::*;

verus! {

/// Parsed X.224 Connection Request with the raw packet preserved.
#[derive(Debug)]
pub struct X224ConnectionRequest {
    /// The username extracted from the `Cookie: mstshash=<user>` field.
    pub username: Option<String>,
    /// The entire raw packet (TPKT header + X.224 CR payload).  It must
    /// be forwarded to the per-user backend verbatim.
    pub raw_packet: Vec<u8>,
}

/// Why a connection request was rejected.
#[derive(Debug, Clone, Copy, PartialEq, Eq, Structural)]
pub enum X224Error {
    /// The TPKT version byte was not 3.
    BadTpktVersion(u8),
    /// The TPKT length field was below the minimum of 7.
    TpktLengthTooSmall(u16),
    /// The TPKT length field exceeded the sanity limit of 8192.
    TpktLengthTooLarge(u16),
    /// The X.224 TPDU code was not 0xE (Connection Request).
    NotConnectionRequest(u8),
}

/// The TPKT length field: a big-endian 16-bit integer.
pub open spec fn spec_tpkt_length(b2: u8, b3: u8) -> int {
    256 * (b2 as int) + (b3 as int)
}

/// A TPKT header is accepted when the version byte is 3 and the length
/// lies in `[7, 8192]`.
pub open spec fn spec_tpkt_ok(h: Seq<u8>) -> bool {
    h.len() == 4 && h[0] == 3 && 7 <= spec_tpkt_length(h[2], h[3]) <= 8192
}

/// Validate a TPKT header and return the total packet length.
pub fn parse_tpkt_header(h: &[u8; 4]) -> (r: Result<u16, X224Error>)
    ensures
        h@[0] != 3 ==> r == Err::<u16, X224Error>(X224Error::BadTpktVersion(h@[0])),
        h@[0] == 3 && spec_tpkt_length(h@[2], h@[3]) < 7 ==> r == Err::<u16, X224Error>(
            X224Error::TpktLengthTooSmall((spec_tpkt_length(h@[2], h@[3]) as u16)),
        ),
        h@[0] == 3 && spec_tpkt_length(h@[2], h@[3]) > 8192 ==> r == Err::<u16, X224Error>(
            X224Error::TpktLengthTooLarge((spec_tpkt_length(h@[2], h@[3]) as u16)),
        ),
        spec_tpkt_ok(h@) ==> r == Ok::<u16, X224Error>(
            (spec_tpkt_length(h@[2], h@[3]) as u16),
        ),
        r is Ok <==> spec_tpkt_ok(h@),
{
    let version = h[0];
    if version != 3 {
        return Err(X224Error::BadTpktVersion(version));
    }
    let total: u16 = 256 * (h[2] as u16) + (h[3] as u16);
    if total < 7 {
        return Err(X224Error::TpktLengthTooSmall(total));
    }
    if total > 8192 {
        return Err(X224Error::TpktLengthTooLarge(total));
    }
    Ok(total)
}

/// ASCII lower-casing of a single byte; other bytes are unchanged.
pub open spec fn spec_ascii_lower(b: u8) -> u8 {
    if 0x41 <= b <= 0x5A {
        (b + 0x20) as u8
    } else {
        b
    }
}

/// The byte sequence of the cookie marker `cookie: mstshash=` in lower
/// case (17 bytes).
pub open spec fn spec_cookie_prefix() -> Seq<u8> {
    seq![
        0x63u8, 0x6Fu8, 0x6Fu8, 0x6Bu8, 0x69u8, 0x65u8, 0x3Au8, 0x20u8, 0x6Du8, 0x73u8, 0x74u8,
        0x73u8, 0x68u8, 0x61u8, 0x73u8, 0x68u8, 0x3Du8,
    ]
}

/// Whether the cookie marker occurs at position `pos` of `s`, compared
/// ASCII-case-insensitively.
pub open spec fn spec_prefix_match_at(s: Seq<u8>, pos: int) -> bool {
    &&& 0 <= pos
    &&& pos + 17 <= s.len()
    &&& forall|k: int|
        0 <= k < 17 ==> spec_ascii_lower(s[pos + k]) == spec_cookie_prefix()[k]
}

/// The first position at or after `i` where the cookie marker occurs.
pub open spec fn spec_find_prefix(s: Seq<u8>, i: int) -> Option<int>
    decreases s.len() - i,
{
    if i < 0 || i + 17 > s.len() {
        None
    } else if spec_prefix_match_at(s, i) {
        Some(i)
    } else {
        spec_find_prefix(s, i + 1)
    }
}

/// The index of the first CR LF pair at or after `i`, or the length of
/// `s` when there is none.
pub open spec fn spec_find_crlf(s: Seq<u8>, i: int) -> int
    decreases s.len() - i,
{
    if i < 0 || i + 2 > s.len() {
        s.len() as int
    } else if s[i] == 0x0D && s[i + 1] == 0x0A {
        i
    } else {
        spec_find_crlf(s, i + 1)
    }
}

/// ASCII whitespace, as trimmed from the cookie value.
pub open spec fn spec_is_ws(b: u8) -> bool {
    b == 0x20 || b == 0x09 || b == 0x0A || b == 0x0B || b == 0x0C || b == 0x0D
}

/// `s` with leading ASCII whitespace removed.
pub open spec fn spec_trim_start(s: Seq<u8>) -> Seq<u8>
    decreases s.len(),
{
    if s.len() > 0 && spec_is_ws(s[0]) {
        spec_trim_start(s.drop_first())
    } else {
        s
    }
}

/// `s` with trailing ASCII whitespace removed.
pub open spec fn spec_trim_end(s: Seq<u8>) -> Seq<u8>
    decreases s.len(),
{
    if s.len() > 0 && spec_is_ws(s.last()) {
        spec_trim_end(s.drop_last())
    } else {
        s
    }
}

/// `s` with both leading and trailing ASCII whitespace removed.
pub open spec fn spec_trim(s: Seq<u8>) -> Seq<u8> {
    spec_trim_end(spec_trim_start(s))
}

/// A byte allowed in a routed username: ASCII alphanumeric, underscore,
/// hyphen or dot.
pub open spec fn spec_is_name_byte(b: u8) -> bool {
    ||| 0x30 <= b <= 0x39
    ||| 0x41 <= b <= 0x5A
    ||| 0x61 <= b <= 0x7A
    ||| b == 0x5F
    ||| b == 0x2D
    ||| b == 0x2E
}

/// A username accepted by the broker: non-empty, at most 64 bytes, and
/// made of safe name bytes only.
pub open spec fn spec_valid_username(name: Seq<u8>) -> bool {
    &&& 0 < name.len() <= 64
    &&& forall|i: int| 0 <= i < name.len() ==> spec_is_name_byte(#[trigger] name[i])
}

/// The username the broker extracts from an X.224 CR payload, if any:
/// the bytes after the 6-byte fixed X.224 header, interpreted as
/// UTF-8 — anything else is rejected whole — hold the value following
/// the first case-insensitive occurrence of `cookie: mstshash=`, up to
/// the first CR LF, trimmed of ASCII whitespace, and accepted only
/// when it is a valid username.
pub open spec fn spec_cookie_username(payload: Seq<u8>) -> Option<Seq<u8>> {
    if payload.len() <= 6 {
        None
    } else if !vstd::utf8::valid_utf8(payload.skip(6)) {
        None
    } else {
        match spec_find_prefix(payload, 6) {
            None => None,
            Some(pos) => {
                let value_start = pos + 17;
                let value_end = spec_find_crlf(payload, value_start);
                let name = spec_trim(payload.subrange(value_start, value_end));
                if spec_valid_username(name) {
                    Some(name)
                } else {
                    None
                }
            },
        }
    }
}

/// Every extracted username is safe: non-empty, at most 64 bytes, and
/// each byte ASCII alphanumeric or one of `_`, `-`, `.`.
pub proof fn lemma_extracted_username_is_safe(payload: Seq<u8>)
    ensures
        spec_cookie_username(payload) matches Some(name) ==> spec_valid_username(name),
{
}

/// ASCII lower-casing of a single byte.
fn ascii_lower(b: u8) -> (r: u8)
    ensures
        r == spec_ascii_lower(b),
{
    if 0x41 <= b && b <= 0x5A {
        b + 0x20
    } else {
        b
    }
}

/// The `k`-th byte of the cookie marker.
fn cookie_prefix_byte(k: usize) -> (r: u8)
    requires
        k < 17,
    ensures
        r == spec_cookie_prefix()[k as int],
{
    let b: u8 = match k {
        0 => 0x63,
        1 => 0x6F,
        2 => 0x6F,
        3 => 0x6B,
        4 => 0x69,
        5 => 0x65,
        6 => 0x3A,
        7 => 0x20,
        8 => 0x6D,
        9 => 0x73,
        10 => 0x74,
        11 => 0x73,
        12 => 0x68,
        13 => 0x61,
        14 => 0x73,
        15 => 0x68,
        _ => 0x3D,
    };
    b
}

/// Whether the cookie marker occurs at `pos` in `p`, compared
/// ASCII-case-insensitively.
fn prefix_matches_at(p: &Vec<u8>, pos: usize) -> (r: bool)
    requires
        pos + 17 <= p@.len(),
    ensures
        r == spec_prefix_match_at(p@, pos as int),
{
    let plen = p.len();
    let mut k: usize = 0;
    while k < 17
        invariant
            0 <= k <= 17,
            plen == p@.len(),
            pos + 17 <= plen,
            forall|j: int|
                0 <= j < k ==> spec_ascii_lower(p@[pos + j]) == spec_cookie_prefix()[j],
        decreases 17 - k,
    {
        if ascii_lower(p[pos + k]) != cookie_prefix_byte(k) {
            return false;
        }
        k += 1;
    }
    true
}

/// Whether `b` is ASCII whitespace.
fn is_ws(b: u8) -> (r: bool)
    ensures
        r == spec_is_ws(b),
{
    b == 0x20 || b == 0x09 || b == 0x0A || b == 0x0B || b == 0x0C || b == 0x0D
}

/// Whether `b` may appear in a username.
fn is_name_byte(b: u8) -> (r: bool)
    ensures
        r == spec_is_name_byte(b),
{
    (0x30 <= b && b <= 0x39) || (0x41 <= b && b <= 0x5A) || (0x61 <= b && b <= 0x7A) || b == 0x5F
        || b == 0x2D || b == 0x2E
}

/// Relies on `str::from_utf8`: it succeeds exactly on well-formed
/// UTF-8, which is what vstd's `valid_utf8` states.
#[verifier::external_body]
fn utf8_is_valid(bytes: &Vec<u8>) -> (r: bool)
    ensures
        r == vstd::utf8::valid_utf8(bytes@),
{
    core::str::from_utf8(bytes.as_slice()).is_ok()
}

/// Relies on `String::from_utf8`: ASCII bytes are valid UTF-8 and
/// decode to the identical character sequence, one character per byte.
#[verifier::external_body]
fn ascii_bytes_to_string(bytes: &Vec<u8>) -> (r: String)
    requires
        forall|i: int| 0 <= i < bytes@.len() ==> bytes@[i] < 0x80,
    ensures
        r@.len() == bytes@.len(),
        forall|i: int| 0 <= i < bytes@.len() ==> r@[i] == bytes@[i] as char,
{
    String::from_utf8(bytes.clone()).unwrap_or_default()
}

/// Extract the username from a `Cookie: mstshash=<user>\r\n` field in
/// an X.224 CR payload.
///
/// The cookie begins after the 6-byte fixed X.224 CR header.  The
/// marker is matched ASCII-case-insensitively; the value runs to the
/// first CR LF (or the end of the packet) and is trimmed of ASCII
/// whitespace.  An empty, overlong or unsafe value yields `None`.
pub fn extract_cookie_username(payload: &Vec<u8>) -> (r: Option<String>)
    ensures
        r is Some <==> spec_cookie_username(payload@) is Some,
        r matches Some(u) ==> {
            let name = spec_cookie_username(payload@).unwrap();
            &&& u@.len() == name.len()
            &&& forall|i: int| 0 <= i < name.len() ==> u@[i] == name[i] as char
        },
{
    let len = payload.len();
    if len <= 6 {
        return None;
    }
    // The cookie region must be well-formed UTF-8 as a whole.
    let mut cookie_bytes: Vec<u8> = Vec::new();
    let mut ci: usize = 6;
    while ci < len
        invariant
            6 <= ci <= len,
            len == payload@.len(),
            cookie_bytes@ =~= payload@.subrange(6, ci as int),
        decreases len - ci,
    {
        cookie_bytes.push(payload[ci]);
        proof {
            assert(cookie_bytes@ =~= payload@.subrange(6, ci + 1));
        }
        ci += 1;
    }
    proof {
        assert(cookie_bytes@ =~= payload@.skip(6));
    }
    if !utf8_is_valid(&cookie_bytes) {
        return None;
    }
    // Find the first case-insensitive occurrence of the cookie marker.
    let mut i: usize = 6;
    let mut found: Option<usize> = None;
    while found.is_none() && len - i >= 17
        invariant
            6 <= i <= len,
            len == payload@.len(),
            match found {
                None => spec_find_prefix(payload@, 6) == spec_find_prefix(payload@, i as int),
                Some(p) => spec_find_prefix(payload@, 6) == Some(p as int) && 6 <= p && p + 17
                    <= len,
            },
        decreases len - i, (if found is None { 1int } else { 0int }),
    {
        if prefix_matches_at(payload, i) {
            found = Some(i);
        } else {
            proof {
                assert(spec_find_prefix(payload@, i as int) == spec_find_prefix(
                    payload@,
                    i + 1,
                ));
            }
            i += 1;
        }
    }
    let pos = match found {
        Some(p) => p,
        None => {
            proof {
                assert(spec_find_prefix(payload@, i as int) is None);
            }
            return None;
        },
    };
    proof {
        assert(spec_find_prefix(payload@, 6) == Some(pos as int));
    }
    let value_start = pos + 17;
    // The value ends at the first CR LF, or at the end of the packet.
    let mut e: usize = value_start;
    while len - e >= 2 && !(payload[e] == 0x0D && payload[e + 1] == 0x0A)
        invariant
            value_start <= e <= len,
            len == payload@.len(),
            spec_find_crlf(payload@, value_start as int) == spec_find_crlf(payload@, e as int),
        decreases len - e,
    {
        e += 1;
    }
    let value_end = if len - e >= 2 {
        e
    } else {
        len
    };
    proof {
        assert(spec_find_crlf(payload@, value_start as int) == value_end as int);
    }
    // Trim ASCII whitespace on both sides.
    let ghost value: Seq<u8> = payload@.subrange(value_start as int, value_end as int);
    let mut a: usize = value_start;
    while a < value_end && is_ws(payload[a])
        invariant
            value_start <= a <= value_end <= len,
            len == payload@.len(),
            spec_trim_start(value) == spec_trim_start(
                payload@.subrange(a as int, value_end as int),
            ),
        decreases value_end - a,
    {
        proof {
            let cur = payload@.subrange(a as int, value_end as int);
            assert(cur.drop_first() =~= payload@.subrange(a + 1, value_end as int));
        }
        a += 1;
    }
    proof {
        let cur = payload@.subrange(a as int, value_end as int);
        assert(spec_trim_start(value) == cur);
    }
    let mut b: usize = value_end;
    while b > a && is_ws(payload[b - 1])
        invariant
            a <= b <= value_end <= len,
            len == payload@.len(),
            spec_trim_end(spec_trim_start(value)) == spec_trim_end(
                payload@.subrange(a as int, b as int),
            ),
        decreases b - a,
    {
        proof {
            let cur = payload@.subrange(a as int, b as int);
            assert(cur.drop_last() =~= payload@.subrange(a as int, b - 1));
        }
        b -= 1;
    }
    proof {
        let cur = payload@.subrange(a as int, b as int);
        assert(spec_trim(value) == cur);
    }
    // Validate: non-empty, at most 64 bytes, safe characters only.
    if a == b {
        return None;
    }
    if b - a > 64 {
        return None;
    }
    let mut name: Vec<u8> = Vec::new();
    let mut j: usize = a;
    while j < b
        invariant
            a <= j <= b <= len,
            6 < len == payload@.len(),
            0 < b - a <= 64,
            spec_find_prefix(payload@, 6) == Some(pos as int),
            value_start == pos + 17,
            value_end == spec_find_crlf(payload@, value_start as int),
            value_start <= a && value_end <= len,
            value == payload@.subrange(value_start as int, value_end as int),
            spec_trim(value) == payload@.subrange(a as int, b as int),
            name@ =~= payload@.subrange(a as int, j as int),
            forall|t: int| 0 <= t < name@.len() ==> spec_is_name_byte(#[trigger] name@[t]),
        decreases b - j,
    {
        let byte = payload[j];
        if !is_name_byte(byte) {
            proof {
                let nm = spec_trim(value);
                assert(nm == payload@.subrange(a as int, b as int));
                assert(nm[j - a] == payload@[j as int]);
                assert(!spec_valid_username(nm));
            }
            return None;
        }
        name.push(byte);
        proof {
            assert(name@ =~= payload@.subrange(a as int, j + 1));
        }
        j += 1;
    }
    proof {
        assert(name@ =~= spec_trim(value));
        assert(spec_valid_username(name@));
        assert(spec_cookie_username(payload@) == Some(name@));
        assert(forall|t: int| 0 <= t < name@.len() ==> name@[t] < 0x80);
    }
    Some(ascii_bytes_to_string(&name))
}

/// Parse a complete X.224 Connection Request from its TPKT header and
/// payload bytes.
///
/// The caller hands in the 4 TPKT header bytes and the remaining
/// `length - 4` payload bytes of the packet.  On success the raw
/// packet is reassembled byte for byte, so that what is later replayed
/// to the backend is exactly what the client sent.
pub fn parse_connection_request(header: &[u8; 4], payload: &Vec<u8>) -> (r: Result<
    X224ConnectionRequest,
    X224Error,
>)
    requires
        spec_tpkt_ok(header@) ==> payload@.len() == spec_tpkt_length(header@[2], header@[3]) - 4,
    ensures
        r is Ok <==> spec_tpkt_ok(header@) && (payload@[1] >> 4) == 0xE,
        r matches Ok(cr) ==> {
            &&& cr.raw_packet@ == header@ + payload@
            &&& (cr.username is Some <==> spec_cookie_username(payload@) is Some)
            &&& cr.username matches Some(u) ==> {
                let name = spec_cookie_username(payload@).unwrap();
                &&& u@.len() == name.len()
                &&& forall|i: int| 0 <= i < name.len() ==> u@[i] == name[i] as char
            }
        },
        !spec_tpkt_ok(header@) ==> r == Err::<X224ConnectionRequest, X224Error>(
            match parse_tpkt_err(header@) {
                Some(e) => e,
                None => X224Error::BadTpktVersion(0),
            },
        ),
        spec_tpkt_ok(header@) && (payload@[1] >> 4) != 0xE ==> r == Err::<
            X224ConnectionRequest,
            X224Error,
        >(X224Error::NotConnectionRequest(payload@[1] >> 4)),
{
    let total = match parse_tpkt_header(header) {
        Ok(t) => t,
        Err(e) => {
            return Err(e);
        },
    };
    // length >= 7 guarantees at least 3 payload bytes.
    assert(payload@.len() >= 3);
    let tpdu_code = payload[1] >> 4;
    if tpdu_code != 0xE {
        return Err(X224Error::NotConnectionRequest(tpdu_code));
    }
    let mut raw_packet: Vec<u8> = Vec::new();
    raw_packet.push(header[0]);
    raw_packet.push(header[1]);
    raw_packet.push(header[2]);
    raw_packet.push(header[3]);
    raw_packet.extend_from_slice(payload.as_slice());
    proof {
        assert(raw_packet@ =~= header@ + payload@);
    }
    let username = extract_cookie_username(payload);
    Ok(X224ConnectionRequest { username, raw_packet })
}

/// The error a bad TPKT header produces, mirroring the checks of
/// [`parse_tpkt_header`].
pub open spec fn parse_tpkt_err(h: Seq<u8>) -> Option<X224Error> {
    if h[0] != 3 {
        Some(X224Error::BadTpktVersion(h[0]))
    } else if spec_tpkt_length(h[2], h[3]) < 7 {
        Some(X224Error::TpktLengthTooSmall(spec_tpkt_length(h[2], h[3]) as u16))
    } else if spec_tpkt_length(h[2], h[3]) > 8192 {
        Some(X224Error::TpktLengthTooLarge(spec_tpkt_length(h[2], h[3]) as u16))
    } else {
        None
    }
}

} // verus!
