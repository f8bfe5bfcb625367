//! Stateless translation between feature addresses/values and wire packets.
//!
//! Values travel as 32-bit IEEE-754 floats in little-endian order; this
//! module carries them as their `u32` bit patterns, so a value survives a
//! round trip bit for bit.

use vstd::prelude::*;

verus! {

/// Constant first byte of every protocol payload.
pub const MAGIC: u8 = 0x5a;
/// Length of an outgoing packet: a report-id byte and a 64-byte payload.
pub const PACKET_LEN: usize = 65;

pub const CMD_ACK: u8 = 0x02;
pub const CMD_QUERY: u8 = 0x11;
pub const CMD_WRITE: u8 = 0x12;
pub const CMD_GLOBAL_PROFILE: u8 = 0x26;
pub const CMD_OUTPUT: u8 = 0x2c;

/// Bit pattern of the float 0.0.
pub const BITS_ZERO: u32 = 0;
/// Bit pattern of the float -0.0.
pub const BITS_NEG_ZERO: u32 = 0x8000_0000;
/// Bit pattern of the float 1.0.
pub const BITS_ONE: u32 = 0x3f80_0000;
/// Bit pattern of the quiet NaN used for an unknown value.
pub const BITS_NAN: u32 = 0x7fc0_0000;

/// The four little-endian bytes of `v`.
pub open spec fn le_bytes(v: u32) -> Seq<u8> {
    seq![(v % 256) as u8, ((v / 256) % 256) as u8, ((v / 65536) % 256) as u8, (v / 16777216) as u8]
}

/// The word whose little-endian bytes are `b0 b1 b2 b3`.
pub open spec fn le_word(b0: u8, b1: u8, b2: u8, b3: u8) -> u32 {
    (b0 as int + 256 * b1 as int + 65536 * b2 as int + 16777216 * b3 as int) as u32
}

/// The word read from `s` at `off`, little-endian.
pub open spec fn le_word_at(s: Seq<u8>, off: int) -> u32 {
    le_word(s[off], s[off + 1], s[off + 2], s[off + 3])
}

/// A 65-byte outgoing packet: report id 0, the magic byte, then `body`,
/// zero-filled.
pub open spec fn packet(body: Seq<u8>) -> Seq<u8> {
    Seq::new(
        PACKET_LEN as nat,
        |i: int|
            if i == 1 {
                MAGIC
            } else if 2 <= i < 2 + body.len() {
                body[i - 2]
            } else {
                0u8
            },
    )
}

/// Body of a generic query: sub-type 0x01, family, feature.
pub open spec fn read_body(family: u8, feature: u8) -> Seq<u8> {
    seq![CMD_QUERY, 0x03u8, 0x01u8, family, feature]
}

/// Body of a generic write: sub-type 0x01, family, feature, float.
pub open spec fn write_body(family: u8, feature: u8, bits: u32) -> Seq<u8> {
    seq![CMD_WRITE, 0x07u8, 0x01u8, family, feature] + le_bytes(bits)
}

pub open spec fn global_profile_read_body() -> Seq<u8> {
    seq![CMD_GLOBAL_PROFILE, 0x03u8, 0x08u8, 0xffu8, 0xffu8]
}

pub open spec fn global_profile_write_body(id: u8, on: bool) -> Seq<u8> {
    seq![CMD_GLOBAL_PROFILE, 0x05u8, 0x07u8, id, 0x00u8, if on { 1u8 } else { 0u8 }, 0x00u8]
}

pub open spec fn output_read_body() -> Seq<u8> {
    seq![CMD_OUTPUT, 0x01u8, 0x01u8]
}

pub open spec fn output_write_body(code: u8) -> Seq<u8> {
    seq![CMD_OUTPUT, 0x05u8, 0x00u8, code, 0x00u8, 0x00u8, 0x00u8]
}

/// An output route of the device.
#[derive(Clone, Copy, PartialEq, Eq, Structural, Debug)]
pub enum Route {
    Speakers,
    Headphones,
    /// A route code with no known meaning, kept as it came.
    Other(u8),
}

impl Route {
    pub open spec fn code_spec(self) -> u8 {
        match self {
            Route::Speakers => 0x02,
            Route::Headphones => 0x04,
            Route::Other(c) => c,
        }
    }

    pub open spec fn from_code_spec(c: u8) -> Route {
        if c == 0x02 {
            Route::Speakers
        } else if c == 0x04 {
            Route::Headphones
        } else {
            Route::Other(c)
        }
    }

    /// The wire code of the route.
    pub fn code(&self) -> (r: u8)
        ensures
            r == self.code_spec(),
    {
        match self {
            Route::Speakers => 0x02,
            Route::Headphones => 0x04,
            Route::Other(c) => *c,
        }
    }

    /// The route a wire code names; unknown codes pass through raw.
    pub fn from_code(c: u8) -> (r: Route)
        ensures
            r == Route::from_code_spec(c),
    {
        if c == 0x02 {
            Route::Speakers
        } else if c == 0x04 {
            Route::Headphones
        } else {
            Route::Other(c)
        }
    }
}

/// A device response to the live control path.
#[derive(Clone, Copy, PartialEq, Eq, Structural, Debug)]
pub enum Response {
    /// Value of a generically addressed feature.
    FeatureValue { family: u8, feature: u8, bits: u32 },
    /// The three flags of the global-profile bitmask.
    GlobalProfileValue { master: bool, secondary: bool, equalizer: bool },
    /// The current output route.
    OutputValue { route: Route },
    /// An explicit acknowledgement.
    Ack,
    /// Anything else; the protocol is incomplete by construction.
    Unrecognized,
}

/// What a received 64-byte payload (magic at offset 0) means.
pub open spec fn response_spec(r: Seq<u8>) -> Response {
    if r.len() < 3 || r[0] != MAGIC {
        Response::Unrecognized
    } else if r[1] == CMD_ACK {
        Response::Ack
    } else if r[1] == CMD_QUERY && r[2] != 3 && r.len() >= 11 {
        Response::FeatureValue { family: r[5], feature: r[6], bits: le_word_at(r, 7) }
    } else if r[1] == CMD_GLOBAL_PROFILE && r[2] != 3 && r.len() >= 7 && r[3] == 0x08 {
        Response::GlobalProfileValue {
            master: r[6] & 0x01 != 0,
            secondary: r[6] & 0x02 != 0,
            equalizer: r[6] & 0x04 != 0,
        }
    } else if r[1] == CMD_OUTPUT && r[2] != 1 && r.len() >= 5 && r[3] == 0x01 {
        Response::OutputValue { route: Route::from_code_spec(r[4]) }
    } else {
        Response::Unrecognized
    }
}

/// The four little-endian bytes of `v`.
pub fn to_le(v: u32) -> (r: [u8; 4])
    ensures
        r@ == le_bytes(v),
{
    let r = [(v % 256) as u8, ((v / 256) % 256) as u8, ((v / 65536) % 256) as u8, (v / 16777216) as u8];
    assert(r@ =~= le_bytes(v));
    r
}

/// The word stored little-endian in `s` at `off`.
pub fn word_at(s: &[u8], off: usize) -> (r: u32)
    requires
        off + 4 <= s@.len(),
    ensures
        r == le_word_at(s@, off as int),
{
    let w: u64 = s[off] as u64 + 256 * (s[off + 1] as u64) + 65536 * (s[off + 2] as u64) + 16777216 * (
    s[off + 3] as u64);
    w as u32
}

/// Reading back the bytes of a word gives the word.
pub proof fn lemma_le_round_trip(v: u32)
    ensures
        le_word(le_bytes(v)[0], le_bytes(v)[1], le_bytes(v)[2], le_bytes(v)[3]) == v,
{
    let b = le_bytes(v);
    assert((v % 256) + 256 * ((v / 256) % 256) + 65536 * ((v / 65536) % 256) + 16777216 * (v / 16777216)
        == v) by (bit_vector);
    assert(b[0] as int == (v % 256) as int);
    assert(b[1] as int == ((v / 256) % 256) as int);
    assert(b[2] as int == ((v / 65536) % 256) as int);
    assert(b[3] as int == (v / 16777216) as int);
}

fn framed(body: &[u8]) -> (r: Vec<u8>)
    requires
        body@.len() <= PACKET_LEN - 2,
    ensures
        r@ == packet(body@),
{
    let mut r: Vec<u8> = Vec::new();
    let mut i: usize = 0;
    while i < PACKET_LEN
        invariant
            i <= PACKET_LEN,
            body@.len() <= PACKET_LEN - 2,
            r@.len() == i,
            forall|j: int| 0 <= j < i ==> r@[j] == packet(body@)[j],
        decreases PACKET_LEN - i,
    {
        let b: u8 = if i == 1 {
            MAGIC
        } else if 2 <= i && i < 2 + body.len() {
            body[i - 2]
        } else {
            0u8
        };
        r.push(b);
        i = i + 1;
    }
    assert(r@ =~= packet(body@));
    r
}

/// Query packet for a generically addressed feature.
pub fn encode_read(family: u8, feature: u8) -> (r: Vec<u8>)
    ensures
        r@ == packet(read_body(family, feature)),
{
    let body = vec![CMD_QUERY, 0x03u8, 0x01u8, family, feature];
    assert(body@ =~= read_body(family, feature));
    framed(body.as_slice())
}

/// Write packet for a generically addressed feature carrying the float
/// with bit pattern `bits`.
pub fn encode_write(family: u8, feature: u8, bits: u32) -> (r: Vec<u8>)
    ensures
        r@ == packet(write_body(family, feature, bits)),
{
    let v = to_le(bits);
    let body = vec![CMD_WRITE, 0x07u8, 0x01u8, family, feature, v[0], v[1], v[2], v[3]];
    assert(body@ =~= write_body(family, feature, bits));
    framed(body.as_slice())
}

/// Query packet for the global-profile bitmask.
pub fn encode_global_profile_read() -> (r: Vec<u8>)
    ensures
        r@ == packet(global_profile_read_body()),
{
    let body = vec![CMD_GLOBAL_PROFILE, 0x03u8, 0x08u8, 0xffu8, 0xffu8];
    assert(body@ =~= global_profile_read_body());
    framed(body.as_slice())
}

/// Write packet switching one global-profile feature on or off.
pub fn encode_global_profile_write(id: u8, on: bool) -> (r: Vec<u8>)
    ensures
        r@ == packet(global_profile_write_body(id, on)),
{
    let state: u8 = if on { 1 } else { 0 };
    let body = vec![CMD_GLOBAL_PROFILE, 0x05u8, 0x07u8, id, 0x00u8, state, 0x00u8];
    assert(body@ =~= global_profile_write_body(id, on));
    framed(body.as_slice())
}

/// Query packet for the output route.
pub fn encode_output_read() -> (r: Vec<u8>)
    ensures
        r@ == packet(output_read_body()),
{
    let body = vec![CMD_OUTPUT, 0x01u8, 0x01u8];
    assert(body@ =~= output_read_body());
    framed(body.as_slice())
}

/// Write packet selecting an output route.
pub fn encode_output_write(route: Route) -> (r: Vec<u8>)
    ensures
        r@ == packet(output_write_body(route.code_spec())),
{
    let code = route.code();
    let body = vec![CMD_OUTPUT, 0x05u8, 0x00u8, code, 0x00u8, 0x00u8, 0x00u8];
    assert(body@ =~= output_write_body(route.code_spec()));
    framed(body.as_slice())
}

/// Classifies a received payload (magic at offset 0). Never fails: any
/// unmatched pattern is `Unrecognized`.
pub fn decode_response(r: &[u8]) -> (out: Response)
    ensures
        out == response_spec(r@),
{
    if r.len() < 3 || r[0] != MAGIC {
        Response::Unrecognized
    } else if r[1] == CMD_ACK {
        Response::Ack
    } else if r[1] == CMD_QUERY && r[2] != 3 && r.len() >= 11 {
        Response::FeatureValue { family: r[5], feature: r[6], bits: word_at(r, 7) }
    } else if r[1] == CMD_GLOBAL_PROFILE && r[2] != 3 && r.len() >= 7 && r[3] == 0x08 {
        let mask = r[6];
        Response::GlobalProfileValue {
            master: mask & 0x01 != 0,
            secondary: mask & 0x02 != 0,
            equalizer: mask & 0x04 != 0,
        }
    } else if r[1] == CMD_OUTPUT && r[2] != 1 && r.len() >= 5 && r[3] == 0x01 {
        Response::OutputValue { route: Route::from_code(r[4]) }
    } else {
        Response::Unrecognized
    }
}

/// The response a device sends to confirm the value at a generic address:
/// `5a 11 08 01 00`, then family, feature and the four value bytes, in the
/// positions the write packet carried them.
pub open spec fn value_echo(write: Seq<u8>) -> Seq<u8> {
    seq![MAGIC, CMD_QUERY, 0x08u8, 0x01u8, 0x00u8] + write.subrange(5, 11)
}

/// Round trip: the echo of a generic write decodes to the written address
/// and the very bit pattern that was written.
pub proof fn lemma_write_round_trip(family: u8, feature: u8, bits: u32)
    ensures
        response_spec(value_echo(packet(write_body(family, feature, bits))))
            == (Response::FeatureValue { family, feature, bits }),
{
    let p = packet(write_body(family, feature, bits));
    let e = value_echo(p);
    let b = le_bytes(bits);
    assert(p[5] == family);
    assert(p[6] == feature);
    assert(p[7] == b[0]);
    assert(p[8] == b[1]);
    assert(p[9] == b[2]);
    assert(p[10] == b[3]);
    assert(e.len() == 11);
    assert(e[5] == family && e[6] == feature);
    assert(e[7] == b[0] && e[8] == b[1] && e[9] == b[2] && e[10] == b[3]);
    lemma_le_round_trip(bits);
}

/// For a UI percentage `n` in 1..=255, the binary shift `k` that brings
/// `n * 2^k / 100` into the float significand range `[2^23, 2^24)`.
pub open spec fn percent_shift(n: nat) -> nat {
    if n >= 200 {
        22
    } else if n >= 100 {
        23
    } else if n >= 50 {
        24
    } else if n >= 25 {
        25
    } else if n >= 13 {
        26
    } else if n >= 7 {
        27
    } else if n >= 4 {
        28
    } else if n >= 2 {
        29
    } else {
        30
    }
}

/// `2^percent_shift(n)`.
pub open spec fn percent_scale(n: nat) -> nat {
    if n >= 200 {
        0x40_0000
    } else if n >= 100 {
        0x80_0000
    } else if n >= 50 {
        0x100_0000
    } else if n >= 25 {
        0x200_0000
    } else if n >= 13 {
        0x400_0000
    } else if n >= 7 {
        0x800_0000
    } else if n >= 4 {
        0x1000_0000
    } else if n >= 2 {
        0x2000_0000
    } else {
        0x4000_0000
    }
}

/// `num / den` rounded to the nearest integer, ties to even.
pub open spec fn round_half_even(num: nat, den: nat) -> nat
    recommends
        den > 0,
{
    let q = num / den;
    let r = num % den;
    if 2 * r > den {
        q + 1
    } else if 2 * r < den {
        q
    } else if q % 2 == 0 {
        q
    } else {
        q + 1
    }
}

/// Bit pattern of the single-precision float nearest to `n / 100` (ties
/// to even), as IEEE-754 division of `n` by `100` yields it.
///
/// For `n >= 1` the significand `m` lies in `[2^23, 2^24]` and the biased
/// exponent is `150 - k`; writing `(149 - k) * 2^23 + m` lets a significand
/// that rounds up to `2^24` carry into the exponent.
pub open spec fn percent_bits(n: u8) -> u32 {
    if n == 0 {
        0
    } else {
        ((149 - percent_shift(n as nat)) * 0x80_0000 + round_half_even(
            n as nat * percent_scale(n as nat),
            100,
        )) as u32
    }
}

/// The shift of `percent_shift` normalizes: `n * 2^k` lies in
/// `[100 * 2^23, 100 * 2^24)`.
pub proof fn lemma_percent_normalized(n: u8)
    requires
        n >= 1,
    ensures
        100 * 0x80_0000 <= n as nat * percent_scale(n as nat) < 100 * 0x100_0000,
{
}

/// The float bit pattern of a 0-100 UI percentage scaled to 0.0-1.0.
pub fn percent_to_bits(n: u8) -> (r: u32)
    ensures
        r == percent_bits(n),
{
    if n == 0 {
        return 0;
    }
    let (k, scale): (u64, u64) = if n >= 200 {
        (22, 0x40_0000)
    } else if n >= 100 {
        (23, 0x80_0000)
    } else if n >= 50 {
        (24, 0x100_0000)
    } else if n >= 25 {
        (25, 0x200_0000)
    } else if n >= 13 {
        (26, 0x400_0000)
    } else if n >= 7 {
        (27, 0x800_0000)
    } else if n >= 4 {
        (28, 0x1000_0000)
    } else if n >= 2 {
        (29, 0x2000_0000)
    } else {
        (30, 0x4000_0000)
    };
    assert(k == percent_shift(n as nat) && scale == percent_scale(n as nat));
    proof {
        lemma_percent_normalized(n);
    }
    let t: u64 = n as u64 * scale;
    let q = t / 100;
    let rem = t % 100;
    let m: u64 = if 2 * rem > 100 {
        q + 1
    } else if 2 * rem < 100 {
        q
    } else if q % 2 == 0 {
        q
    } else {
        q + 1
    };
    ((149 - k) * 0x80_0000 + m) as u32
}

/// Converts a 0-100 value to the four little-endian bytes of the float
/// `value / 100`.
pub fn value_to_bytes(value: u8) -> (r: [u8; 4])
    ensures
        r@ == le_bytes(percent_bits(value)),
{
    to_le(percent_to_bits(value))
}

} // verus!
