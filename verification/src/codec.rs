//! The protocol codec: pure, stateless construction of checksummed command
//! frames and decoding of the fixed fourteen-byte status reply.

use vstd::prelude::*;
use vstd::arithmetic::div_mod::lemma_add_mod_noop;

verus! {

/// The sum of a byte sequence as an unbounded natural number.
pub open spec fn byte_sum(s: Seq<u8>) -> nat
    decreases s.len(),
{
    if s.len() == 0 {
        0
    } else {
        byte_sum(s.drop_last()) + s.last() as nat
    }
}

/// The protocol checksum of a byte sequence: its sum truncated to the low
/// eight bits.
pub open spec fn checksum_spec(s: Seq<u8>) -> u8 {
    (byte_sum(s) % 256) as u8
}

proof fn lemma_byte_sum_push(s: Seq<u8>, b: u8)
    ensures
        byte_sum(s.push(b)) == byte_sum(s) + b,
{
    assert(s.push(b).drop_last() =~= s);
}

/// The checksum of every prefix of a frame, extended by one byte, stays a sum
/// modulo 256, so it can be accumulated one byte at a time.
proof fn lemma_checksum_step(s: Seq<u8>, b: u8)
    ensures
        checksum_spec(s.push(b)) == ((checksum_spec(s) + b) % 256) as u8,
{
    lemma_byte_sum_push(s, b);
    lemma_add_mod_noop(byte_sum(s) as int, b as int, 256);
}

/// The checksum of a three-byte sequence, written out as plain arithmetic,
/// so that the two fixed frame shapes can be pinned to literal bytes.
proof fn lemma_checksum_of_three(a: u8, b: u8, c: u8)
    ensures
        checksum_spec(seq![a, b, c]) == ((a + b + c) % 256) as u8,
{
    let s0: Seq<u8> = Seq::empty();
    let s1 = s0.push(a);
    let s2 = s1.push(b);
    let s3 = s2.push(c);
    assert(byte_sum(s0) == 0);
    lemma_byte_sum_push(s0, a);
    lemma_byte_sum_push(s1, b);
    lemma_byte_sum_push(s2, c);
    assert(s3 =~= seq![a, b, c]);
}

/// The checksum byte of a frame: the sum of all given bytes, truncated to
/// eight bits.
pub fn get_checksum(buf: &[u8]) -> (r: u8)
    ensures
        r == checksum_spec(buf@),
{
    let mut acc: u8 = 0;
    let mut i: usize = 0;
    while i < buf.len()
        invariant
            i <= buf@.len(),
            acc == checksum_spec(buf@.take(i as int)),
        decreases buf@.len() - i,
    {
        let b = buf[i];
        proof {
            assert(buf@.take(i as int).push(b) =~= buf@.take((i + 1) as int));
            lemma_checksum_step(buf@.take(i as int), b);
        }
        acc = ((acc as u16 + b as u16) % 256) as u8;
        i = i + 1;
    }
    proof {
        assert(buf@.take(buf@.len() as int) =~= buf@);
    }
    acc
}

/// The three payload bytes of a state query.
pub open spec fn query_payload() -> Seq<u8> {
    seq![0x81u8, 0x8Au8, 0x8Bu8]
}

/// A complete query frame: the query payload with its checksum appended.
pub open spec fn query_frame() -> Seq<u8> {
    query_payload().push(checksum_spec(query_payload()))
}

/// The seven payload bytes of a set-color command: command byte, the three
/// color channels, a zero, and the colors-only mode marker.
pub open spec fn set_color_payload(red: u8, green: u8, blue: u8) -> Seq<u8> {
    seq![0x31u8, red, green, blue, 0x00u8, 0xF0u8, 0x0Fu8]
}

/// A complete set-color frame: the payload with its checksum appended.
pub open spec fn set_color_frame(red: u8, green: u8, blue: u8) -> Seq<u8> {
    set_color_payload(red, green, blue).push(checksum_spec(set_color_payload(red, green, blue)))
}

/// The three payload bytes of a set-power command; the middle byte asks for
/// on (0x23) or off (0x24).
pub open spec fn set_power_payload(on: bool) -> Seq<u8> {
    seq![0x71u8, if on { 0x23u8 } else { 0x24u8 }, 0x0Fu8]
}

/// A complete set-power frame: the payload with its checksum appended.
pub open spec fn set_power_frame(on: bool) -> Seq<u8> {
    set_power_payload(on).push(checksum_spec(set_power_payload(on)))
}

/// The fixed fourteen-byte status reply, one field per byte offset.
#[derive(Debug, Clone, Copy, PartialEq, Eq, Structural)]
pub struct StatusReply {
    /// Byte 0: message head.
    pub head: u8,
    /// Byte 1: device type.
    pub device_type: u8,
    /// Byte 2: power byte, 0x23 when on, 0x24 when off.
    pub power: u8,
    /// Byte 3: preset pattern.
    pub preset_pattern: u8,
    /// Byte 4: color mode (WW=1, WW+CW=2, RGB=3, RGBW=4, RGBWW=5).
    pub color_mode: u8,
    /// Byte 5: speed, 1 fastest to 31 slowest.
    pub speed: u8,
    /// Byte 6: red channel.
    pub red: u8,
    /// Byte 7: green channel.
    pub green: u8,
    /// Byte 8: blue channel.
    pub blue: u8,
    /// Byte 9: warm-white channel.
    pub warm_white: u8,
    /// Byte 10: version number.
    pub version: u8,
    /// Byte 11: cool-white channel.
    pub cool_white: u8,
    /// Byte 12: color-mode flag, 0xF0 colors set, 0x0F whites set, 0x00 all set.
    pub mode_flag: u8,
    /// Byte 13: checksum of bytes 0 through 12.
    pub checksum: u8,
}

/// How decoding a status reply can fail.
#[derive(Debug, Clone, Copy, PartialEq, Eq, Structural)]
pub enum DecodeError {
    /// The input was not exactly fourteen bytes long.
    WrongLength,
}

/// The status record read off a fourteen-byte reply, field by field.
pub open spec fn status_of(s: Seq<u8>) -> StatusReply {
    StatusReply {
        head: s[0],
        device_type: s[1],
        power: s[2],
        preset_pattern: s[3],
        color_mode: s[4],
        speed: s[5],
        red: s[6],
        green: s[7],
        blue: s[8],
        warm_white: s[9],
        version: s[10],
        cool_white: s[11],
        mode_flag: s[12],
        checksum: s[13],
    }
}

/// Decode a raw status reply. Succeeds exactly on fourteen-byte input; any
/// other length is rejected, never truncated or padded. The embedded
/// checksum byte is exposed as a field, not re-verified against the other
/// thirteen: a stricter caller may recompute it with `get_checksum`.
pub fn decode_status(bytes: &[u8]) -> (r: Result<StatusReply, DecodeError>)
    ensures
        bytes@.len() == 14 ==> r == Ok::<StatusReply, DecodeError>(status_of(bytes@)),
        bytes@.len() != 14 ==> r == Err::<StatusReply, DecodeError>(DecodeError::WrongLength),
{
    if bytes.len() != 14 {
        return Err(DecodeError::WrongLength);
    }
    Ok(StatusReply {
        head: bytes[0],
        device_type: bytes[1],
        power: bytes[2],
        preset_pattern: bytes[3],
        color_mode: bytes[4],
        speed: bytes[5],
        red: bytes[6],
        green: bytes[7],
        blue: bytes[8],
        warm_white: bytes[9],
        version: bytes[10],
        cool_white: bytes[11],
        mode_flag: bytes[12],
        checksum: bytes[13],
    })
}

/// The caller-facing view of a device: whether it is powered on and the
/// three color channels.
#[derive(Debug, Clone, Copy, PartialEq, Eq, Structural)]
pub struct MagicHomeState {
    /// False exactly when the power byte reports off (0x24).
    pub is_enabled: bool,
    /// Red channel, 0 to 255.
    pub red: u8,
    /// Green channel, 0 to 255.
    pub green: u8,
    /// Blue channel, 0 to 255.
    pub blue: u8,
}

/// The device state a status record projects to: enabled unless the power
/// byte reports off, and the three color channels copied over.
pub open spec fn device_state_of(reply: StatusReply) -> MagicHomeState {
    MagicHomeState {
        is_enabled: reply.power != 0x24,
        red: reply.red,
        green: reply.green,
        blue: reply.blue,
    }
}

/// Project a decoded status reply onto the caller-facing device state.
pub fn to_device_state(reply: &StatusReply) -> (r: MagicHomeState)
    ensures
        r == device_state_of(*reply),
{
    MagicHomeState {
        is_enabled: reply.power != 0x24,
        red: reply.red,
        green: reply.green,
        blue: reply.blue,
    }
}

/// The frame that asks the device for its current state.
pub fn encode_query() -> (r: Vec<u8>)
    ensures
        r@ == query_frame(),
        r@ == seq![0x81u8, 0x8Au8, 0x8Bu8, 0x96u8],
        r@.last() == checksum_spec(r@.drop_last()),
{
    let mut buf: Vec<u8> = Vec::new();
    buf.push(0x81);
    buf.push(0x8A);
    buf.push(0x8B);
    proof {
        assert(buf@ =~= query_payload());
        lemma_checksum_of_three(0x81, 0x8A, 0x8B);
        assert(query_payload() =~= seq![0x81u8, 0x8Au8, 0x8Bu8]);
    }
    let ck = get_checksum(buf.as_slice());
    buf.push(ck);
    proof {
        assert(buf@ =~= seq![0x81u8, 0x8Au8, 0x8Bu8, 0x96u8]);
        assert(buf@.drop_last() =~= query_payload());
    }
    buf
}

/// The frame that sets the three RGB channels and leaves the white channels
/// untouched.
pub fn encode_set_color(red: u8, green: u8, blue: u8) -> (r: Vec<u8>)
    ensures
        r@ == set_color_frame(red, green, blue),
        r@.len() == 8,
        r@.last() == checksum_spec(r@.drop_last()),
{
    let mut buf: Vec<u8> = Vec::new();
    buf.push(0x31);
    buf.push(red);
    buf.push(green);
    buf.push(blue);
    buf.push(0x00);
    buf.push(0xF0);
    buf.push(0x0F);
    proof {
        assert(buf@ =~= set_color_payload(red, green, blue));
    }
    let ck = get_checksum(buf.as_slice());
    buf.push(ck);
    proof {
        assert(buf@.drop_last() =~= set_color_payload(red, green, blue));
    }
    buf
}

/// The frame that switches the device on or off to the given absolute state,
/// never a toggle relative to the current one.
pub fn encode_set_power(on: bool) -> (r: Vec<u8>)
    ensures
        r@ == set_power_frame(on),
        on ==> r@ == seq![0x71u8, 0x23u8, 0x0Fu8, 0xA3u8],
        !on ==> r@ == seq![0x71u8, 0x24u8, 0x0Fu8, 0xA4u8],
        r@.last() == checksum_spec(r@.drop_last()),
{
    let mut buf: Vec<u8> = Vec::new();
    buf.push(0x71);
    buf.push(if on { 0x23 } else { 0x24 });
    buf.push(0x0F);
    proof {
        assert(buf@ =~= set_power_payload(on));
        lemma_checksum_of_three(0x71, if on { 0x23u8 } else { 0x24u8 }, 0x0F);
        assert(set_power_payload(on) =~= seq![0x71u8, if on { 0x23u8 } else { 0x24u8 }, 0x0Fu8]);
    }
    let ck = get_checksum(buf.as_slice());
    buf.push(ck);
    proof {
        assert(buf@.drop_last() =~= set_power_payload(on));
        if on {
            assert(buf@ =~= seq![0x71u8, 0x23u8, 0x0Fu8, 0xA3u8]);
        } else {
            assert(buf@ =~= seq![0x71u8, 0x24u8, 0x0Fu8, 0xA4u8]);
        }
    }
    buf
}

/// Law: encoding is idempotent across calls. Each encoder's contract pins its
/// frame to a function of the arguments alone, so any two frames encoded from
/// the same arguments are byte-identical.
pub proof fn lemma_encode_idempotent(
    q1: Seq<u8>,
    q2: Seq<u8>,
    c1: Seq<u8>,
    c2: Seq<u8>,
    p1: Seq<u8>,
    p2: Seq<u8>,
    red: u8,
    green: u8,
    blue: u8,
    on: bool,
)
    requires
        q1 == query_frame(),
        q2 == query_frame(),
        c1 == set_color_frame(red, green, blue),
        c2 == set_color_frame(red, green, blue),
        p1 == set_power_frame(on),
        p2 == set_power_frame(on),
    ensures
        q1 == q2,
        c1 == c2,
        p1 == p2,
{
}

/// Law: the protocol is not round-trip symmetric. A command frame is four or
/// eight bytes and a status reply is fourteen, so no encoded command ever
/// decodes as a status reply: by the contract of `decode_status`, decoding
/// any command frame fails with `WrongLength`.
pub proof fn lemma_no_request_reply_round_trip(red: u8, green: u8, blue: u8, on: bool)
    ensures
        query_frame().len() == 4,
        set_color_frame(red, green, blue).len() == 8,
        set_power_frame(on).len() == 4,
        query_frame().len() != 14,
        set_color_frame(red, green, blue).len() != 14,
        set_power_frame(on).len() != 14,
{
}

} // verus!
