//! Decoding what was read from the FIFO.
//!
//! The FIFO holds packets.  The first byte of a packet, its header, says
//! which sensors the packet carries and in which precision, and with that how
//! long the packet is.  Multi-byte fields are big-endian, as the bring-up
//! sequence configures them.
//!
//! | header says                     | length | contents after the header                                   |
//! |---------------------------------|--------|-------------------------------------------------------------|
//! | accelerometer only              | 8      | 3 x 16-bit axes, 8-bit temperature                          |
//! | gyroscope only                  | 8      | 3 x 16-bit axes, 8-bit temperature                          |
//! | both                            | 16     | 2 x 3 x 16-bit axes, 8-bit temperature, 16-bit time stamp   |
//! | both, high resolution           | 20     | the same with a 16-bit temperature, then 3 extension bytes  |
//!
//! In a high-resolution packet each axis has 20 bits: the 16-bit field holds
//! the upper 16, and an extension byte the lower 4 of the accelerometer axis
//! in its high nibble and the lower 4 of the gyroscope axis in its low
//! nibble.

use vstd::prelude::*;

verus! {

/// Header bit: the FIFO is empty, what follows is no packet.
pub const HEADER_MSG: u8 = 0x80;

/// Header bit: the packet carries accelerometer data.
pub const HEADER_ACCEL: u8 = 0x40;

/// Header bit: the packet carries gyroscope data.
pub const HEADER_GYRO: u8 = 0x20;

/// Header bit: the packet carries 20-bit samples.
pub const HEADER_20: u8 = 0x10;

/// The forms a packet can have.
#[derive(Clone, Copy, Debug, PartialEq, Eq, Structural)]
pub enum PacketKind {
    /// Accelerometer axes and temperature.
    Accel,
    /// Gyroscope axes and temperature.
    Gyro,
    /// Both sensors, temperature and time stamp.
    Combined,
    /// Both sensors in 20 bits, temperature in 16 bits, and time stamp.
    HighResolution,
}

impl PacketKind {
    /// Length in bytes of a packet of this kind, header included.
    pub open spec fn spec_len(self) -> usize {
        match self {
            PacketKind::Accel => 8,
            PacketKind::Gyro => 8,
            PacketKind::Combined => 16,
            PacketKind::HighResolution => 20,
        }
    }

    /// Length in bytes of a packet of this kind, header included.
    #[verifier::when_used_as_spec(spec_len)]
    pub fn len(self) -> (n: usize)
        ensures
            n == self.spec_len(),
    {
        match self {
            PacketKind::Accel => 8,
            PacketKind::Gyro => 8,
            PacketKind::Combined => 16,
            PacketKind::HighResolution => 20,
        }
    }
}

/// The kind of packet that `header` begins, and `None` if it begins none:
/// the FIFO has flagged itself empty, no sensor is marked valid, or high
/// resolution is marked without both sensors.
pub open spec fn spec_packet_kind(header: u8) -> Option<PacketKind> {
    let accel = header & HEADER_ACCEL != 0;
    let gyro = header & HEADER_GYRO != 0;
    let high = header & HEADER_20 != 0;
    if header & HEADER_MSG != 0 {
        None
    } else if high {
        if accel && gyro {
            Some(PacketKind::HighResolution)
        } else {
            None
        }
    } else if accel && gyro {
        Some(PacketKind::Combined)
    } else if accel {
        Some(PacketKind::Accel)
    } else if gyro {
        Some(PacketKind::Gyro)
    } else {
        None
    }
}

/// The kind of packet that `header` begins, and `None` if it begins none.
#[verifier::when_used_as_spec(spec_packet_kind)]
pub fn packet_kind(header: u8) -> (kind: Option<PacketKind>)
    ensures
        kind == spec_packet_kind(header),
{
    let accel = header & HEADER_ACCEL != 0;
    let gyro = header & HEADER_GYRO != 0;
    let high = header & HEADER_20 != 0;
    if header & HEADER_MSG != 0 {
        None
    } else if high {
        if accel && gyro {
            Some(PacketKind::HighResolution)
        } else {
            None
        }
    } else if accel && gyro {
        Some(PacketKind::Combined)
    } else if accel {
        Some(PacketKind::Accel)
    } else if gyro {
        Some(PacketKind::Gyro)
    } else {
        None
    }
}

/// The signed number that the two bytes hold in two's complement, high byte
/// first.
pub open spec fn spec_be_i16(high: u8, low: u8) -> i32 {
    let unsigned = high as int * 256 + low as int;
    if unsigned >= 32768 {
        (unsigned - 65536) as i32
    } else {
        unsigned as i32
    }
}

/// The signed number that the two bytes hold in two's complement, high byte
/// first.
#[verifier::when_used_as_spec(spec_be_i16)]
pub fn be_i16(high: u8, low: u8) -> (value: i32)
    ensures
        value == spec_be_i16(high, low),
        -32768 <= value <= 32767,
{
    let unsigned: i32 = high as i32 * 256 + low as i32;
    if unsigned >= 32768 {
        unsigned - 65536
    } else {
        unsigned
    }
}

/// The signed number that one byte holds in two's complement.
pub open spec fn spec_i8_value(byte: u8) -> i16 {
    if byte >= 128 {
        (byte as int - 256) as i16
    } else {
        byte as i16
    }
}

/// The signed number that one byte holds in two's complement.
#[verifier::when_used_as_spec(spec_i8_value)]
pub fn i8_value(byte: u8) -> (value: i16)
    ensures
        value == spec_i8_value(byte),
        -128 <= value <= 127,
{
    if byte >= 128 {
        byte as i16 - 256
    } else {
        byte as i16
    }
}

/// The 20-bit signed number whose upper 16 bits are `high`, `low` and whose
/// lower 4 bits are `nibble`.
pub open spec fn spec_extended(high: u8, low: u8, nibble: u8) -> i32 {
    (spec_be_i16(high, low) * 16 + nibble % 16) as i32
}

/// The 20-bit signed number whose upper 16 bits are `high`, `low` and whose
/// lower 4 bits are `nibble`.
#[verifier::when_used_as_spec(spec_extended)]
pub fn extended(high: u8, low: u8, nibble: u8) -> (value: i32)
    ensures
        value == spec_extended(high, low, nibble),
        -524288 <= value <= 524287,
{
    be_i16(high, low) * 16 + (nibble % 16) as i32
}

/// The three axes of one sensor, in the sensor's own units.
#[derive(Clone, Copy, Debug, PartialEq, Eq, Structural)]
pub struct Axes {
    pub x: i32,
    pub y: i32,
    pub z: i32,
}

/// One decoded packet.
#[derive(Clone, Copy, Debug, PartialEq, Eq, Structural)]
pub struct Sample {
    /// The header as it was read.
    pub header: u8,
    /// Accelerometer axes, if the packet carries them: 16-bit values, or
    /// 20-bit values in a high-resolution packet.
    pub accel: Option<Axes>,
    /// Gyroscope axes, if the packet carries them, in the same precision.
    pub gyro: Option<Axes>,
    /// Temperature: an 8-bit value, or a 16-bit value in a high-resolution
    /// packet.
    pub temperature: i16,
    /// Time stamp, if the packet carries one.
    pub timestamp: Option<u16>,
}

/// Three 16-bit axes that begin at `at`.
pub open spec fn spec_axes(bytes: Seq<u8>, at: int) -> Axes {
    Axes {
        x: spec_be_i16(bytes[at], bytes[at + 1]),
        y: spec_be_i16(bytes[at + 2], bytes[at + 3]),
        z: spec_be_i16(bytes[at + 4], bytes[at + 5]),
    }
}

/// Three 20-bit axes: the upper 16 bits of each begin at `at`, the lower 4
/// are the nibbles of the extension bytes at 17, 18 and 19, the high nibble
/// if `upper` and the low nibble otherwise.
pub open spec fn spec_axes_extended(bytes: Seq<u8>, at: int, upper: bool) -> Axes {
    Axes {
        x: spec_extended(bytes[at], bytes[at + 1], spec_nibble(bytes[17], upper)),
        y: spec_extended(bytes[at + 2], bytes[at + 3], spec_nibble(bytes[18], upper)),
        z: spec_extended(bytes[at + 4], bytes[at + 5], spec_nibble(bytes[19], upper)),
    }
}

/// The high nibble of `byte` if `upper`, and its low nibble otherwise.
pub open spec fn spec_nibble(byte: u8, upper: bool) -> u8 {
    if upper {
        byte / 16
    } else {
        byte % 16
    }
}

/// The unsigned number that the two bytes hold, high byte first.
pub open spec fn spec_be_u16(high: u8, low: u8) -> u16 {
    (high as int * 256 + low as int) as u16
}

/// The unsigned number that the two bytes hold, high byte first.
#[verifier::when_used_as_spec(spec_be_u16)]
pub fn be_u16(high: u8, low: u8) -> (value: u16)
    ensures
        value == spec_be_u16(high, low),
{
    high as u16 * 256 + low as u16
}

/// What a packet of kind `kind` holds, if `packet` is all of its bytes.
pub open spec fn spec_sample(kind: PacketKind, packet: Seq<u8>) -> Sample {
    match kind {
        PacketKind::Accel => Sample {
            header: packet[0],
            accel: Some(spec_axes(packet, 1)),
            gyro: None,
            temperature: spec_i8_value(packet[7]),
            timestamp: None,
        },
        PacketKind::Gyro => Sample {
            header: packet[0],
            accel: None,
            gyro: Some(spec_axes(packet, 1)),
            temperature: spec_i8_value(packet[7]),
            timestamp: None,
        },
        PacketKind::Combined => Sample {
            header: packet[0],
            accel: Some(spec_axes(packet, 1)),
            gyro: Some(spec_axes(packet, 7)),
            temperature: spec_i8_value(packet[13]),
            timestamp: Some(spec_be_u16(packet[14], packet[15])),
        },
        PacketKind::HighResolution => Sample {
            header: packet[0],
            accel: Some(spec_axes_extended(packet, 1, true)),
            gyro: Some(spec_axes_extended(packet, 7, false)),
            temperature: spec_be_i16(packet[13], packet[14]) as i16,
            timestamp: Some(spec_be_u16(packet[15], packet[16])),
        },
    }
}

/// The samples that `bytes` hold.  Packets are taken from the front, each as
/// long as its header says, until the bytes run out, a header begins no
/// packet, or fewer bytes are left than the header asks for.  What is left
/// then is not decoded.
pub open spec fn spec_decode(bytes: Seq<u8>) -> Seq<Sample>
    decreases bytes.len(),
{
    if bytes.len() == 0 {
        Seq::empty()
    } else {
        match spec_packet_kind(bytes[0]) {
            None => Seq::empty(),
            Some(kind) => if kind.spec_len() <= bytes.len() {
                seq![spec_sample(kind, bytes.take(kind.spec_len() as int))] + spec_decode(
                    bytes.skip(kind.spec_len() as int),
                )
            } else {
                Seq::empty()
            },
        }
    }
}

/// How many of `bytes` are decoded: the lengths of the packets that
/// `spec_decode` takes, added up.
pub open spec fn spec_consumed(bytes: Seq<u8>) -> nat
    decreases bytes.len(),
{
    if bytes.len() == 0 {
        0
    } else {
        match spec_packet_kind(bytes[0]) {
            None => 0,
            Some(kind) => if kind.spec_len() <= bytes.len() {
                kind.spec_len() as nat + spec_consumed(bytes.skip(kind.spec_len() as int))
            } else {
                0
            },
        }
    }
}

/// Three 16-bit axes that begin at `at`.
fn axes(bytes: &[u8], at: usize) -> (a: Axes)
    requires
        at + 6 <= bytes@.len(),
    ensures
        a == spec_axes(bytes@, at as int),
{
    let total: usize = bytes.len();
    Axes {
        x: be_i16(bytes[at], bytes[at + 1]),
        y: be_i16(bytes[at + 2], bytes[at + 3]),
        z: be_i16(bytes[at + 4], bytes[at + 5]),
    }
}

/// Three 20-bit axes of the high-resolution packet that begins at `start`;
/// their upper 16 bits begin `at` bytes into the packet.
fn axes_extended(bytes: &[u8], start: usize, at: usize, upper: bool) -> (a: Axes)
    requires
        start + 20 <= bytes@.len(),
        at + 6 <= 17,
    ensures
        a == spec_axes_extended(bytes@.subrange(start as int, start + 20), at as int, upper),
{
    let total: usize = bytes.len();
    let ext_x: u8 = bytes[start + 17];
    let ext_y: u8 = bytes[start + 18];
    let ext_z: u8 = bytes[start + 19];
    let from: usize = start + at;
    Axes {
        x: extended(bytes[from], bytes[from + 1], if upper { ext_x / 16 } else { ext_x % 16 }),
        y: extended(bytes[from + 2], bytes[from + 3], if upper { ext_y / 16 } else { ext_y % 16 }),
        z: extended(bytes[from + 4], bytes[from + 5], if upper { ext_z / 16 } else { ext_z % 16 }),
    }
}

/// Decodes the packet of kind `kind` that begins at `start`.
pub fn sample_at(kind: PacketKind, bytes: &[u8], start: usize) -> (sample: Sample)
    requires
        start + kind.spec_len() <= bytes@.len(),
    ensures
        sample == spec_sample(kind, bytes@.subrange(start as int, start + kind.spec_len())),
{
    let ghost packet = bytes@.subrange(start as int, start + kind.spec_len());
    let total: usize = bytes.len();
    match kind {
        PacketKind::Accel => {
            let a = axes(bytes, start + 1);
            assert(a == spec_axes(packet, 1));
            Sample {
                header: bytes[start],
                accel: Some(a),
                gyro: None,
                temperature: i8_value(bytes[start + 7]),
                timestamp: None,
            }
        },
        PacketKind::Gyro => {
            let g = axes(bytes, start + 1);
            assert(g == spec_axes(packet, 1));
            Sample {
                header: bytes[start],
                accel: None,
                gyro: Some(g),
                temperature: i8_value(bytes[start + 7]),
                timestamp: None,
            }
        },
        PacketKind::Combined => {
            let a = axes(bytes, start + 1);
            let g = axes(bytes, start + 7);
            assert(a == spec_axes(packet, 1));
            assert(g == spec_axes(packet, 7));
            Sample {
                header: bytes[start],
                accel: Some(a),
                gyro: Some(g),
                temperature: i8_value(bytes[start + 13]),
                timestamp: Some(be_u16(bytes[start + 14], bytes[start + 15])),
            }
        },
        PacketKind::HighResolution => {
            let a = axes_extended(bytes, start, 1, true);
            let g = axes_extended(bytes, start, 7, false);
            let temperature: i32 = be_i16(bytes[start + 13], bytes[start + 14]);
            Sample {
                header: bytes[start],
                accel: Some(a),
                gyro: Some(g),
                temperature: temperature as i16,
                timestamp: Some(be_u16(bytes[start + 15], bytes[start + 16])),
            }
        },
    }
}

/// Decodes `bytes`, as read from the FIFO, and appends the samples to
/// `samples`.  Returns how many samples were appended.  Bytes behind the
/// last whole packet are left out; that is no error.
pub fn decode(bytes: &[u8], samples: &mut Vec<Sample>) -> (count: usize)
    ensures
        final(samples)@ == old(samples)@ + spec_decode(bytes@),
        count == spec_decode(bytes@).len(),
{
    let mut at: usize = 0;
    let mut count: usize = 0;
    assert(bytes@.skip(0) == bytes@);
    while at < bytes.len()
        invariant
            at <= bytes@.len(),
            count <= at,
            samples@ + spec_decode(bytes@.skip(at as int)) == old(samples)@ + spec_decode(bytes@),
            count + spec_decode(bytes@.skip(at as int)).len() == spec_decode(bytes@).len(),
        ensures
            spec_decode(bytes@.skip(at as int)).len() == 0,
        decreases bytes@.len() - at,
    {
        let ghost rest = bytes@.skip(at as int);
        assert(rest[0] == bytes@[at as int]);
        match packet_kind(bytes[at]) {
            None => {
                break ;
            },
            Some(kind) => {
                let n: usize = kind.len();
                if n > bytes.len() - at {
                    break ;
                }
                let sample = sample_at(kind, bytes, at);
                proof {
                    assert(rest.take(n as int) == bytes@.subrange(at as int, at + n));
                    assert(rest.skip(n as int) == bytes@.skip(at + n));
                    assert(samples@.push(sample) + spec_decode(rest.skip(n as int)) == samples@
                        + spec_decode(rest));
                }
                samples.push(sample);
                at = at + n;
                count = count + 1;
            },
        }
    }
    assert(samples@ + spec_decode(bytes@.skip(at as int)) == samples@);
    count
}

/// Decoding stops behind the last whole packet: the bytes from there on,
/// be they padding or the beginning of a packet that was cut off, add
/// nothing and take nothing away.  Every sample stands for between 8 and 20
/// of the bytes before.
pub proof fn lemma_decode_drops_the_rest(bytes: Seq<u8>)
    ensures
        spec_consumed(bytes) <= bytes.len(),
        spec_decode(bytes.take(spec_consumed(bytes) as int)) == spec_decode(bytes),
        8 * spec_decode(bytes).len() <= spec_consumed(bytes) <= 20 * spec_decode(bytes).len(),
    decreases bytes.len(),
{
    let whole = bytes.take(spec_consumed(bytes) as int);
    if bytes.len() > 0 {
        match spec_packet_kind(bytes[0]) {
            Some(kind) => {
                let n = kind.spec_len() as int;
                if n <= bytes.len() {
                    let rest = bytes.skip(n);
                    lemma_decode_drops_the_rest(rest);
                    assert(whole[0] == bytes[0]);
                    assert(whole.take(n) == bytes.take(n));
                    assert(whole.skip(n) == rest.take(spec_consumed(rest) as int));
                }
            },
            None => {},
        }
    }
}

} // verus!
