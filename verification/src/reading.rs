//! From captured edge timings to a reading: bits, bytes, checksum, values.

use crate::error::DhtError;
use vstd::prelude::*;

verus! {

/// Bits in one response of the sensor.
pub const RESPONSE_BITS: usize = 40;

/// Bytes in one response: humidity high and low, temperature high and low,
/// checksum.
pub const FRAME_BYTES: usize = 5;

/// Timed edges in one response: the edge that ends the sensor's get-ready
/// level, then a rising and a falling edge for each bit.
pub const EDGES: usize = 2 * RESPONSE_BITS + 1;

/// A valid reading from the sensor.
///
/// Both values are in tenths of their unit, which is the sensor's resolution:
/// a humidity of 652 is 65.2 %RH, a temperature of -264 is -26.4 °C.
#[derive(Debug, Clone, Copy, PartialEq, Eq, Structural)]
pub struct SensorReading {
    /// Relative humidity, in tenths of a percent.
    pub humidity: u16,
    /// Temperature, in tenths of a degree Celsius.
    pub temperature: i16,
}

/// Value of `bits` read as a binary numeral, most significant bit first.
pub open spec fn numeral(bits: Seq<bool>) -> nat
    decreases bits.len(),
{
    if bits.len() == 0 {
        0
    } else {
        2 * numeral(bits.drop_last()) + if bits.last() {
            1nat
        } else {
            0nat
        }
    }
}

/// Bit `k` of the response. `cycles[0]` is the time up to the first edge and
/// carries nothing; after it each bit has the duration of its low phase and
/// then that of its high phase. The low phase has a fixed length, so the bit is
/// set exactly if the high phase lasted longer.
pub open spec fn bit_of(cycles: Seq<u32>, k: int) -> bool {
    cycles[2 * k + 1] < cycles[2 * k + 2]
}

/// The bits of the response, in the order in which they arrived.
pub open spec fn bits_of(cycles: Seq<u32>) -> Seq<bool> {
    Seq::new(RESPONSE_BITS as nat, |k: int| bit_of(cycles, k))
}

/// Byte `j` of the response: eight bits, most significant first.
pub open spec fn byte_of(cycles: Seq<u32>, j: int) -> nat {
    numeral(bits_of(cycles).subrange(8 * j, 8 * j + 8))
}

/// The bytes of the response.
pub open spec fn frame_of(cycles: Seq<u32>) -> Seq<u8> {
    Seq::new(FRAME_BYTES as nat, |j: int| byte_of(cycles, j) as u8)
}

/// The checksum that belongs to a frame: the sum of its four data bytes,
/// modulo 256.
pub open spec fn checksum_of(frame: Seq<u8>) -> int {
    (frame[0] + frame[1] + frame[2] + frame[3]) % 256
}

/// Humidity in a frame, in tenths of a percent.
pub open spec fn humidity_of(frame: Seq<u8>) -> int {
    256 * frame[0] + frame[1]
}

/// Size of the temperature in a frame, in tenths of a degree: the sixteen
/// temperature bits without the topmost.
pub open spec fn magnitude_of(frame: Seq<u8>) -> int {
    256 * (frame[2] % 128) + frame[3]
}

/// Temperature in a frame, in tenths of a degree. The topmost of the sixteen
/// temperature bits is the sign.
pub open spec fn temperature_of(frame: Seq<u8>) -> int {
    if frame[2] >= 128 {
        -magnitude_of(frame)
    } else {
        magnitude_of(frame)
    }
}

/// What a frame of five bytes means: a reading if the checksum byte is the sum
/// of the data bytes, else the two checksums.
pub open spec fn interpret<DeviceError>(frame: Seq<u8>) -> Result<
    SensorReading,
    DhtError<DeviceError>,
> {
    if frame[4] == checksum_of(frame) {
        Ok(
            SensorReading {
                humidity: humidity_of(frame) as u16,
                temperature: temperature_of(frame) as i16,
            },
        )
    } else {
        Err(DhtError::Checksum { correct: frame[4], actual: checksum_of(frame) as u8 })
    }
}

/// What 81 captured durations mean.
pub open spec fn decode_of<DeviceError>(cycles: Seq<u32>) -> Result<
    SensorReading,
    DhtError<DeviceError>,
> {
    interpret(frame_of(cycles))
}

/// A numeral of `n` bits is below the `n`-th power of two.
proof fn lemma_numeral_bound(bits: Seq<bool>)
    requires
        bits.len() <= 8,
    ensures
        bits.len() == 0 ==> numeral(bits) == 0,
        bits.len() == 1 ==> numeral(bits) < 2,
        bits.len() == 2 ==> numeral(bits) < 4,
        bits.len() == 3 ==> numeral(bits) < 8,
        bits.len() == 4 ==> numeral(bits) < 16,
        bits.len() == 5 ==> numeral(bits) < 32,
        bits.len() == 6 ==> numeral(bits) < 64,
        bits.len() == 7 ==> numeral(bits) < 128,
        bits.len() == 8 ==> numeral(bits) < 256,
    decreases bits.len(),
{
    if bits.len() > 0 {
        lemma_numeral_bound(bits.drop_last());
    }
}

/// Every byte of a response fits in eight bits.
pub proof fn law_bytes_fit(cycles: Seq<u32>)
    ensures
        forall|j: int| 0 <= j < FRAME_BYTES ==> #[trigger] byte_of(cycles, j) < 256,
{
    assert forall|j: int| 0 <= j < FRAME_BYTES implies #[trigger] byte_of(cycles, j) < 256 by {
        lemma_numeral_bound(bits_of(cycles).subrange(8 * j, 8 * j + 8));
    }
}

/// Every value in a frame fits in its field of a reading. The temperature
/// never takes the lowest value of its type.
pub proof fn law_values_fit(frame: Seq<u8>)
    requires
        frame.len() == FRAME_BYTES,
    ensures
        0 <= checksum_of(frame) < 256,
        0 <= humidity_of(frame) <= u16::MAX,
        0 <= magnitude_of(frame) <= i16::MAX,
        -i16::MAX <= temperature_of(frame) <= i16::MAX,
{
}

/// Packs the bits that the durations encode into the five bytes of the frame.
pub fn assemble(cycles: &[u32; EDGES]) -> (frame: [u8; FRAME_BYTES])
    ensures
        frame@ == frame_of(cycles@),
{
    let mut frame: [u8; FRAME_BYTES] = [0; FRAME_BYTES];
    let ghost bits = bits_of(cycles@);
    for j in 0..FRAME_BYTES
        invariant
            bits == bits_of(cycles@),
            forall|i: int| 0 <= i < j ==> #[trigger] frame@[i] == byte_of(cycles@, i),
    {
        let mut byte: u8 = 0;
        for b in 0..8usize
            invariant
                j < FRAME_BYTES,
                bits == bits_of(cycles@),
                byte == numeral(bits.subrange(8 * j, 8 * j + b)),
        {
            let low = cycles[1 + 2 * (8 * j + b)];
            let high = cycles[2 + 2 * (8 * j + b)];
            proof {
                let done = bits.subrange(8 * j, 8 * j + b);
                let more = bits.subrange(8 * j, 8 * j + b + 1);
                assert(more.drop_last() == done);
                assert(more.last() == bit_of(cycles@, 8 * j + b));
                lemma_numeral_bound(done);
                lemma_numeral_bound(more);
            }
            byte = if low < high {
                2 * byte + 1
            } else {
                2 * byte
            };
        }
        frame[j] = byte;
    }
    assert(frame@ =~= frame_of(cycles@));
    frame
}

/// Two bytes put side by side, the first on top, are 256 times the first plus
/// the second.
proof fn lemma_byte_pair(high: u8, low: u8)
    ensures
        ((high as u16) << 8) | (low as u16) == 256 * high + low,
        high & 0x7f == high % 128,
        (high & 0x80 == 0) <==> high < 128,
        (high >> 7 != 0) <==> high >= 128,
{
    assert(((high as u16) << 8) | (low as u16) == 256 * high + low) by (bit_vector);
    assert(high & 0x7f == high % 128) by (bit_vector);
    assert((high & 0x80 == 0) <==> high < 128) by (bit_vector);
    assert((high >> 7 != 0) <==> high >= 128) by (bit_vector);
}

/// The sign of the temperature is bit 7 of the third byte. With the bit clear
/// the temperature is the number that the other fifteen temperature bits
/// spell, and so not negative; with the bit set it is that number negated.
pub proof fn law_sign_bit(frame: Seq<u8>)
    requires
        frame.len() == FRAME_BYTES,
    ensures
        magnitude_of(frame) == (((frame[2] & 0x7f) as u16) << 8) | (frame[3] as u16),
        frame[2] & 0x80 == 0 ==> temperature_of(frame) == magnitude_of(frame) >= 0,
        frame[2] & 0x80 != 0 ==> temperature_of(frame) == -magnitude_of(frame) <= 0,
{
    lemma_byte_pair(frame[2], frame[3]);
    lemma_byte_pair(frame[2] & 0x7f, frame[3]);
}

impl SensorReading {
    /// Checks the checksum of a frame and reads the two values out of it.
    ///
    /// Succeeds exactly if the fifth byte is the wrapping sum of the first four.
    pub fn from_frame<DeviceError>(frame: &[u8; FRAME_BYTES]) -> (result: Result<
        SensorReading,
        DhtError<DeviceError>,
    >)
        ensures
            result == interpret::<DeviceError>(frame@),
            result is Ok <==> frame@[4] == checksum_of(frame@),
            result matches Ok(reading) ==> reading.humidity == humidity_of(frame@)
                && reading.temperature == temperature_of(frame@),
            result matches Err(error) ==> error == (DhtError::<DeviceError>::Checksum {
                correct: frame@[4],
                actual: checksum_of(frame@) as u8,
            }),
    {
        let correct = frame[4];
        let actual = frame[0].wrapping_add(frame[1]).wrapping_add(frame[2]).wrapping_add(frame[3]);
        if actual != correct {
            return Err(DhtError::Checksum { correct, actual });
        }
        proof {
            law_values_fit(frame@);
            lemma_byte_pair(frame[0], frame[1]);
            lemma_byte_pair(frame[2], frame[3]);
            lemma_byte_pair(frame[2] & 0x7f, frame[3]);
        }
        let humidity: u16 = ((frame[0] as u16) << 8) | (frame[1] as u16);
        let is_negative = (frame[2] >> 7) != 0;
        let magnitude: u16 = (((frame[2] & 0x7f) as u16) << 8) | (frame[3] as u16);
        let temperature: i16 = if is_negative {
            -(magnitude as i16)
        } else {
            magnitude as i16
        };
        Ok(SensorReading { humidity, temperature })
    }
}

/// Decodes the durations between the 81 edges of a response.
///
/// The first duration is skipped. Of the others, each pair gives one bit, the
/// 40 bits give five bytes, and the bytes give a reading if their checksum
/// holds.
pub fn decode<DeviceError>(cycles: &[u32; EDGES]) -> (result: Result<
    SensorReading,
    DhtError<DeviceError>,
>)
    ensures
        result == decode_of::<DeviceError>(cycles@),
{
    let frame = assemble(cycles);
    SensorReading::from_frame(&frame)
}

} // verus!
