use dht22::error::DhtError;
use dht22::reading::{assemble, decode, SensorReading, EDGES, FRAME_BYTES, RESPONSE_BITS};

/// Durations as the sensor produces them for `frame`: about 80 microseconds
/// to the first edge, then 50 low and 27 or 70 high for each bit.
fn cycles_for(frame: [u8; 5]) -> [u32; 81] {
    let mut cycles = [0u32; 81];
    cycles[0] = 80;
    for bit in 0..40 {
        let set = frame[bit / 8] & (0x80 >> (bit % 8)) != 0;
        cycles[1 + 2 * bit] = 50;
        cycles[2 + 2 * bit] = if set { 70 } else { 27 };
    }
    cycles
}

fn tenths(value: f32) -> f32 {
    value / 10.0
}

#[test]
fn sizes_of_a_response() {
    assert_eq!(RESPONSE_BITS, 40);
    assert_eq!(FRAME_BYTES, 5);
    assert_eq!(EDGES, 2 * RESPONSE_BITS + 1);
}

#[test]
fn frame_with_positive_temperature() {
    // 0x02 + 0x8C + 0x01 + 0x08 = 0x97
    let reading = SensorReading::from_frame::<()>(&[0x02, 0x8C, 0x01, 0x08, 0x97]);
    assert_eq!(reading, Ok(SensorReading { humidity: 652, temperature: 264 }));
    let reading = reading.unwrap();
    assert_eq!(tenths(reading.humidity as f32), 65.2);
    assert_eq!(tenths(reading.temperature as f32), 26.4);
}

#[test]
fn frame_with_negative_temperature() {
    // 0x02 + 0x8C + 0x81 + 0x08 = 0x117
    let reading = SensorReading::from_frame::<()>(&[0x02, 0x8C, 0x81, 0x08, 0x17]);
    assert_eq!(reading, Ok(SensorReading { humidity: 652, temperature: -264 }));
    assert_eq!(tenths(reading.unwrap().temperature as f32), -26.4);
}

#[test]
fn frame_with_checksum_two_too_high() {
    let reading = SensorReading::from_frame::<()>(&[0x02, 0x8C, 0x01, 0x08, 0x99]);
    assert_eq!(reading, Err(DhtError::Checksum { correct: 0x99, actual: 0x97 }));
    let reading = SensorReading::from_frame::<()>(&[0x02, 0x8C, 0x81, 0x08, 0x19]);
    assert_eq!(reading, Err(DhtError::Checksum { correct: 0x19, actual: 0x17 }));
}

#[test]
fn checksum_wraps_at_256() {
    let reading = SensorReading::from_frame::<()>(&[0xFF, 0xFF, 0x7F, 0xFF, 0x7C]);
    assert_eq!(reading, Ok(SensorReading { humidity: 0xFFFF, temperature: 0x7FFF }));
    let reading = SensorReading::from_frame::<()>(&[0xFF, 0xFF, 0xFF, 0xFF, 0xFC]);
    assert_eq!(reading, Ok(SensorReading { humidity: 0xFFFF, temperature: -0x7FFF }));
}

#[test]
fn frame_of_zeros() {
    let reading = SensorReading::from_frame::<()>(&[0, 0, 0, 0, 0]);
    assert_eq!(reading, Ok(SensorReading { humidity: 0, temperature: 0 }));
}

#[test]
fn negative_zero_is_zero() {
    let reading = SensorReading::from_frame::<()>(&[0, 0, 0x80, 0, 0x80]);
    assert_eq!(reading, Ok(SensorReading { humidity: 0, temperature: 0 }));
}

#[test]
fn decoding_succeeds_exactly_when_the_checksum_matches() {
    let data: [[u8; 4]; 6] = [
        [0x00, 0x00, 0x00, 0x00],
        [0x02, 0x8C, 0x01, 0x08],
        [0x02, 0x8C, 0x81, 0x08],
        [0xFF, 0xFF, 0xFF, 0xFF],
        [0x80, 0x80, 0x80, 0x80],
        [0x03, 0xE8, 0x00, 0xFA],
    ];
    for bytes in data {
        let sum = bytes[0].wrapping_add(bytes[1]).wrapping_add(bytes[2]).wrapping_add(bytes[3]);
        for checksum in 0..=255u8 {
            let frame = [bytes[0], bytes[1], bytes[2], bytes[3], checksum];
            let result = SensorReading::from_frame::<()>(&frame);
            if checksum == sum {
                assert!(result.is_ok());
            } else {
                assert_eq!(result, Err(DhtError::Checksum { correct: checksum, actual: sum }));
            }
        }
    }
}

#[test]
fn sign_bit_negates_the_magnitude() {
    for high in 0..=255u8 {
        for low in [0x00u8, 0x01, 0x7F, 0x80, 0xFF] {
            let sum = high.wrapping_add(low);
            let reading = SensorReading::from_frame::<()>(&[0, 0, high, low, sum]).unwrap();
            let magnitude = (((high & 0x7F) as i16) << 8) | low as i16;
            if high & 0x80 == 0 {
                assert!(reading.temperature >= 0);
                assert_eq!(reading.temperature, magnitude);
            } else {
                assert_eq!(reading.temperature, -magnitude);
            }
        }
    }
}

#[test]
fn humidity_is_the_first_two_bytes() {
    let reading = SensorReading::from_frame::<()>(&[0x03, 0xE8, 0x00, 0x00, 0xEB]).unwrap();
    assert_eq!(reading.humidity, 1000);
    assert_eq!(tenths(reading.humidity as f32), 100.0);
}

#[test]
fn assemble_packs_bits_most_significant_first() {
    let mut cycles = [50u32; 81];
    // Only bit 0 is set: the high phase of the first pair is the longer one.
    cycles[2] = 70;
    assert_eq!(assemble(&cycles), [0x80, 0, 0, 0, 0]);
    // And bit 39, the last one.
    cycles[80] = 51;
    assert_eq!(assemble(&cycles), [0x80, 0, 0, 0, 0x01]);
    // And bit 8, the first of the second byte.
    cycles[18] = 70;
    assert_eq!(assemble(&cycles), [0x80, 0x80, 0, 0, 0x01]);
}

#[test]
fn assemble_ignores_the_first_duration() {
    let mut cycles = cycles_for([0x12, 0x34, 0x56, 0x78, 0x9A]);
    assert_eq!(assemble(&cycles), [0x12, 0x34, 0x56, 0x78, 0x9A]);
    cycles[0] = 0;
    assert_eq!(assemble(&cycles), [0x12, 0x34, 0x56, 0x78, 0x9A]);
    cycles[0] = u32::MAX;
    assert_eq!(assemble(&cycles), [0x12, 0x34, 0x56, 0x78, 0x9A]);
}

#[test]
fn equal_durations_are_a_zero_bit() {
    assert_eq!(assemble(&[50u32; 81]), [0, 0, 0, 0, 0]);
    assert_eq!(assemble(&[0u32; 81]), [0, 0, 0, 0, 0]);
}

#[test]
fn bits_compare_high_against_low_and_not_against_a_threshold() {
    // A slow clock shortens every duration; the bits stay the same.
    let mut cycles = cycles_for([0xA5, 0x5A, 0xFF, 0x00, 0xFE]);
    for duration in cycles.iter_mut() {
        *duration /= 5;
    }
    assert_eq!(assemble(&cycles), [0xA5, 0x5A, 0xFF, 0x00, 0xFE]);
}

#[test]
fn decode_reads_a_whole_response() {
    let cycles = cycles_for([0x02, 0x8C, 0x01, 0x08, 0x97]);
    assert_eq!(decode::<()>(&cycles), Ok(SensorReading { humidity: 652, temperature: 264 }));
    let cycles = cycles_for([0x02, 0x8C, 0x81, 0x08, 0x17]);
    assert_eq!(decode::<()>(&cycles), Ok(SensorReading { humidity: 652, temperature: -264 }));
}

#[test]
fn decode_reports_both_checksums() {
    let cycles = cycles_for([0x02, 0x8C, 0x01, 0x08, 0x99]);
    assert_eq!(decode::<()>(&cycles), Err(DhtError::Checksum { correct: 0x99, actual: 0x97 }));
}

#[test]
fn device_error_converts_into_dht_error() {
    let error: DhtError<&str> = DhtError::from("pin fault");
    assert_eq!(error, DhtError::DeviceError("pin fault"));
    let error: DhtError<u8> = 7u8.into();
    assert_eq!(error, DhtError::DeviceError(7));
}
