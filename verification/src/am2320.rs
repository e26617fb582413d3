use vstd::prelude::*;

use crate::errors::SensorError;
use crate::measure::Measure;
use crate::measure::SensorMeasureType;

verus! {

/// CRC-16/MODBUS (poly 0x8005, reflected, init 0xFFFF, no final xor) of a
/// byte sequence. The value is a function of the bytes alone.
pub uninterp spec fn crc16_modbus(bytes: Seq<u8>) -> u16;

/// Relies on crc::Crc::<u16>::checksum with the crc::CRC_16_MODBUS algorithm:
/// the checksum depends on the input bytes alone.
#[verifier::external_body]
fn crc16_checksum(bytes: &[u8]) -> (r: u16)
    ensures
        r == crc16_modbus(bytes@),
{
    crc::Crc::<u16>::new(&crc::CRC_16_MODBUS).checksum(bytes)
}

/// Humidity carried by a response frame, in milli-percent: bytes 2 and 3 form
/// a big-endian unsigned 16-bit count of deci-percent.
pub open spec fn spec_am2320_humidity_milli(bytes: Seq<u8>) -> int {
    (bytes[2] * 256 + bytes[3]) * 100
}

/// Temperature carried by a response frame, in milli-degrees Celsius: the top
/// bit of byte 4 is the sign, the remaining 15 bits (big-endian with byte 5)
/// are the magnitude in deci-degrees.
pub open spec fn spec_am2320_temperature_milli(bytes: Seq<u8>) -> int {
    let magnitude = ((bytes[4] % 128) * 256 + bytes[5]) * 100;
    if bytes[4] >= 128 {
        -magnitude
    } else {
        magnitude
    }
}

/// The reading a valid 8-byte response frame carries.
pub open spec fn spec_am2320_decode(bytes: Seq<u8>) -> Measure {
    Measure {
        temperature: Some(spec_am2320_temperature_milli(bytes) as i64),
        humidity: Some(spec_am2320_humidity_milli(bytes) as i64),
    }
}

/// The 3-byte command frame that asks the device for registers 0x00..0x04:
/// opcode read, start register, register count.
pub fn am2320_read_command() -> (r: [u8; 3])
    ensures
        r@ == seq![0x03u8, 0x00u8, 0x04u8],
{
    let r: [u8; 3] = [0x03, 0x00, 0x04];
    proof {
        assert(r@ =~= seq![0x03u8, 0x00u8, 0x04u8]);
    }
    r
}

/// The fixed measure types of the CRC-framed combo sensor: humidity, then
/// temperature.
pub fn am2320_measure_types() -> (r: Vec<SensorMeasureType>)
    ensures
        r@ == seq![SensorMeasureType::Humidity, SensorMeasureType::Temperature],
{
    let mut r: Vec<SensorMeasureType> = Vec::new();
    r.push(SensorMeasureType::Humidity);
    r.push(SensorMeasureType::Temperature);
    proof {
        assert(r@ =~= seq![SensorMeasureType::Humidity, SensorMeasureType::Temperature]);
    }
    r
}

/// Decode an 8-byte response frame.
///
/// The frame is valid only if the CRC-16/MODBUS over all 8 bytes is zero,
/// that is, the last two bytes hold the checksum of the first six appended
/// little-endian. A valid frame decodes to humidity and temperature exactly
/// as `spec_am2320_decode` states; an invalid one is rejected with the
/// nonzero checksum.
pub fn am2320_measure_from(bytes: [u8; 8]) -> (r: Result<Measure, SensorError>)
    ensures
        match r {
            Ok(m) => crc16_modbus(bytes@) == 0 && m == spec_am2320_decode(bytes@),
            Err(e) => crc16_modbus(bytes@) != 0 && e == SensorError::ChecksumMismatch(
                crc16_modbus(bytes@),
            ),
        },
{
    let crc = crc16_checksum(bytes.as_slice());
    if crc != 0 {
        return Err(SensorError::ChecksumMismatch(crc));
    }
    let humidity_raw: u16 = (bytes[2] as u16) * 256 + (bytes[3] as u16);
    let magnitude: u16 = ((bytes[4] % 128) as u16) * 256 + (bytes[5] as u16);
    let temperature: i64 = if bytes[4] >= 128 {
        -((magnitude as i64) * 100)
    } else {
        (magnitude as i64) * 100
    };
    Ok(Measure { temperature: Some(temperature), humidity: Some((humidity_raw as i64) * 100) })
}

} // verus!
