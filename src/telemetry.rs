//! Typed reads and writes: each attribute has a fixed command and, for
//! reads, a decoder that checks the response length before it reads fields
//! at fixed offsets of the response payload.
use vstd::prelude::*;
use crate::codec::{decode, decode_spec};
use crate::commands::{Attribute, Direction, ReadWrite, ScooterCommand};
use crate::session::SessionError;

verus! {

/// Little-endian unsigned 16-bit value at `i`.
pub open spec fn le_u16(s: Seq<u8>, i: int) -> u16 {
    (s[i] + 256 * s[i + 1]) as u16
}

/// Little-endian signed (two's complement) 16-bit value at `i`.
pub open spec fn le_i16(s: Seq<u8>, i: int) -> i16 {
    let v = s[i] + 256 * s[i + 1];
    (if v >= 0x8000 {
        v - 0x10000
    } else {
        v
    }) as i16
}

/// Little-endian unsigned 32-bit value at `i`.
pub open spec fn le_u32(s: Seq<u8>, i: int) -> u32 {
    (s[i] + 256 * s[i + 1] + 65536 * s[i + 2] + 16777216 * s[i + 3]) as u32
}

pub fn read_u16(s: &[u8], i: usize) -> (r: u16)
    requires
        i + 1 < s@.len(),
    ensures
        r == le_u16(s@, i as int),
{
    s[i] as u16 + 256 * s[i + 1] as u16
}

pub fn read_i16(s: &[u8], i: usize) -> (r: i16)
    requires
        i + 1 < s@.len(),
    ensures
        r == le_i16(s@, i as int),
{
    let v: u32 = s[i] as u32 + 256 * s[i + 1] as u32;
    if v >= 0x8000 {
        (v as i32 - 0x10000) as i16
    } else {
        v as i16
    }
}

pub fn read_u32(s: &[u8], i: usize) -> (r: u32)
    requires
        i + 3 < s@.len(),
    ensures
        r == le_u32(s@, i as int),
{
    s[i] as u32 + 256 * s[i + 1] as u32 + 65536 * s[i + 2] as u32 + 16777216 * s[i + 3] as u32
}

/// Motor-controller telemetry.
#[derive(Clone, Copy, Debug, PartialEq, Eq, Structural)]
pub struct MotorInfo {
    pub battery_percent: u16,
    /// Current speed in metres per hour (km/h times 1000).
    pub speed_m_per_h: i16,
    /// Average speed in metres per hour.
    pub speed_average_m_per_h: u16,
    pub total_distance_m: u32,
    pub trip_distance_m: i16,
    pub uptime_s: u16,
    /// Frame temperature in tenths of a degree Celsius.
    pub frame_temperature_dc: i16,
}

/// Battery telemetry.
#[derive(Clone, Copy, Debug, PartialEq, Eq, Structural)]
pub struct BatteryInfo {
    /// Remaining capacity in mAh.
    pub capacity: u16,
    pub percent: u16,
    /// Current in hundredths of an ampere.
    pub current_ca: i16,
    /// Voltage in hundredths of a volt.
    pub voltage_cv: u16,
    /// Cell temperatures in degrees Celsius.
    pub temperature_1: i16,
    pub temperature_2: i16,
}

/// The three tail-light modes.
#[derive(Clone, Copy, Debug, PartialEq, Eq, Structural)]
pub enum TailLight {
    Off,
    OnBrake,
    Always,
}

pub open spec fn tail_light_code(t: TailLight) -> u8 {
    match t {
        TailLight::Off => 0,
        TailLight::OnBrake => 1,
        TailLight::Always => 2,
    }
}

/// Payload bytes a motor-info response needs.
pub const MOTOR_INFO_LEN: usize = 24;

/// Payload bytes a battery-info response needs.
pub const BATTERY_INFO_LEN: usize = 10;

pub open spec fn motor_info_of(p: Seq<u8>) -> MotorInfo {
    MotorInfo {
        battery_percent: le_u16(p, 8),
        speed_m_per_h: le_i16(p, 10),
        speed_average_m_per_h: le_u16(p, 12),
        total_distance_m: le_u32(p, 14),
        trip_distance_m: le_i16(p, 18),
        uptime_s: le_u16(p, 20),
        frame_temperature_dc: le_i16(p, 22),
    }
}

pub open spec fn battery_info_of(p: Seq<u8>) -> BatteryInfo {
    BatteryInfo {
        capacity: le_u16(p, 0),
        percent: le_u16(p, 2),
        current_ca: le_i16(p, 4),
        voltage_cv: le_u16(p, 6),
        temperature_1: (p[8] - 20) as i16,
        temperature_2: (p[9] - 20) as i16,
    }
}

/// The payload of a response that decodes and carries at least `n` bytes.
pub open spec fn payload_of(response: Seq<u8>, n: int) -> Result<Seq<u8>, SessionError> {
    match decode_spec(response) {
        Ok(f) => if f.3.len() >= n {
            Ok(f.3)
        } else {
            Err(SessionError::MalformedResponse)
        },
        Err(_) => Err(SessionError::MalformedResponse),
    }
}

fn checked_payload(response: &[u8], n: usize) -> (r: Result<Vec<u8>, SessionError>)
    ensures
        match r {
            Ok(p) => payload_of(response@, n as int) == Ok::<Seq<u8>, SessionError>(p@),
            Err(e) => payload_of(response@, n as int) == Err::<Seq<u8>, SessionError>(e),
        },
{
    match decode(response) {
        Ok(packet) => {
            if packet.payload.len() >= n {
                Ok(packet.payload)
            } else {
                Err(SessionError::MalformedResponse)
            }
        },
        Err(_) => Err(SessionError::MalformedResponse),
    }
}

/// A read of `count` bytes of registers from `attribute` onwards.
pub fn read_command(direction: Direction, attribute: Attribute, count: u8) -> (r: ScooterCommand)
    ensures
        r.direction == direction,
        r.read_write == ReadWrite::Read,
        r.attribute == attribute,
        r.payload@ == seq![count],
{
    ScooterCommand { direction, read_write: ReadWrite::Read, attribute, payload: vec![count] }
}

/// A write of a payload to an attribute of the motor controller.
pub fn write_command(attribute: Attribute, payload: Vec<u8>) -> (r: ScooterCommand)
    ensures
        r.direction == Direction::MasterToMotor,
        r.read_write == ReadWrite::Write,
        r.attribute == attribute,
        r.payload@ == payload@,
{
    ScooterCommand { direction: Direction::MasterToMotor, read_write: ReadWrite::Write, attribute, payload }
}

pub fn motor_info_command() -> (r: ScooterCommand)
    ensures
        r.direction == Direction::MasterToMotor,
        r.read_write == ReadWrite::Read,
        r.attribute == Attribute::MotorInfo,
        r.payload@ == seq![0x20u8],
{
    read_command(Direction::MasterToMotor, Attribute::MotorInfo, 0x20)
}

pub fn battery_info_command() -> (r: ScooterCommand)
    ensures
        r.direction == Direction::MasterToBattery,
        r.read_write == ReadWrite::Read,
        r.attribute == Attribute::BatteryInfo,
        r.payload@ == seq![0x0Au8],
{
    read_command(Direction::MasterToBattery, Attribute::BatteryInfo, 0x0A)
}

pub fn distance_left_command() -> (r: ScooterCommand)
    ensures
        r.direction == Direction::MasterToMotor,
        r.read_write == ReadWrite::Read,
        r.attribute == Attribute::DistanceLeft,
        r.payload@ == seq![0x02u8],
{
    read_command(Direction::MasterToMotor, Attribute::DistanceLeft, 0x02)
}

pub fn battery_voltage_command() -> (r: ScooterCommand)
    ensures
        r.direction == Direction::MasterToBattery,
        r.read_write == ReadWrite::Read,
        r.attribute == Attribute::BatteryVoltage,
        r.payload@ == seq![0x02u8],
{
    read_command(Direction::MasterToBattery, Attribute::BatteryVoltage, 0x02)
}

pub fn battery_amperage_command() -> (r: ScooterCommand)
    ensures
        r.direction == Direction::MasterToBattery,
        r.read_write == ReadWrite::Read,
        r.attribute == Attribute::BatteryCurrent,
        r.payload@ == seq![0x02u8],
{
    read_command(Direction::MasterToBattery, Attribute::BatteryCurrent, 0x02)
}

pub fn battery_percentage_command() -> (r: ScooterCommand)
    ensures
        r.direction == Direction::MasterToBattery,
        r.read_write == ReadWrite::Read,
        r.attribute == Attribute::BatteryPercent,
        r.payload@ == seq![0x02u8],
{
    read_command(Direction::MasterToBattery, Attribute::BatteryPercent, 0x02)
}

/// Cruise control on or off.
pub fn cruise_command(on: bool) -> (r: ScooterCommand)
    ensures
        r.direction == Direction::MasterToMotor,
        r.read_write == ReadWrite::Write,
        r.attribute == Attribute::Cruise,
        r.payload@ == seq![if on { 1u8 } else { 0u8 }, 0u8],
{
    write_command(Attribute::Cruise, vec![if on { 1u8 } else { 0u8 }, 0u8])
}

pub fn tail_light_command(mode: TailLight) -> (r: ScooterCommand)
    ensures
        r.direction == Direction::MasterToMotor,
        r.read_write == ReadWrite::Write,
        r.attribute == Attribute::TailLight,
        r.payload@ == seq![tail_light_code(mode), 0u8],
{
    let code: u8 = match mode {
        TailLight::Off => 0,
        TailLight::OnBrake => 1,
        TailLight::Always => 2,
    };
    write_command(Attribute::TailLight, vec![code, 0u8])
}

/// Regenerative-braking level.
pub fn kers_command(level: u8) -> (r: ScooterCommand)
    ensures
        r.direction == Direction::MasterToMotor,
        r.read_write == ReadWrite::Write,
        r.attribute == Attribute::Kers,
        r.payload@ == seq![level, 0u8],
{
    write_command(Attribute::Kers, vec![level, 0u8])
}

/// Headlight on or off (it shares the tail-light register).
pub fn headlight_command(on: bool) -> (r: ScooterCommand)
    ensures
        r.direction == Direction::MasterToMotor,
        r.read_write == ReadWrite::Write,
        r.attribute == Attribute::TailLight,
        r.payload@ == seq![if on { 1u8 } else { 0u8 }, 0u8],
{
    write_command(Attribute::TailLight, vec![if on { 1u8 } else { 0u8 }, 0u8])
}

/// Lock or unlock, through the general register.
pub fn lock_command(on: bool) -> (r: ScooterCommand)
    ensures
        r.direction == Direction::MasterToMotor,
        r.read_write == ReadWrite::Write,
        r.attribute == Attribute::GeneralInfo,
        r.payload@ == seq![0x31u8, if on { 1u8 } else { 0u8 }, 0u8],
{
    write_command(Attribute::GeneralInfo, vec![0x31u8, if on { 1u8 } else { 0u8 }, 0u8])
}

/// Speed mode, through the general register.
pub fn speed_mode_command(mode: u8) -> (r: ScooterCommand)
    ensures
        r.direction == Direction::MasterToMotor,
        r.read_write == ReadWrite::Write,
        r.attribute == Attribute::GeneralInfo,
        r.payload@ == seq![0x2Eu8, mode, 0u8],
{
    write_command(Attribute::GeneralInfo, vec![0x2Eu8, mode, 0u8])
}

/// Power off, through the general register.
pub fn power_off_command() -> (r: ScooterCommand)
    ensures
        r.direction == Direction::MasterToMotor,
        r.read_write == ReadWrite::Write,
        r.attribute == Attribute::GeneralInfo,
        r.payload@ == seq![0x68u8, 0u8, 0u8],
{
    write_command(Attribute::GeneralInfo, vec![0x68u8, 0u8, 0u8])
}

/// Reboot, through the general register.
pub fn reboot_command() -> (r: ScooterCommand)
    ensures
        r.direction == Direction::MasterToMotor,
        r.read_write == ReadWrite::Write,
        r.attribute == Attribute::GeneralInfo,
        r.payload@ == seq![0x69u8, 0u8, 0u8],
{
    write_command(Attribute::GeneralInfo, vec![0x69u8, 0u8, 0u8])
}

/// Decodes a motor-info response.
pub fn parse_motor_info(response: &[u8]) -> (r: Result<MotorInfo, SessionError>)
    ensures
        match payload_of(response@, MOTOR_INFO_LEN as int) {
            Ok(p) => r == Ok::<MotorInfo, SessionError>(motor_info_of(p)),
            Err(e) => r == Err::<MotorInfo, SessionError>(e),
        },
{
    let p = checked_payload(response, MOTOR_INFO_LEN)?;
    let s = p.as_slice();
    Ok(MotorInfo {
        battery_percent: read_u16(s, 8),
        speed_m_per_h: read_i16(s, 10),
        speed_average_m_per_h: read_u16(s, 12),
        total_distance_m: read_u32(s, 14),
        trip_distance_m: read_i16(s, 18),
        uptime_s: read_u16(s, 20),
        frame_temperature_dc: read_i16(s, 22),
    })
}

/// Decodes a battery-info response.
pub fn parse_battery_info(response: &[u8]) -> (r: Result<BatteryInfo, SessionError>)
    ensures
        match payload_of(response@, BATTERY_INFO_LEN as int) {
            Ok(p) => r == Ok::<BatteryInfo, SessionError>(battery_info_of(p)),
            Err(e) => r == Err::<BatteryInfo, SessionError>(e),
        },
{
    let p = checked_payload(response, BATTERY_INFO_LEN)?;
    let s = p.as_slice();
    Ok(BatteryInfo {
        capacity: read_u16(s, 0),
        percent: read_u16(s, 2),
        current_ca: read_i16(s, 4),
        voltage_cv: read_u16(s, 6),
        temperature_1: s[8] as i16 - 20,
        temperature_2: s[9] as i16 - 20,
    })
}

/// Decodes a response that carries one unsigned 16-bit value (distance
/// left in tens of metres, voltage in hundredths of a volt, percent).
pub fn parse_u16_value(response: &[u8]) -> (r: Result<u16, SessionError>)
    ensures
        match payload_of(response@, 2) {
            Ok(p) => r == Ok::<u16, SessionError>(le_u16(p, 0)),
            Err(e) => r == Err::<u16, SessionError>(e),
        },
{
    let p = checked_payload(response, 2)?;
    Ok(read_u16(p.as_slice(), 0))
}

/// Decodes a response that carries one signed 16-bit value (current in
/// hundredths of an ampere).
pub fn parse_i16_value(response: &[u8]) -> (r: Result<i16, SessionError>)
    ensures
        match payload_of(response@, 2) {
            Ok(p) => r == Ok::<i16, SessionError>(le_i16(p, 0)),
            Err(e) => r == Err::<i16, SessionError>(e),
        },
{
    let p = checked_payload(response, 2)?;
    Ok(read_i16(p.as_slice(), 0))
}

/// The battery level from a raw response: the byte just before the
/// checksum; a response of six bytes or fewer is too short to hold it.
pub fn battery_level(response: &[u8]) -> (r: Result<u8, SessionError>)
    ensures
        response@.len() > 6 ==> r == Ok::<u8, SessionError>(response@[response@.len() - 3]),
        response@.len() <= 6 ==> r == Err::<u8, SessionError>(SessionError::MalformedResponse),
{
    if response.len() > 6 {
        Ok(response[response.len() - 3])
    } else {
        Err(SessionError::MalformedResponse)
    }
}

/// The raw body that reads the firmware version (register 0x1A).
pub fn version_body() -> (r: Vec<u8>)
    ensures
        r@ == seq![0x03u8, 0x20u8, 0x01u8, 0x1Au8, 0x02u8],
{
    vec![0x03, 0x20, 0x01, 0x1A, 0x02]
}

/// The raw body that reads the battery level (register 0x32).
pub fn battery_level_body() -> (r: Vec<u8>)
    ensures
        r@ == seq![0x03u8, 0x20u8, 0x01u8, 0x32u8, 0x02u8],
{
    vec![0x03, 0x20, 0x01, 0x32, 0x02]
}

} // verus!
