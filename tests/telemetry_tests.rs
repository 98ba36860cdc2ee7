use m365::codec::build_packet;
use m365::commands::{Attribute, Direction, ReadWrite};
use m365::session::SessionError;
use m365::telemetry::{
    battery_info_command, battery_level, cruise_command, kers_command, lock_command, parse_battery_info, parse_i16_value,
    parse_motor_info, parse_u16_value, speed_mode_command, tail_light_command, battery_level_body, version_body,
    BatteryInfo, MotorInfo, TailLight,
};

/// A response packet from `direction` for `attribute` carrying `data`.
fn response(direction: u8, attribute: u8, data: &[u8]) -> Vec<u8> {
    let mut body = vec![(data.len() + 2) as u8, direction, 0x01, attribute];
    body.extend_from_slice(data);
    build_packet(&body)
}

#[test]
fn motor_info_fields() {
    let mut data = vec![0u8; 32];
    data[8..10].copy_from_slice(&87u16.to_le_bytes());
    data[10..12].copy_from_slice(&(-1500i16).to_le_bytes());
    data[12..14].copy_from_slice(&12345u16.to_le_bytes());
    data[14..18].copy_from_slice(&1_234_567u32.to_le_bytes());
    data[18..20].copy_from_slice(&4321i16.to_le_bytes());
    data[20..22].copy_from_slice(&600u16.to_le_bytes());
    data[22..24].copy_from_slice(&(-35i16).to_le_bytes());
    let info = parse_motor_info(&response(0x23, 0xB0, &data)).unwrap();
    assert_eq!(
        info,
        MotorInfo {
            battery_percent: 87,
            speed_m_per_h: -1500,
            speed_average_m_per_h: 12345,
            total_distance_m: 1_234_567,
            trip_distance_m: 4321,
            uptime_s: 600,
            frame_temperature_dc: -35,
        }
    );
}

#[test]
fn short_or_broken_responses_are_malformed() {
    assert_eq!(parse_motor_info(&response(0x23, 0xB0, &[0u8; 23])), Err(SessionError::MalformedResponse));
    let mut bad = response(0x23, 0xB0, &[0u8; 32]);
    bad[10] ^= 1;
    assert_eq!(parse_motor_info(&bad), Err(SessionError::MalformedResponse));
    assert_eq!(parse_u16_value(&[1, 2, 3]), Err(SessionError::MalformedResponse));
    assert_eq!(parse_battery_info(&response(0x25, 0x31, &[0u8; 9])), Err(SessionError::MalformedResponse));
}

#[test]
fn battery_info_fields() {
    let data = [0x10, 0x27, 0x50, 0x00, 0x9C, 0xFF, 0x6C, 0x0F, 45, 18];
    let info = parse_battery_info(&response(0x25, 0x31, &data)).unwrap();
    assert_eq!(
        info,
        BatteryInfo { capacity: 10000, percent: 80, current_ca: -100, voltage_cv: 3948, temperature_1: 25, temperature_2: -2 }
    );
}

#[test]
fn single_values() {
    assert_eq!(parse_u16_value(&response(0x25, 0x32, &[0x4B, 0x00])), Ok(75));
    assert_eq!(parse_i16_value(&response(0x25, 0x33, &[0x18, 0xFC])), Ok(-1000));
}

#[test]
fn battery_level_from_raw_response() {
    assert_eq!(battery_level(&[0x55, 0xAA, 0x04, 0x25, 0x01, 0x32, 0x4B, 0x00, 0x34, 0xFF]), Ok(0x00));
    assert_eq!(battery_level(&[1, 2, 3, 4, 5, 6, 7]), Ok(5));
    assert_eq!(battery_level(&[1, 2, 3, 4, 5, 6]), Err(SessionError::MalformedResponse));
    assert_eq!(battery_level(&[]), Err(SessionError::MalformedResponse));
}

#[test]
fn command_shapes() {
    let c = battery_info_command();
    assert_eq!((c.direction, c.read_write, c.attribute), (Direction::MasterToBattery, ReadWrite::Read, Attribute::BatteryInfo));
    assert_eq!(c.as_bytes(), vec![0x03, 0x22, 0x01, 0x31, 0x0A]);
    assert_eq!(cruise_command(true).as_bytes(), vec![0x04, 0x20, 0x03, 0x7C, 0x01, 0x00]);
    assert_eq!(tail_light_command(TailLight::Always).payload, vec![2, 0]);
    assert_eq!(tail_light_command(TailLight::OnBrake).payload, vec![1, 0]);
    assert_eq!(kers_command(3).as_bytes(), vec![0x04, 0x20, 0x03, 0x7E, 0x03, 0x00]);
    assert_eq!(lock_command(true).payload, vec![0x31, 1, 0]);
    assert_eq!(speed_mode_command(2).payload, vec![0x2E, 2, 0]);
}

#[test]
fn raw_request_bodies() {
    assert_eq!(build_packet(&version_body()), vec![0x55, 0xAA, 0x03, 0x20, 0x01, 0x1A, 0x02, 0xBF, 0xFF]);
    assert_eq!(build_packet(&battery_level_body()), vec![0x55, 0xAA, 0x03, 0x20, 0x01, 0x32, 0x02, 0xA7, 0xFF]);
}
