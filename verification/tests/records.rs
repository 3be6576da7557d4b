use aces::BatteryDetail;
use aces::BatteryProtect;
use aces::BatteryVoltage;
use aces::NtcList;
use aces::ParseError;
use aces::ProtectionOfState;

#[test]
fn voltage_test_parse_message() {
    assert_eq!(
        BatteryVoltage::parse_message(&[1, 2, 3, 4, 5, 6, 7]),
        Err(ParseError::NotEnoughData)
    );

    // a reading has exactly four cells, so six bytes are not enough
    assert_eq!(
        BatteryVoltage::parse_message(&[0x0d, 0x0b, 0x0d, 0x0d, 0x0d, 0x0f]),
        Err(ParseError::NotEnoughData)
    );

    assert_eq!(
        BatteryVoltage::parse_message(&[0x0d, 0x0b, 0x0d, 0x0d, 0x0d, 0x0b, 0x0d, 0x0f]),
        Ok(BatteryVoltage(vec![3339, 3341, 3339, 3343]))
    );
}

#[test]
fn voltage_empty_payload_is_not_enough() {
    assert_eq!(
        BatteryVoltage::parse_message(&[]),
        Err(ParseError::NotEnoughData)
    );
}

#[test]
fn voltage_ignores_bytes_past_the_four_cells() {
    assert_eq!(
        BatteryVoltage::parse_message(&[
            0x0d, 0x0b, 0x0d, 0x0d, 0x0d, 0x0b, 0x0d, 0x0f, 0xff
        ]),
        Ok(BatteryVoltage(vec![3339, 3341, 3339, 3343]))
    );
    assert_eq!(
        BatteryVoltage::parse_message(&[
            0x0d, 0x0b, 0x0d, 0x0d, 0x0d, 0x0b, 0x0d, 0x0f, 0xff, 0xff
        ]),
        Ok(BatteryVoltage(vec![3339, 3341, 3339, 3343]))
    );
}

#[test]
fn voltage_statistics() {
    let reading = BatteryVoltage(vec![3554, 3548, 3564, 3565]);
    assert_eq!(reading.total(), 14231);
    assert_eq!(reading.avg(), 3557);
    assert_eq!(reading.min(), 3548);
    assert_eq!(reading.max(), 3565);
}

#[test]
fn voltage_statistics_empty() {
    let reading = BatteryVoltage(Vec::new());
    assert_eq!(reading.total(), 0);
    assert_eq!(reading.avg(), 0);
    assert_eq!(reading.min(), 0);
    assert_eq!(reading.max(), 0);
}

#[test]
fn voltage_avg_truncates_toward_zero() {
    let reading = BatteryVoltage(vec![-3, -4]);
    assert_eq!(reading.total(), -7);
    assert_eq!(reading.avg(), -3);
}

#[test]
fn ntc_test_parse_message() {
    assert_eq!(NtcList::parse_message(&[0]), Ok(NtcList(Vec::new())));
    assert_eq!(
        NtcList::parse_message(&[1, 1]),
        Err(ParseError::NotEnoughData)
    );
    assert_eq!(
        NtcList::parse_message(&[1, 0x0b, 0xad]),
        Ok(NtcList(vec![0x0102]))
    );
    assert_eq!(
        NtcList::parse_message(&[2, 0x0b, 0xad, 0x0d]),
        Err(ParseError::NotEnoughData)
    );
    assert_eq!(
        NtcList::parse_message(&[2, 0x0b, 0xad, 0x0d, 0xaf]),
        Ok(NtcList(vec![0x0102, 0x0304]))
    );
}

#[test]
fn ntc_statistics_empty() {
    let list = NtcList(Vec::new());
    assert_eq!(list.average(), 0);
    assert_eq!(list.min(), 0);
    assert_eq!(list.max(), 0);
}

#[test]
fn ntc_statistics() {
    let list = NtcList(vec![217, 206, 202]);
    assert_eq!(list.average(), 208);
    assert_eq!(list.min(), 202);
    assert_eq!(list.max(), 217);
}

#[test]
fn detail_test_parse_message() {
    assert_eq!(
        BatteryDetail::parse_message(&[
            1, 2, 3, 4, 5, 6, 7, 8, 9, 10, 11, 12, 13, 14, 15, 16, 17, 18, 19, 20, 21
        ]),
        Err(ParseError::NotEnoughData)
    );

    assert_eq!(
        BatteryDetail::parse_message(&[
            0x05, 0x35, 0x00, 0x00, 0x24, 0xb7, 0x27, 0xde, 0x00, 0x0a, 0x2b, 0x94, 0x00, 0x00,
            0x00, 0x00, 0x00, 0x00, 0x20, 0x5c, 0x03, 0x04, 0x03, 0x0b, 0x84, 0x0b, 0x79, 0x0b,
        ]),
        Err(ParseError::NotEnoughData)
    );

    assert_eq!(
        BatteryDetail::parse_message(&[
            0x05, 0x35, 0x00, 0x00, 0x24, 0xb7, 0x27, 0xde, 0x00, 0x0a, 0x2b, 0x94, 0x00, 0x00,
            0x00, 0x00, 0x00, 0x00, 0x20, 0x5c, 0x03, 0x04, 0x03, 0x0b, 0x84, 0x0b, 0x79, 0x0b,
            0x75,
        ]),
        Ok(BatteryDetail {
            total_voltage: 1333,
            current: 0,
            residual_capacity: 9399,
            standard_capacity: 10206,
            cycles: 10,
            date_of_production: 11156,
            equilibrium: 0,
            equilibrium_high: 0,
            protection_of_state: ProtectionOfState(0),
            software_version: 32,
            residual_capacity_percent: 92,
            control_state: 3,
            charge: true,
            discharge: true,
            battery_number: 4,
            list_ntc: vec![217, 206, 202],
        })
    );
}

#[test]
fn protect_test_parse_message() {
    assert_eq!(
        BatteryProtect::parse_message(&[
            0x00, 0x00, 0x00, 0x00, 0x00, 0x00, 0x00, 0x00, 0x00, 0x04, 0x00, 0x00, 0x00, 0x00,
            0x00, 0x00, 0x00, 0x00, 0x00, 0x00, 0x00, 0x00, 0x00, 0x00,
        ]),
        Ok(BatteryProtect {
            short_circuit: 0,
            over_current_charging: 0,
            over_current_discharging: 0,
            cell_overvoltage: 0,
            cell_undervoltage: 4,
            high_temp_charging: 0,
            low_temp_charging: 0,
            high_temp_discharging: 0,
            low_temp_discharging: 0,
            pack_overvoltage: 0,
            pack_undervoltage: 0
        })
    );
}

#[test]
fn protect_too_short_is_not_enough() {
    assert_eq!(
        BatteryProtect::parse_message(&[0x00; 21]),
        Err(ParseError::NotEnoughData)
    );
}

#[test]
fn protect_set_value_at() {
    let mut protect = BatteryProtect::parse_message(&[0x00; 22]).unwrap();
    protect.set_value_at(0, 7);
    protect.set_value_at(10, 9);
    // out-of-range indices are silently ignored
    protect.set_value_at(11, 1);
    protect.set_value_at(usize::MAX, 1);
    assert_eq!(protect.short_circuit, 7);
    assert_eq!(protect.pack_undervoltage, 9);
    assert_eq!(protect.over_current_charging, 0);
    assert_eq!(protect.cell_undervoltage, 0);
}
