use m365::channels::{
    find_characteristics, find_fe95_chars, find_m365_characteristics, CharProps, Channel, M365_CHAR_UUID, NUS_RX_UUID,
    NUS_TX_UUID,
};
use m365::tracker::VENDOR_SERVICE_UUID;

fn props(write: bool, wwr: bool, notify: bool, indicate: bool) -> CharProps {
    CharProps { read: false, write, write_without_response: wwr, notify, indicate }
}

fn ch(uuid: u128, service: u128, p: CharProps) -> Channel {
    Channel { uuid, service_uuid: service, properties: p }
}

const OTHER_SERVICE: u128 = 0x1234;

#[test]
fn standard_pair_is_preferred() {
    let chars = vec![
        ch(0x19, VENDOR_SERVICE_UUID, props(true, true, true, false)),
        ch(NUS_RX_UUID, OTHER_SERVICE, props(false, false, true, false)),
        ch(NUS_TX_UUID, OTHER_SERVICE, props(true, true, false, false)),
    ];
    let (tx, rx) = find_characteristics(&chars).unwrap();
    assert_eq!(tx.uuid, NUS_TX_UUID);
    assert_eq!(rx.uuid, NUS_RX_UUID);
}

#[test]
fn vendor_channels_by_capability() {
    let chars = vec![
        ch(NUS_TX_UUID, OTHER_SERVICE, props(true, false, false, false)),
        ch(0x04, VENDOR_SERVICE_UUID, props(false, false, false, false)),
        ch(0x19, VENDOR_SERVICE_UUID, props(false, false, false, true)),
        ch(0x1a, VENDOR_SERVICE_UUID, props(true, false, false, false)),
    ];
    let (tx, rx) = find_characteristics(&chars).unwrap();
    assert_eq!(tx.uuid, 0x1a);
    assert_eq!(rx.uuid, 0x19);
}

#[test]
fn any_write_and_notify_as_last_resort() {
    let chars = vec![
        ch(0x30, OTHER_SERVICE, props(false, false, true, false)),
        ch(0x31, OTHER_SERVICE, props(false, true, false, false)),
        ch(0x32, VENDOR_SERVICE_UUID, props(false, false, true, false)),
    ];
    let (tx, rx) = find_fe95_chars(&chars).unwrap();
    assert_eq!(tx.uuid, 0x31);
    assert_eq!(rx.uuid, 0x30);
}

#[test]
fn no_pair_found() {
    let chars = vec![
        ch(0x30, OTHER_SERVICE, props(true, false, false, false)),
        ch(0x31, OTHER_SERVICE, props(false, false, false, true)),
    ];
    assert!(find_characteristics(&chars).is_none());
    assert!(find_m365_characteristics(&vec![]).is_none());
}

#[test]
fn dedicated_channel_for_older_models() {
    let chars = vec![
        ch(0x19, VENDOR_SERVICE_UUID, props(false, false, true, false)),
        ch(M365_CHAR_UUID, VENDOR_SERVICE_UUID, props(false, true, true, false)),
    ];
    let (tx, rx) = find_m365_characteristics(&chars).unwrap();
    assert_eq!(tx.uuid, M365_CHAR_UUID);
    assert_eq!(rx.uuid, M365_CHAR_UUID);
}

#[test]
fn unsuitable_dedicated_channel_falls_back() {
    let chars = vec![
        ch(M365_CHAR_UUID, VENDOR_SERVICE_UUID, props(true, false, true, false)),
        ch(0x19, VENDOR_SERVICE_UUID, props(false, false, true, false)),
    ];
    let (tx, rx) = find_m365_characteristics(&chars).unwrap();
    assert_eq!(tx.uuid, M365_CHAR_UUID);
    assert_eq!(rx.uuid, M365_CHAR_UUID);
    let (tx2, rx2) = find_fe95_chars(&chars).unwrap();
    assert_eq!((tx2.uuid, rx2.uuid), (tx.uuid, rx.uuid));
}
