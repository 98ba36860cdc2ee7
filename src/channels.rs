//! Choosing the pair of channels to talk over: one the host writes to and
//! one the device notifies on.
use vstd::prelude::*;
use crate::tracker::VENDOR_SERVICE_UUID;

verus! {

/// Standard UART-style write channel.
pub const NUS_TX_UUID: u128 = 0x6e400002_b5a3_f393_e0a9_e50e24dcca9e;

/// Standard UART-style notify channel.
pub const NUS_RX_UUID: u128 = 0x6e400003_b5a3_f393_e0a9_e50e24dcca9e;

/// The vendor-service channel that older models write and notify on.
pub const M365_CHAR_UUID: u128 = 0x00000010_0000_1000_8000_00805f9b34fb;

/// What a channel can do.
#[derive(Clone, Copy, Debug, PartialEq, Eq, Structural)]
pub struct CharProps {
    pub read: bool,
    pub write: bool,
    pub write_without_response: bool,
    pub notify: bool,
    pub indicate: bool,
}

/// A channel of a connected peer.
#[derive(Clone, Copy, Debug, PartialEq, Eq, Structural)]
pub struct Channel {
    pub uuid: u128,
    pub service_uuid: u128,
    pub properties: CharProps,
}

/// The tests that the selection looks for, in its order of preference.
#[derive(Clone, Copy, Debug, PartialEq, Eq, Structural)]
pub enum Pick {
    NusTx,
    NusRx,
    M365,
    VendorWrite,
    VendorNotify,
    AnyWriteWithoutResponse,
    AnyNotify,
}

pub open spec fn picks(k: Pick, c: Channel) -> bool {
    match k {
        Pick::NusTx => c.uuid == NUS_TX_UUID,
        Pick::NusRx => c.uuid == NUS_RX_UUID,
        Pick::M365 => c.service_uuid == VENDOR_SERVICE_UUID && c.uuid == M365_CHAR_UUID,
        Pick::VendorWrite => c.service_uuid == VENDOR_SERVICE_UUID && (c.properties.write
            || c.properties.write_without_response),
        Pick::VendorNotify => c.service_uuid == VENDOR_SERVICE_UUID && (c.properties.notify
            || c.properties.indicate),
        Pick::AnyWriteWithoutResponse => c.properties.write_without_response,
        Pick::AnyNotify => c.properties.notify,
    }
}

/// The first channel that passes a test.
pub open spec fn first_of(s: Seq<Channel>, k: Pick) -> Option<Channel>
    decreases s.len(),
{
    if s.len() == 0 {
        None
    } else if picks(k, s[0]) {
        Some(s[0])
    } else {
        first_of(s.drop_first(), k)
    }
}

/// A pair of found channels, or nothing unless both were found.
pub open spec fn both(tx: Option<Channel>, rx: Option<Channel>) -> Option<(Channel, Channel)> {
    match (tx, rx) {
        (Some(t), Some(r)) => Some((t, r)),
        _ => None,
    }
}

/// Vendor-service channels by capability, else any write-without-response
/// channel with any notify channel.
pub open spec fn select_vendor(s: Seq<Channel>) -> Option<(Channel, Channel)> {
    match both(first_of(s, Pick::VendorWrite), first_of(s, Pick::VendorNotify)) {
        Some(p) => Some(p),
        None => both(first_of(s, Pick::AnyWriteWithoutResponse), first_of(s, Pick::AnyNotify)),
    }
}

/// The standard UART pair when both are there, else the vendor selection.
pub open spec fn select_standard(s: Seq<Channel>) -> Option<(Channel, Channel)> {
    match both(first_of(s, Pick::NusTx), first_of(s, Pick::NusRx)) {
        Some(p) => Some(p),
        None => select_vendor(s),
    }
}

/// For older models: the dedicated vendor channel for both directions when
/// it can write without response and notify, else the vendor selection.
pub open spec fn select_m365(s: Seq<Channel>) -> Option<(Channel, Channel)> {
    match first_of(s, Pick::M365) {
        Some(c) if c.properties.write_without_response && c.properties.notify => Some((c, c)),
        _ => select_vendor(s),
    }
}

pub fn picks_channel(k: Pick, c: &Channel) -> (r: bool)
    ensures
        r == picks(k, *c),
{
    match k {
        Pick::NusTx => c.uuid == NUS_TX_UUID,
        Pick::NusRx => c.uuid == NUS_RX_UUID,
        Pick::M365 => c.service_uuid == VENDOR_SERVICE_UUID && c.uuid == M365_CHAR_UUID,
        Pick::VendorWrite => c.service_uuid == VENDOR_SERVICE_UUID && (c.properties.write
            || c.properties.write_without_response),
        Pick::VendorNotify => c.service_uuid == VENDOR_SERVICE_UUID && (c.properties.notify
            || c.properties.indicate),
        Pick::AnyWriteWithoutResponse => c.properties.write_without_response,
        Pick::AnyNotify => c.properties.notify,
    }
}

/// The first channel of `chars` that passes test `k`.
pub fn find_first(chars: &Vec<Channel>, k: Pick) -> (r: Option<Channel>)
    ensures
        r == first_of(chars@, k),
{
    let mut i: usize = 0;
    assert(chars@.subrange(0, chars@.len() as int) =~= chars@);
    while i < chars.len()
        invariant
            i <= chars@.len(),
            first_of(chars@.subrange(i as int, chars@.len() as int), k) == first_of(chars@, k),
        decreases chars@.len() - i,
    {
        let ghost rest = chars@.subrange(i as int, chars@.len() as int);
        assert(rest.drop_first() =~= chars@.subrange(i + 1, chars@.len() as int));
        if picks_channel(k, &chars[i]) {
            return Some(chars[i]);
        }
        i = i + 1;
    }
    None
}

fn both_found(tx: Option<Channel>, rx: Option<Channel>) -> (r: Option<(Channel, Channel)>)
    ensures
        r == both(tx, rx),
{
    match (tx, rx) {
        (Some(t), Some(r)) => Some((t, r)),
        _ => None,
    }
}

/// Vendor-service channels by capability, with the any-write/any-notify
/// fallback.
pub fn find_fe95_chars(chars: &Vec<Channel>) -> (r: Option<(Channel, Channel)>)
    ensures
        r == select_vendor(chars@),
{
    let vendor = both_found(find_first(chars, Pick::VendorWrite), find_first(chars, Pick::VendorNotify));
    if vendor.is_some() {
        return vendor;
    }
    both_found(find_first(chars, Pick::AnyWriteWithoutResponse), find_first(chars, Pick::AnyNotify))
}

/// The channel pair for a peer: the standard UART pair first, then the
/// vendor selection.
pub fn find_characteristics(chars: &Vec<Channel>) -> (r: Option<(Channel, Channel)>)
    ensures
        r == select_standard(chars@),
{
    let nus = both_found(find_first(chars, Pick::NusTx), find_first(chars, Pick::NusRx));
    if nus.is_some() {
        return nus;
    }
    find_fe95_chars(chars)
}

/// The channel pair for an older model: its dedicated vendor channel in
/// both directions, then the vendor selection.
pub fn find_m365_characteristics(chars: &Vec<Channel>) -> (r: Option<(Channel, Channel)>)
    ensures
        r == select_m365(chars@),
{
    match find_first(chars, Pick::M365) {
        Some(c) => {
            if c.properties.write_without_response && c.properties.notify {
                return Some((c, c));
            }
        },
        None => {},
    }
    find_fe95_chars(chars)
}

} // verus!
