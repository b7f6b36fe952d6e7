//! Gateway EUI-64 derivation.
use vstd::prelude::*;

verus! {

/// A MAC-48 as EUI-64: FFFE between its two halves.
pub open spec fn eui_of(mac: Seq<u8>) -> Seq<u8> {
    mac.take(3) + seq![0xFFu8, 0xFE] + mac.skip(3)
}

/// MAC-48 to EUI-64 with the standard FFFE insertion, the convention LoRaWAN
/// single-channel forwarders use for their gateway id.
pub fn gateway_eui(mac: &[u8; 6]) -> (r: [u8; 8])
    ensures
        r@ == eui_of(mac@),
{
    let eui: [u8; 8] = [mac[0], mac[1], mac[2], 0xFF, 0xFE, mac[3], mac[4], mac[5]];
    assert(eui@ =~= eui_of(mac@));
    eui
}

/// Two gateways with different MAC addresses have different EUIs.
pub proof fn distinct_macs_give_distinct_euis(a: Seq<u8>, b: Seq<u8>)
    requires
        a.len() == 6,
        b.len() == 6,
        eui_of(a) == eui_of(b),
    ensures
        a == b,
{
    assert forall|i: int| 0 <= i < 6 implies a[i] == b[i] by {
        if i < 3 {
            assert(eui_of(a)[i] == a[i] && eui_of(b)[i] == b[i]);
        } else {
            assert(eui_of(a)[i + 2] == a[i] && eui_of(b)[i + 2] == b[i]);
        }
    }
    assert(a =~= b);
}

/// The EUI is the MAC address with FF FE in its middle.
pub proof fn euis_hold_their_mac(mac: Seq<u8>)
    requires
        mac.len() == 6,
    ensures
        eui_of(mac).len() == 8,
        forall|i: int| 0 <= i < 3 ==> #[trigger] eui_of(mac)[i] == mac[i],
        eui_of(mac)[3] == 0xFF,
        eui_of(mac)[4] == 0xFE,
        forall|i: int| 5 <= i < 8 ==> #[trigger] eui_of(mac)[i] == mac[i - 2],
{
}

/// The gateway's EUI is its MAC address with FF and FE in the middle.
pub proof fn gateways_are_named_after_their_mac(mac: &[u8; 6], r: [u8; 8])
    requires
        call_ensures(gateway_eui, (mac,), r),
    ensures
        r@[0] == mac@[0] && r@[1] == mac@[1] && r@[2] == mac@[2],
        r@[3] == 0xFF && r@[4] == 0xFE,
        r@[5] == mac@[3] && r@[6] == mac@[4] && r@[7] == mac@[5],
{
}

} // verus!
