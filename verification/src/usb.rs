//! USB identity and the sizing of CDC writes.
use crate::bounded::Text;
use crate::hex;
use crate::net::traits;
use crate::octets;
use vstd::prelude::*;

verus! {

/// USB vendor id.
pub const VENDOR_ID: u16 = 0x303A;

/// USB product id.
pub const PRODUCT_ID: u16 = 0x1001;

/// USB product name.
pub const PRODUCT: &'static str = "LoRaMqttHub";

/// Start of the USB serial.
pub const SERIAL_PREFIX: &'static str = "LMH-";

/// Size of a bulk endpoint packet.
pub const ENDPOINT_PACKET: u16 = 64;

/// The device id: the last three bytes of the MAC address. It makes the USB
/// serial, the topics and the MQTT client id of each board distinct.
pub fn device_id(mac: [u8; 6]) -> (r: [u8; 3])
    ensures
        r@ == mac@.subrange(3, 6),
{
    let id: [u8; 3] = [mac[3], mac[4], mac[5]];
    assert(id@ =~= mac@.subrange(3, 6));
    id
}

/// The USB serial of a device.
pub open spec fn serial_of(device_id: Seq<u8>) -> Seq<char> {
    SERIAL_PREFIX@ + hex::device_chars(device_id)
}

/// The USB serial: `LMH-XXXXXX` with the device id in upper case hex.
pub fn format_usb_serial(device_id: [u8; 3]) -> (r: Text<32>)
    ensures
        r@ == serial_of(device_id@),
{
    proof {
        reveal_strlit("LMH-");
        reveal_strlit("");
        vstd::utf8::is_ascii_chars_encode_utf8("LMH-"@);
        vstd::utf8::is_ascii_chars_encode_utf8(""@);
    }
    let serial: Text<32> = hex::device_name(SERIAL_PREFIX, device_id, "");
    assert(serial@ =~= serial_of(device_id@));
    serial
}

/// The part of a USB serial behind the prefix, in bytes, if it has the prefix.
pub open spec fn id_in_serial(serial: Seq<u8>) -> Option<Seq<u8>> {
    let prefix = octets::utf8(SERIAL_PREFIX@);
    if octets::holds_at(serial, prefix, 0) {
        Some(serial.skip(prefix.len() as int))
    } else {
        None
    }
}

/// The id of the hub behind a USB serial, as the topics use it; `None` for a
/// serial that is not a hub's.
pub fn hub_id(serial: &str) -> (r: Option<Vec<u8>>)
    ensures
        match r {
            Some(id) => id_in_serial(octets::utf8(serial@)) == Some(id@),
            None => id_in_serial(octets::utf8(serial@)) is None,
        },
{
    let bytes: &[u8] = serial.as_bytes();
    let prefix: &[u8] = SERIAL_PREFIX.as_bytes();
    let n: usize = prefix.len();
    if bytes.len() < n || !octets::equal(&bytes[0..n], prefix) {
        return None;
    }
    let total: usize = bytes.len();
    let id: Vec<u8> = octets::part(bytes, n, total);
    assert(id@ =~= bytes@.skip(n as int));
    Some(id)
}

/// The id under which a hub's topics live is the one in its USB serial.
pub proof fn topics_use_the_serial_id(device_id: Seq<u8>)
    ensures
        id_in_serial(octets::utf8(serial_of(device_id))) == Some(
            octets::utf8(hex::device_chars(device_id)),
        ),
        traits::topics_of(device_id).status == "wt/hub/"@ + hex::device_chars(device_id)
            + "/status"@,
{
    let id = octets::utf8(hex::device_chars(device_id));
    let prefix = octets::utf8(SERIAL_PREFIX@);
    octets::lemma_utf8_concat(SERIAL_PREFIX@, hex::device_chars(device_id));
    assert((prefix + id).subrange(0, prefix.len() as int) =~= prefix);
    assert((prefix + id).skip(prefix.len() as int) =~= id);
}

/// How much of a write goes into one packet: at most one byte under the endpoint
/// packet size. A bulk transfer only terminates on a short packet, so data whose
/// tail filled a packet would sit undelivered in the host until later bytes
/// flush it.
pub fn write_len(len: usize, max_packet_size: u16) -> (r: usize)
    requires
        max_packet_size >= 1,
    ensures
        r == (if len < max_packet_size {
            len as int
        } else {
            max_packet_size - 1
        }),
{
    let cap: usize = max_packet_size as usize - 1;
    if len < cap {
        len
    } else {
        cap
    }
}

/// The packets that a write of `len` bytes is sent in.
pub open spec fn packets(len: nat, max_packet_size: nat) -> Seq<nat>
    decreases len,
{
    if len == 0 || max_packet_size <= 1 {
        Seq::empty()
    } else if len < max_packet_size {
        seq![len]
    } else {
        seq![(max_packet_size - 1) as nat] + packets(
            (len - (max_packet_size - 1)) as nat,
            max_packet_size,
        )
    }
}

/// The bytes in packets, all together.
pub open spec fn total(packets: Seq<nat>) -> nat
    decreases packets.len(),
{
    if packets.len() == 0 {
        0
    } else {
        packets[0] + total(packets.skip(1))
    }
}

/// Every byte of a write is sent, and every packet is a short one, so that the
/// host's driver delivers each of them at once.
pub proof fn every_packet_is_short(len: nat, max_packet_size: nat)
    requires
        max_packet_size > 1,
    ensures
        total(packets(len, max_packet_size)) == len,
        forall|k: int|
            0 <= k < packets(len, max_packet_size).len() ==> 0 < #[trigger] packets(
                len,
                max_packet_size,
            )[k] < max_packet_size,
    decreases len,
{
    let all = packets(len, max_packet_size);
    if len == 0 {
    } else if len < max_packet_size {
        assert(all.skip(1) =~= Seq::<nat>::empty());
        assert(total(all.skip(1)) == 0);
    } else {
        let left = (len - (max_packet_size - 1)) as nat;
        let rest = packets(left, max_packet_size);
        every_packet_is_short(left, max_packet_size);
        assert(all.skip(1) =~= rest);
        assert forall|k: int| 0 <= k < all.len() implies 0 < #[trigger] all[k]
            < max_packet_size by {
            if k > 0 {
                assert(all[k] == rest[k - 1]);
            }
        }
    }
}

/// The device id is bytes four to six of the MAC address, and the serial is `LMH-` and
/// those bytes in upper case hex.
pub proof fn serials_are_named_after_the_mac(mac: [u8; 6], id: [u8; 3], serial: Text<32>)
    requires
        call_ensures(device_id, (mac,), id),
        call_ensures(format_usb_serial, (id,), serial),
    ensures
        id@[0] == mac@[3],
        id@[1] == mac@[4],
        id@[2] == mac@[5],
        serial@ == "LMH-"@ + octets::ascii_chars(hex::upper(mac@.subrange(3, 6))),
{
    assert(mac@.subrange(3, 6)[0] == mac@[3]);
    assert(mac@.subrange(3, 6)[1] == mac@[4]);
    assert(mac@.subrange(3, 6)[2] == mac@[5]);
}

/// A hub's id is what stands behind `LMH-`; other serials have none.
pub proof fn hub_ids_stand_behind_the_prefix(serial: &str, r: Option<Vec<u8>>)
    requires
        call_ensures(hub_id, (serial,), r),
    ensures
        ({
            let bytes = octets::utf8(serial@);
            let is_hub = bytes.len() >= 4 && bytes[0] == 76 && bytes[1] == 77 && bytes[2] == 72
                && bytes[3] == 45;
            &&& r is Some <==> is_hub
            &&& r matches Some(id) ==> id@ == bytes.skip(4)
        }),
{
    let bytes = octets::utf8(serial@);
    reveal_strlit("LMH-");
    vstd::utf8::is_ascii_chars_encode_utf8("LMH-"@);
    let prefix = octets::utf8("LMH-"@);
    assert(prefix =~= seq![76u8, 77, 72, 45]);
    if bytes.len() >= 4 {
        let head = bytes.subrange(0, 4);
        assert(head[0] == bytes[0] && head[1] == bytes[1] && head[2] == bytes[2] && head[3]
            == bytes[3]);
        assert(head == prefix <==> head =~= prefix);
        assert(octets::holds_at(bytes, prefix, 0) <==> head == prefix);
    }
}

/// A write is never empty while there is something to send, never longer than that and
/// never fills a packet; what fits below a full packet goes at once.
pub proof fn writes_stay_below_a_packet(len: usize, max_packet_size: u16, r: usize)
    requires
        max_packet_size > 1,
        call_ensures(write_len, (len, max_packet_size), r),
    ensures
        r <= len,
        r < max_packet_size,
        len > 0 ==> r > 0,
        len < max_packet_size ==> r == len,
        len >= max_packet_size ==> r == max_packet_size - 1,
{
}

} // verus!
