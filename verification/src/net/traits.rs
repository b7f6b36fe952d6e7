//! MQTT topics.
//!
//! The bridge produces [`MqttOutbound`] values naming a logical [`Topic`];
//! [`addressed`] resolves the topic against the hub's [`TopicSet`].
use crate::bounded::Text;
use crate::bridge::{MqttOutbound, Topic};
use crate::hex;
use crate::octets;
use vstd::prelude::*;

verus! {

/// Publishing failed; the connection should be torn down and retried.
#[derive(Debug, Clone, Copy, PartialEq, Eq, Structural)]
pub struct SinkError;

/// The hub's topic names, derived once from the device id.
pub struct TopicSet {
    rx: Text<32>,
    tx: Text<32>,
    tx_result: Text<32>,
    status: Text<32>,
}

/// What the names of a [`TopicSet`] are.
pub struct TopicsSpec {
    /// Received packets.
    pub rx: Seq<char>,
    /// Downlink requests.
    pub tx: Seq<char>,
    /// Outcomes of downlinks.
    pub tx_result: Seq<char>,
    /// Hub status.
    pub status: Seq<char>,
}

impl View for TopicSet {
    type V = TopicsSpec;

    closed spec fn view(&self) -> TopicsSpec {
        TopicsSpec {
            rx: self.rx@,
            tx: self.tx@,
            tx_result: self.tx_result@,
            status: self.status@,
        }
    }
}

impl TopicsSpec {
    /// The topic of a publication.
    pub open spec fn resolved(self, topic: Topic) -> Seq<char> {
        match topic {
            Topic::Rx => self.rx,
            Topic::TxResult => self.tx_result,
        }
    }
}

/// The topics of a hub: under `wt/hub/XXXXXX/` where `XXXXXX` is the device id
/// in hex.
pub open spec fn topics_of(device_id: Seq<u8>) -> TopicsSpec {
    let base = "wt/hub/"@ + hex::device_chars(device_id);
    TopicsSpec {
        rx: base + "/rx"@,
        tx: base + "/tx"@,
        tx_result: base + "/tx/result"@,
        status: base + "/status"@,
    }
}

/// A publication with its full topic.
pub struct Publication<'a> {
    /// Full topic name.
    pub topic: &'a str,
    /// What to publish.
    pub payload: &'a [u8],
    /// Whether the broker keeps it.
    pub retain: bool,
}

impl TopicSet {
    /// Topics under `wt/hub/XXXXXX/` where `XXXXXX` is the device id in hex.
    pub fn new(device_id: [u8; 3]) -> (r: Self)
        ensures
            r@ == topics_of(device_id@),
    {
        proof {
            reveal_strlit("wt/hub/");
            reveal_strlit("/rx");
            reveal_strlit("/tx");
            reveal_strlit("/tx/result");
            reveal_strlit("/status");
            vstd::utf8::is_ascii_chars_encode_utf8("wt/hub/"@);
            vstd::utf8::is_ascii_chars_encode_utf8("/rx"@);
            vstd::utf8::is_ascii_chars_encode_utf8("/tx"@);
            vstd::utf8::is_ascii_chars_encode_utf8("/tx/result"@);
            vstd::utf8::is_ascii_chars_encode_utf8("/status"@);
        }
        TopicSet {
            rx: hex::device_name("wt/hub/", device_id, "/rx"),
            tx: hex::device_name("wt/hub/", device_id, "/tx"),
            tx_result: hex::device_name("wt/hub/", device_id, "/tx/result"),
            status: hex::device_name("wt/hub/", device_id, "/status"),
        }
    }

    /// The full name of a topic.
    pub fn resolve(&self, topic: Topic) -> (r: &str)
        ensures
            r@ == self@.resolved(topic),
    {
        match topic {
            Topic::Rx => self.rx.as_str(),
            Topic::TxResult => self.tx_result.as_str(),
        }
    }

    /// The downlink topic the MQTT task subscribes to.
    pub fn tx(&self) -> (r: &str)
        ensures
            r@ == self@.tx,
    {
        self.tx.as_str()
    }

    /// The status topic.
    pub fn status(&self) -> (r: &str)
        ensures
            r@ == self@.status,
    {
        self.status.as_str()
    }
}

/// A queued message with its full topic, as it goes to the broker.
pub fn addressed<'a>(topics: &'a TopicSet, outbound: &'a MqttOutbound) -> (r: Publication<'a>)
    ensures
        r.topic@ == topics@.resolved(outbound@.topic),
        r.payload@ == outbound@.payload,
        r.retain == outbound@.retain,
{
    Publication {
        topic: topics.resolve(outbound.topic),
        payload: outbound.payload.as_slice(),
        retain: outbound.retain,
    }
}

/// A hub publishes under `wt/hub/`, its three bytes in upper case hex, and `/rx` for
/// packets, `/tx/result` for outcomes and `/status` for its status, and listens under
/// `/tx`.
pub proof fn topics_are_named_after_the_device(device_id: [u8; 3], topics: TopicSet)
    requires
        call_ensures(TopicSet::new, (device_id,), topics),
    ensures
        ({
            let id = octets::ascii_chars(hex::upper(device_id@));
            &&& topics@.rx == "wt/hub/"@ + id + "/rx"@
            &&& topics@.tx == "wt/hub/"@ + id + "/tx"@
            &&& topics@.tx_result == "wt/hub/"@ + id + "/tx/result"@
            &&& topics@.status == "wt/hub/"@ + id + "/status"@
        }),
{
}

/// A packet is published on the packets' topic and an outcome on the outcomes', with
/// the payload and the retain flag that it was queued with.
pub proof fn publications_go_to_their_topic(
    topics: TopicSet,
    outbound: MqttOutbound,
    r: Publication,
)
    requires
        call_ensures(addressed, (&topics, &outbound), r),
    ensures
        outbound.topic == Topic::Rx ==> r.topic@ == topics@.rx,
        outbound.topic == Topic::TxResult ==> r.topic@ == topics@.tx_result,
        r.payload@ == outbound.payload@,
        r.retain == outbound.retain,
{
}

} // verus!
