//! MQTT v5 events, as `rumqttc` hands them out.

use vstd::prelude::*;
use rumqttc::v5::mqttbytes::v5::{Packet, Publish};
use rumqttc::v5::Event;

verus! {

// Verus reads the variants of `Event` and of `Packet` from `rumqttc` itself,
// so a `match` on them is verified like one on an enum of this crate. What the
// variants carry stays opaque: nothing here looks into a packet.
#[verifier::external_type_specification]
pub struct ExEvent(rumqttc::v5::Event);

#[verifier::external_type_specification]
pub struct ExPacket(rumqttc::v5::mqttbytes::v5::Packet);

#[verifier::external_type_specification]
#[verifier::external_body]
pub struct ExOutgoing(rumqttc::Outgoing);

#[verifier::external_type_specification]
#[verifier::external_body]
pub struct ExConnect(rumqttc::v5::mqttbytes::v5::Connect);

#[verifier::external_type_specification]
#[verifier::external_body]
pub struct ExLastWill(rumqttc::v5::mqttbytes::v5::LastWill);

#[verifier::external_type_specification]
#[verifier::external_body]
pub struct ExLogin(rumqttc::v5::mqttbytes::v5::Login);

#[verifier::external_type_specification]
#[verifier::external_body]
pub struct ExConnAck(rumqttc::v5::mqttbytes::v5::ConnAck);

#[verifier::external_type_specification]
#[verifier::external_body]
pub struct ExPublish(rumqttc::v5::mqttbytes::v5::Publish);

#[verifier::external_type_specification]
#[verifier::external_body]
pub struct ExPubAck(rumqttc::v5::mqttbytes::v5::PubAck);

#[verifier::external_type_specification]
#[verifier::external_body]
pub struct ExPingReq(rumqttc::v5::mqttbytes::v5::PingReq);

#[verifier::external_type_specification]
#[verifier::external_body]
pub struct ExPingResp(rumqttc::v5::mqttbytes::v5::PingResp);

#[verifier::external_type_specification]
#[verifier::external_body]
pub struct ExSubscribe(rumqttc::v5::mqttbytes::v5::Subscribe);

#[verifier::external_type_specification]
#[verifier::external_body]
pub struct ExSubAck(rumqttc::v5::mqttbytes::v5::SubAck);

#[verifier::external_type_specification]
#[verifier::external_body]
pub struct ExPubRec(rumqttc::v5::mqttbytes::v5::PubRec);

#[verifier::external_type_specification]
#[verifier::external_body]
pub struct ExPubRel(rumqttc::v5::mqttbytes::v5::PubRel);

#[verifier::external_type_specification]
#[verifier::external_body]
pub struct ExPubComp(rumqttc::v5::mqttbytes::v5::PubComp);

#[verifier::external_type_specification]
#[verifier::external_body]
pub struct ExUnsubscribe(rumqttc::v5::mqttbytes::v5::Unsubscribe);

#[verifier::external_type_specification]
#[verifier::external_body]
pub struct ExUnsubAck(rumqttc::v5::mqttbytes::v5::UnsubAck);

#[verifier::external_type_specification]
#[verifier::external_body]
pub struct ExDisconnect(rumqttc::v5::mqttbytes::v5::Disconnect);

/// The publish packet that `event` brings in, if it brings one.
pub open spec fn publish_of(event: Event) -> Option<Publish> {
    match event {
        Event::Incoming(Packet::Publish(publish)) => Some(publish),
        _ => None,
    }
}

/// The publish packet of an incoming publish event; `None` for every other
/// incoming packet and for every outgoing event.
#[inline(always)]
pub fn get_publish_value(event: Event) -> (value: Option<Publish>)
    ensures
        value == publish_of(event),
{
    if let Event::Incoming(packet) = event {
        if let Packet::Publish(v) = packet {
            return Some(v);
        }
    }
    None
}

} // verus!
