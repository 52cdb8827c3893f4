//! What the engine's relays do with each packet: forwarding a node's mesh packets to
//! the shared channel of all radios, framing packets for stream connections and
//! unframing the client's packets.

use meshtastic::errors::Error as MeshtasticError;
use meshtastic::protobufs::PortNum;
use meshtastic::types::EncodedToRadioPacket;
use vstd::prelude::*;

use super::engine::Engine;

verus! {

/// The error type of the `meshtastic` crate.
#[verifier::external_type_specification]
#[verifier::external_body]
pub struct ExMeshtasticError(MeshtasticError);

/// Number of the port of the simulator application in the Meshtastic protocol.
pub open spec fn simulator_app_portnum() -> i32 {
    69
}

/// Calls `i32::from(PortNum::SimulatorApp)` of the `meshtastic` protobufs: the enum
/// is declared with `SimulatorApp = 69` and converts to its declared number.
#[verifier::external_body]
fn simulator_app_port() -> (r: i32)
    ensures
        r == simulator_app_portnum(),
{
    i32::from(PortNum::SimulatorApp)
}

/// The largest packet that fits behind a length header.
pub const MAX_FRAMED_LEN: usize = 65535;

/// Length of the header that frames a packet on a stream connection.
pub const FRAME_HEADER_LEN: usize = 4;

/// The header that frames a packet of `len` bytes on a stream connection: two magic
/// bytes, then the length, most significant byte first.
pub open spec fn frame_header(len: nat) -> Seq<u8> {
    seq![0x94u8, 0xc3u8, (len / 256) as u8, (len % 256) as u8]
}

/// Calls `meshtastic::utils::format_data_packet`: it refuses data of `1 << 16` bytes or
/// more, and otherwise prefixes the data with `0x94, 0xc3` and the two bytes of its
/// length, most significant first.
#[verifier::external_body]
fn format_data_packet(data: Vec<u8>) -> (res: Result<Vec<u8>, MeshtasticError>)
    ensures
        res is Ok <==> data@.len() <= MAX_FRAMED_LEN,
        res matches Ok(framed) ==> framed@ == frame_header(data@.len()) + data@,
{
    match meshtastic::utils::format_data_packet(EncodedToRadioPacket::new(data)) {
        Ok(framed) => Ok(framed.data_vec()),
        Err(e) => Err(e),
    }
}

/// The message with which framing refuses a packet that is too long.
pub open spec fn oversized_packet_message() -> Seq<char> {
    "Packet is too long to frame"@
}

/// Frames an encoded packet for a stream connection (the client application's or a
/// radio's); fails when the packet is longer than `MAX_FRAMED_LEN` bytes.
pub fn frame_packet(encoded: Vec<u8>) -> (res: Result<Vec<u8>, String>)
    ensures
        res is Ok <==> encoded@.len() <= MAX_FRAMED_LEN,
        res matches Ok(framed) ==> framed@ == frame_header(encoded@.len()) + encoded@,
        res matches Err(e) ==> e@ == oversized_packet_message(),
{
    match format_data_packet(encoded) {
        Ok(framed) => Ok(framed),
        Err(_) => Err(String::from_str("Packet is too long to frame")),
    }
}

/// Removes the frame header from a packet that the client application sent; `None`
/// when the packet is shorter than the header.
pub fn strip_client_header(packet: &Vec<u8>) -> (res: Option<Vec<u8>>)
    ensures
        res is Some <==> packet@.len() >= FRAME_HEADER_LEN,
        res matches Some(data) ==> data@ == packet@.skip(FRAME_HEADER_LEN as int),
{
    if packet.len() < FRAME_HEADER_LEN {
        return None;
    }
    let mut data: Vec<u8> = Vec::new();
    let mut i: usize = FRAME_HEADER_LEN;
    while i < packet.len()
        invariant
            FRAME_HEADER_LEN <= i <= packet@.len(),
            data@ == packet@.subrange(FRAME_HEADER_LEN as int, i as int),
        decreases packet@.len() - i,
    {
        data.push(packet[i]);
        i += 1;
        assert(data@ =~= packet@.subrange(FRAME_HEADER_LEN as int, i as int));
    }
    assert(data@ =~= packet@.skip(FRAME_HEADER_LEN as int));
    Some(data)
}

/// Unframing a packet that was framed gives back the packet: for every packet of at
/// most `MAX_FRAMED_LEN` bytes, the framed packet is long enough to unframe, and
/// dropping its header yields the packet.
pub proof fn lemma_strip_undoes_frame(data: Seq<u8>)
    requires
        data.len() <= MAX_FRAMED_LEN,
    ensures
        (frame_header(data.len()) + data).len() >= FRAME_HEADER_LEN,
        (frame_header(data.len()) + data).skip(FRAME_HEADER_LEN as int) == data,
{
    assert((frame_header(data.len()) + data).skip(FRAME_HEADER_LEN as int) =~= data);
}

/// The payload of a mesh packet as far as forwarding reads it.
#[derive(Clone, Copy, Debug, PartialEq, Eq, Structural)]
pub enum MeshPayload {
    /// Decoded data addressed to the given application port.
    Decoded { portnum: i32 },
    /// Encrypted data.
    Encrypted,
    /// No payload at all.
    Missing,
}

/// The message with which forwarding refuses a packet whose payload is not decoded.
pub open spec fn invalid_mesh_packet_message() -> Seq<char> {
    "Received invalid mesh packet, skipping"@
}

/// The payload a forwarded packet carries: decoded data is readdressed to the
/// simulator application's port; anything else is refused.
pub open spec fn forwarded_payload(payload: MeshPayload) -> Option<MeshPayload> {
    match payload {
        MeshPayload::Decoded { .. } => Some(MeshPayload::Decoded { portnum: simulator_app_portnum() }),
        _ => None,
    }
}

impl Engine {
    /// The payload of the copy of a mesh packet that the engine forwards to the other
    /// radios: decoded data readdressed to the simulator application's port. A packet
    /// without decoded data is refused.
    pub fn generate_forwarded_mesh_packet(payload: MeshPayload) -> (res: Result<MeshPayload, String>)
        ensures
            res is Ok <==> forwarded_payload(payload) is Some,
            res matches Ok(p) ==> forwarded_payload(payload) == Some(p),
            res matches Err(e) ==> e@ == invalid_mesh_packet_message(),
    {
        match payload {
            MeshPayload::Decoded { .. } => Ok(MeshPayload::Decoded { portnum: simulator_app_port() }),
            _ => Err(String::from_str("Received invalid mesh packet, skipping")),
        }
    }
}

/// A packet that a radio sent to the engine, as far as the relay reads it.
#[derive(Clone, Copy, Debug, PartialEq, Eq, Structural)]
pub enum FromRadioPayload {
    /// A mesh packet with the given payload.
    MeshPacket(MeshPayload),
    /// Anything else the radio reports (configuration, node info, ...).
    Other,
}

/// What the relay does with a packet towards the other radios.
#[derive(Clone, Copy, Debug, PartialEq, Eq, Structural)]
pub enum PubSubAction {
    /// Publish a copy of the mesh packet with this payload.
    Forward(MeshPayload),
    /// Not a mesh packet: nothing to publish.
    SkipNonMeshPacket,
}

/// The payload with which the relay publishes a mesh packet to the other radios:
/// decoded data is readdressed to the simulator application's port; any other
/// payload is published as it came.
pub open spec fn published_payload(payload: MeshPayload) -> MeshPayload {
    match forwarded_payload(payload) {
        Some(q) => q,
        None => payload,
    }
}

/// What the relay of one radio does with a packet that the radio sent.
#[derive(Clone, Debug)]
pub struct FromRadioRoute {
    /// Pass the packet on to the client application.
    pub forward_to_client: bool,
    /// What to publish to the other radios.
    pub pubsub: PubSubAction,
}

/// The decision of the relay of radio `node_id` on a packet it received: the packet
/// goes to the client application when the radio is the client interface
/// (`client_interface_node_hwid`); every mesh packet is published to the other
/// radios, decoded data readdressed to the simulator application and any other
/// payload unchanged; packets that are not mesh packets are not published.
pub fn route_from_radio(
    node_id: u32,
    client_interface_node_hwid: u32,
    packet: FromRadioPayload,
) -> (res: FromRadioRoute)
    ensures
        res.forward_to_client == (node_id == client_interface_node_hwid),
        match packet {
            FromRadioPayload::Other => res.pubsub is SkipNonMeshPacket,
            FromRadioPayload::MeshPacket(p) => res.pubsub == PubSubAction::Forward(
                published_payload(p),
            ),
        },
{
    let forward_to_client = node_id == client_interface_node_hwid;
    let pubsub = match packet {
        FromRadioPayload::Other => PubSubAction::SkipNonMeshPacket,
        FromRadioPayload::MeshPacket(p) => match Engine::generate_forwarded_mesh_packet(p) {
            Ok(q) => PubSubAction::Forward(q),
            Err(_) => PubSubAction::Forward(p),
        },
    };
    FromRadioRoute { forward_to_client, pubsub }
}

/// Forwarding never refuses decoded data: every decoded payload, whatever port it
/// was addressed to (the simulator's own port included), is forwarded readdressed
/// to port 69, the simulator application's; encrypted and missing payloads are the
/// only ones refused, and the relay publishes them unchanged.
pub proof fn lemma_decoded_payloads_forwarded(payload: MeshPayload)
    ensures
        (forwarded_payload(payload) is Some) <==> (payload is Decoded),
        (payload is Decoded) ==> (forwarded_payload(payload) == Some(
            (MeshPayload::Decoded { portnum: 69 }),
        )),
        (payload is Decoded) ==> (published_payload(payload) == (MeshPayload::Decoded {
            portnum: 69,
        })),
        !(payload is Decoded) ==> (published_payload(payload) == payload),
{
}

/// Every mesh packet a radio emits is published to the other radios, and nothing
/// else is: the relay's decision publishes exactly the mesh packets, each with its
/// payload readdressed when decoded and unchanged otherwise.
pub proof fn lemma_every_mesh_packet_published(packet: FromRadioPayload, route: FromRadioRoute)
    requires
        match packet {
            FromRadioPayload::Other => route.pubsub is SkipNonMeshPacket,
            FromRadioPayload::MeshPacket(p) => route.pubsub == PubSubAction::Forward(
                published_payload(p),
            ),
        },
    ensures
        route.pubsub is Forward <==> packet is MeshPacket,
        packet matches FromRadioPayload::MeshPacket(MeshPayload::Decoded { .. })
            ==> route.pubsub == PubSubAction::Forward(
            MeshPayload::Decoded { portnum: simulator_app_portnum() },
        ),
        packet matches FromRadioPayload::MeshPacket(MeshPayload::Encrypted) ==> route.pubsub
            == PubSubAction::Forward(MeshPayload::Encrypted),
        packet matches FromRadioPayload::MeshPacket(MeshPayload::Missing) ==> route.pubsub
            == PubSubAction::Forward(MeshPayload::Missing),
{
}

} // verus!
