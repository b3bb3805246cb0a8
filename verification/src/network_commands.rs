//! Framing of the settings packets exchanged with the game server. A wire
//! packet is an 8-byte header (packet id and payload length, both
//! little-endian `u32`) followed by the payload.

use vstd::prelude::*;

verus! {

/// Size of the packed settings payload: 17 unit blocks of 72 bytes, 11 health
/// ratios of 8 bytes and 196 bytes of global values.
pub const SOURCE_ZSETTINGS_PACKET_SIZE: usize = 1420;

/// Length of the header in front of every wire payload.
pub const PACKET_HEADER_SIZE: usize = 8;

/// Packet id of a settings request.
pub const REQUEST_SETTINGS_PACKET_ID: u32 = 53;

/// Packet id of a settings payload.
pub const SET_SETTINGS_PACKET_ID: u32 = 54;

/// Little-endian bytes of a `u32`.
pub open spec fn spec_u32_le_bytes(v: u32) -> Seq<u8> {
    seq![
        (v % 256) as u8,
        ((v / 256) % 256) as u8,
        ((v / 65536) % 256) as u8,
        ((v / 16777216) % 256) as u8,
    ]
}

/// Wire form of a packet: header, then payload.
pub open spec fn spec_wire_packet(id: u32, payload: Seq<u8>) -> Seq<u8> {
    spec_u32_le_bytes(id) + spec_u32_le_bytes(payload.len() as u32) + payload
}

/// Appends the little-endian bytes of `v`.
pub fn push_u32_le(out: &mut Vec<u8>, v: u32)
    ensures
        final(out)@ == old(out)@ + spec_u32_le_bytes(v),
{
    out.push((v % 256) as u8);
    out.push(((v / 256) % 256) as u8);
    out.push(((v / 65536) % 256) as u8);
    out.push(((v / 16777216) % 256) as u8);
    proof {
        assert(out@ =~= old(out)@ + spec_u32_le_bytes(v));
    }
}

/// Copies `bytes[from..]` into a new vector.
pub fn copy_tail(bytes: &[u8], from: usize) -> (r: Vec<u8>)
    requires
        from <= bytes@.len(),
    ensures
        r@ == bytes@.subrange(from as int, bytes@.len() as int),
{
    let mut r: Vec<u8> = Vec::new();
    let mut i = from;
    while i < bytes.len()
        invariant
            from <= i <= bytes@.len(),
            r@ == bytes@.subrange(from as int, i as int),
        decreases bytes@.len() - i,
    {
        r.push(bytes[i]);
        proof {
            assert(r@ =~= bytes@.subrange(from as int, i + 1));
        }
        i = i + 1;
    }
    r
}

/// A request for the server's settings; it carries no payload.
#[derive(Clone, Copy, Debug, PartialEq, Eq, Structural)]
pub struct RequestSettingsCommand;

impl RequestSettingsCommand {
    /// The request in wire form: a header announcing an empty payload.
    pub fn encode_packet(&self) -> (r: Vec<u8>)
        ensures
            r@ == spec_wire_packet(REQUEST_SETTINGS_PACKET_ID, Seq::<u8>::empty()),
    {
        let mut r: Vec<u8> = Vec::new();
        push_u32_le(&mut r, REQUEST_SETTINGS_PACKET_ID);
        push_u32_le(&mut r, 0);
        proof {
            assert(r@ =~= spec_wire_packet(REQUEST_SETTINGS_PACKET_ID, Seq::<u8>::empty()));
        }
        r
    }

    /// Reads a request from its payload, which must be empty.
    pub fn decode_payload(payload: &[u8]) -> (r: Option<RequestSettingsCommand>)
        ensures
            r is Some <==> payload@.len() == 0,
    {
        if payload.len() == 0 {
            Some(RequestSettingsCommand)
        } else {
            None
        }
    }
}

/// The packed settings payload that the server sends to every client.
#[derive(Clone, Debug)]
pub struct SetSettingsPacket {
    pub bytes: Vec<u8>,
}

impl SetSettingsPacket {
    /// A packet of `bytes`, if they have the packed settings size.
    pub fn new(bytes: Vec<u8>) -> (r: Option<SetSettingsPacket>)
        ensures
            r is Some <==> bytes@.len() == SOURCE_ZSETTINGS_PACKET_SIZE,
            r matches Some(p) ==> p.bytes@ == bytes@,
    {
        if bytes.len() == SOURCE_ZSETTINGS_PACKET_SIZE {
            Some(SetSettingsPacket { bytes })
        } else {
            None
        }
    }

    /// The packet in wire form.
    pub fn encode_packet(&self) -> (r: Vec<u8>)
        requires
            self.bytes@.len() <= u32::MAX,
        ensures
            r@ == spec_wire_packet(SET_SETTINGS_PACKET_ID, self.bytes@),
    {
        let mut r: Vec<u8> = Vec::new();
        push_u32_le(&mut r, SET_SETTINGS_PACKET_ID);
        push_u32_le(&mut r, self.bytes.len() as u32);
        let mut i: usize = 0;
        let ghost head = r@;
        while i < self.bytes.len()
            invariant
                i <= self.bytes@.len(),
                r@ == head + self.bytes@.subrange(0, i as int),
            decreases self.bytes@.len() - i,
        {
            r.push(self.bytes[i]);
            proof {
                assert(r@ =~= head + self.bytes@.subrange(0, i + 1));
            }
            i = i + 1;
        }
        proof {
            assert(self.bytes@.subrange(0, self.bytes@.len() as int) =~= self.bytes@);
            assert(r@ =~= spec_wire_packet(SET_SETTINGS_PACKET_ID, self.bytes@));
        }
        r
    }

    /// Reads a settings packet from its payload, which must have the packed
    /// settings size.
    pub fn decode_payload(payload: &[u8]) -> (r: Option<SetSettingsPacket>)
        ensures
            r is Some <==> payload@.len() == SOURCE_ZSETTINGS_PACKET_SIZE,
            r matches Some(p) ==> p.bytes@ == payload@,
    {
        if payload.len() != SOURCE_ZSETTINGS_PACKET_SIZE {
            return None;
        }
        let bytes = copy_tail(payload, 0);
        proof {
            assert(payload@.subrange(0, payload@.len() as int) =~= payload@);
        }
        Some(SetSettingsPacket { bytes })
    }
}

/// What a waypoint asks a unit to do.
#[derive(Clone, Copy, Debug, PartialEq, Eq, Structural)]
pub enum SourceWaypointMode {
    Move,
    ForceMove,
    Dodge,
    Agro,
    Attack,
    Enter,
    CraneRepair,
    UnitRepair,
    EnterFort,
    PickupGrenades,
}

/// A waypoint as the server receives it: what to do, the object it is
/// about (`-1` for none), where on the map, whether to attack on the way,
/// and whether a player gave it.
#[derive(Clone, Copy, Debug, PartialEq, Eq, Structural)]
pub struct SourceWaypoint {
    pub mode: SourceWaypointMode,
    pub ref_id: i32,
    pub x: i32,
    pub y: i32,
    pub attack_to: bool,
    pub player_given: bool,
}

/// Waypoints a player sends for one of their units.
#[derive(Clone, Debug, PartialEq, Eq)]
pub struct SendWaypointsPacket {
    pub ref_id: i32,
    pub waypoints: Vec<SourceWaypoint>,
}

/// Rally points a player sends for one of their buildings.
#[derive(Clone, Debug, PartialEq, Eq)]
pub struct SendRallypointsPacket {
    pub ref_id: i32,
    pub waypoints: Vec<SourceWaypoint>,
}

} // verus!
