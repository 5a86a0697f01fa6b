//! Session-wide laws: properties that relate several operations of the
//! tracker, proved over the same `TrackerModel` transition functions that
//! the operations' contracts use.

use vstd::prelude::*;

use crate::protocol::CbPacket;
use crate::protocol::ImuType;
use crate::protocol::Packet;
use crate::protocol::SbPacket;
use crate::protocol::SensorStatus;
use crate::protocol::Status;
use crate::tracker::TrackerError;
use crate::tracker::TrackerModel;

verus! {

/// The sensor registry holds, in order, exactly the identifiers
/// `0, 1, ...` up to its length.
pub open spec fn sensor_ids_in_order(m: TrackerModel) -> bool {
    forall|i: int| 0 <= i < m.sensors.len() ==> (#[trigger] m.sensors[i]).sensor_id == i as u8
}

/// Successive sends on a live session stamp strictly increasing sequence
/// numbers, by exactly one per send: no duplicates and no gaps.
pub proof fn lemma_send_seq_consecutive(m: TrackerModel, d1: SbPacket, d2: SbPacket)
    requires
        m.socket_present,
        m.state.packet_number + 2 <= u64::MAX,
    ensures
        ({
            let (m1, r1) = m.send_packet(d1);
            let (m2, r2) = m1.send_packet(d2);
            &&& r1 == Ok::<Packet, TrackerError>(
                Packet { seq: (m.state.packet_number + 1) as u64, data: d1 },
            )
            &&& r2 == Ok::<Packet, TrackerError>(
                Packet { seq: (m.state.packet_number + 2) as u64, data: d2 },
            )
            &&& m2.state.packet_number == m.state.packet_number + 2
        }),
{
}

/// The sequence counter is never reset: a send after a full deinit/init
/// cycle continues exactly one past the send before it.
pub proof fn lemma_packet_number_survives_reinit(m: TrackerModel, d1: SbPacket, d2: SbPacket)
    requires
        m.wf(),
        m.socket_present,
        m.state.packet_number + 2 <= u64::MAX,
    ensures
        ({
            let (m1, r1) = m.send_packet(d1);
            let (m2, p2) = m1.deinit();
            let (m3, p3) = m2.attach_socket();
            let (m4, r4) = m3.send_packet(d2);
            &&& r1 == Ok::<Packet, TrackerError>(
                Packet { seq: (m.state.packet_number + 1) as u64, data: d1 },
            )
            &&& m3.state.packet_number == m.state.packet_number + 1
            &&& r4 == Ok::<Packet, TrackerError>(
                Packet { seq: (m.state.packet_number + 2) as u64, data: d2 },
            )
        }),
{
}

/// Registering a sensor assigns the registry length as its identifier, so
/// a registry whose identifiers read `0, 1, ..., k-1` grows to one that
/// reads `0, 1, ..., k`; this holds with or without a live socket.
pub proof fn lemma_add_sensor_ids_sequential(
    m: TrackerModel,
    sensor_type: ImuType,
    sensor_status: SensorStatus,
)
    requires
        sensor_ids_in_order(m),
        m.sensors.len() < 256,
    ensures
        ({
            let (m2, r) = m.add_sensor(sensor_type, sensor_status);
            &&& m2.sensors.len() == m.sensors.len() + 1
            &&& m2.sensors[m.sensors.len() as int].sensor_id == m.sensors.len() as u8
            &&& sensor_ids_in_order(m2)
        }),
{
    let (m2, r) = m.add_sensor(sensor_type, sensor_status);
    assert forall|i: int| 0 <= i < m2.sensors.len() implies (#[trigger] m2.sensors[i]).sensor_id
        == i as u8 by {
        if i < m.sensors.len() {
            assert(m2.sensors[i] == m.sensors[i]);
        }
    }
}

/// Neither tearing a session down nor bringing it back up touches the
/// sensor registry or the sequence counter: identifiers assigned after a
/// deinit/init cycle continue the sequence instead of restarting it.
pub proof fn lemma_registry_survives_reinit(m: TrackerModel)
    requires
        m.state.status != Status::Initializing,
    ensures
        ({
            let (m1, p1) = m.deinit();
            let (m2, p2) = m1.attach_socket();
            &&& m1.sensors == m.sensors
            &&& m2.sensors == m.sensors
            &&& m1.state.packet_number == m.state.packet_number
            &&& m2.state.packet_number == m.state.packet_number
        }),
{
}

/// The first well-formed datagram received while the session is not yet
/// connected moves it to `ConnectedToServer` and publishes that change
/// exactly once: a second datagram changes no status and publishes
/// nothing.
pub proof fn lemma_connect_publishes_once(m: TrackerModel, n1: u16, n2: u16)
    requires
        m.state.status != Status::ConnectedToServer,
    ensures
        ({
            let (m1, p1) = m.on_datagram(n1);
            let (m2, p2) = m1.on_datagram(n2);
            &&& m1.state.status == Status::ConnectedToServer
            &&& p1 == Some(Status::ConnectedToServer)
            &&& m2.state.status == Status::ConnectedToServer
            &&& p2 == None::<Status>
        }),
{
}

/// A ping with challenge `X` draws exactly one reply: a ping that echoes
/// the same `X`, stamped with a freshly advanced sequence number.
pub proof fn lemma_ping_echo(m: TrackerModel, challenge: u32)
    requires
        m.socket_present,
        m.state.packet_number < u64::MAX,
    ensures
        ({
            let (m2, r) = m.handle_packet(CbPacket::Ping { challenge });
            &&& r == Some(
                Packet {
                    seq: (m.state.packet_number + 1) as u64,
                    data: SbPacket::Ping { challenge },
                },
            )
            &&& m2.state.packet_number == m.state.packet_number + 1
        }),
{
}

} // verus!
