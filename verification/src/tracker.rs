//! The session engine of the emulated tracker.
//!
//! `EmulatedTracker` is the single source of truth for the session: the
//! connection status, the outbound sequence counter, the registered sensors
//! and the identity announced to the server. Every public method is a pure
//! decision step: it updates the session and returns the packets to put on
//! the wire and the status values to publish, and a runtime performs the
//! socket, timer and channel work around it. Each state change is pinned
//! exactly by a transition function on `TrackerModel`, the mathematical
//! view of the tracker.

use vstd::prelude::*;

use crate::protocol::ActionType;
use crate::protocol::BoardType;
use crate::protocol::CbPacket;
use crate::protocol::ImuType;
use crate::protocol::McuType;
use crate::protocol::Packet;
use crate::protocol::SbPacket;
use crate::protocol::SensorDataType;
use crate::protocol::SensorStatus;
use crate::protocol::SlimeQuaternion;
use crate::protocol::Status;
use vstd::string::StringExecFns;

verus! {

/// Why a session operation could not produce a packet.
#[derive(Clone, Copy, Debug, PartialEq, Eq, Structural)]
pub enum TrackerError {
    /// The operation needs a live socket, but the session is uninitialized.
    NotInitialized,
}

/// A registered virtual sensor. Identifiers are assigned in registration
/// order and are never reused, even across a deinit/init cycle.
#[derive(Clone, Copy, Debug, PartialEq, Eq, Structural)]
pub struct Sensor {
    pub sensor_id: u8,
    pub sensor_type: ImuType,
    pub sensor_status: SensorStatus,
}

/// The mutable core of the session, shared by the connection engine, the
/// heartbeat emitter and the liveness watchdog.
#[derive(Clone, Copy, Debug, PartialEq, Eq, Structural)]
pub struct TrackerState {
    pub status: Status,
    /// Sequence counter stamped on outbound packets; strictly increasing
    /// over the life of the tracker, never reset by deinit.
    pub packet_number: u64,
    /// Low sixteen bits of the arrival time of the last inbound datagram;
    /// lossy, kept for display only.
    pub last_received_packet_time: u16,
}

/// An emulated motion tracker: immutable identity and server configuration,
/// the session state, the sensor registry, and whether the outbound socket
/// is currently held by the runtime.
pub struct EmulatedTracker {
    pub mac_address: [u8; 6],
    pub firmware_version: String,
    pub board_type: BoardType,
    pub mcu_type: McuType,
    /// Maximum server silence in milliseconds before the watchdog fires.
    pub server_timeout: u64,
    pub server_ip: String,
    pub server_port: u16,
    pub debug: bool,
    pub sensors: Vec<Sensor>,
    pub state: TrackerState,
    /// Whether the runtime currently holds a bound, broadcast-enabled
    /// datagram socket for this session.
    pub socket_present: bool,
}

/// The mathematical view of a tracker: identity and configuration as plain
/// values, the sensor registry as a sequence, and the session state. The
/// transition functions below say exactly what each session operation does
/// to this view.
#[verifier::ext_equal]
pub struct TrackerModel {
    pub mac_address: [u8; 6],
    pub firmware_version: Seq<char>,
    pub board_type: BoardType,
    pub mcu_type: McuType,
    pub server_timeout: u64,
    pub server_ip: Seq<char>,
    pub server_port: u16,
    pub debug: bool,
    pub sensors: Seq<Sensor>,
    pub state: TrackerState,
    pub socket_present: bool,
}

impl View for EmulatedTracker {
    type V = TrackerModel;

    open spec fn view(&self) -> TrackerModel {
        TrackerModel {
            mac_address: self.mac_address,
            firmware_version: self.firmware_version@,
            board_type: self.board_type,
            mcu_type: self.mcu_type,
            server_timeout: self.server_timeout,
            server_ip: self.server_ip@,
            server_port: self.server_port,
            debug: self.debug,
            sensors: self.sensors@,
            state: self.state,
            socket_present: self.socket_present,
        }
    }
}

impl TrackerModel {
    /// Session well-formedness: exactly one socket is live while the status
    /// is not `Initializing`; it is acquired on the transition out of
    /// `Initializing` and released on any transition back.
    pub open spec fn wf(self) -> bool {
        self.socket_present <==> self.state.status != Status::Initializing
    }

    /// Acquiring the socket: the session leaves `Initializing` for `Idle`
    /// and records that the runtime now holds the socket. Everything else,
    /// the sequence counter included, is untouched. The returned status is
    /// published.
    pub open spec fn attach_socket(self) -> (TrackerModel, Status) {
        let t2 = TrackerModel {
            state: TrackerState { status: Status::Idle, ..self.state },
            socket_present: true,
            ..self
        };
        (t2, Status::Idle)
    }

    /// Tearing the session down: a no-op while uninitialized; otherwise the
    /// socket is released, the status returns to `Initializing` and that
    /// change is published. The sequence counter and the sensor registry
    /// survive.
    pub open spec fn deinit(self) -> (TrackerModel, Option<Status>) {
        if self.state.status == Status::Initializing {
            (self, None)
        } else {
            let t2 = TrackerModel {
                state: TrackerState { status: Status::Initializing, ..self.state },
                socket_present: false,
                ..self
            };
            (t2, Some(Status::Initializing))
        }
    }

    /// Receipt of any well-formed datagram: the first one confirms the
    /// connection, published exactly once; every one refreshes the lossy
    /// receipt timestamp.
    pub open spec fn on_datagram(self, now_ms: u16) -> (TrackerModel, Option<Status>) {
        let t2 = TrackerModel {
            state: TrackerState {
                status: Status::ConnectedToServer,
                last_received_packet_time: now_ms,
                ..self.state
            },
            ..self
        };
        if self.state.status == Status::ConnectedToServer {
            (t2, None)
        } else {
            (t2, Some(Status::ConnectedToServer))
        }
    }

    /// Sending a payload: with a live socket the sequence counter advances
    /// by one and the packet carries the fresh number; without one nothing
    /// changes and the caller gets the precondition error.
    pub open spec fn send_packet(self, data: SbPacket) -> (
        TrackerModel,
        Result<Packet, TrackerError>,
    ) {
        if self.socket_present {
            let seq = (self.state.packet_number + 1) as u64;
            let t2 = TrackerModel {
                state: TrackerState { packet_number: seq, ..self.state },
                ..self
            };
            (t2, Ok(Packet { seq, data }))
        } else {
            (self, Err(TrackerError::NotInitialized))
        }
    }

    /// Dispatch of a decoded inbound payload: a heartbeat is answered with
    /// a heartbeat, a ping is echoed with the same challenge, and every
    /// reply carries a freshly advanced sequence number. Discovery packets,
    /// handshake responses and unrecognized payloads draw no reply and
    /// leave the session untouched.
    pub open spec fn handle_packet(self, packet: CbPacket) -> (TrackerModel, Option<Packet>) {
        match packet {
            CbPacket::Heartbeat => {
                let (t2, r) = self.send_packet(SbPacket::Heartbeat);
                (t2, match r { Ok(p) => Some(p), Err(_) => None })
            },
            CbPacket::Ping { challenge } => {
                let (t2, r) = self.send_packet(SbPacket::Ping { challenge });
                (t2, match r { Ok(p) => Some(p), Err(_) => None })
            },
            _ => (self, None),
        }
    }

    /// Registration of a sensor: the identifier is the registry length at
    /// the time of the call, the sensor is appended whether or not the
    /// announcement can be sent, and the announcement (when the socket is
    /// live) is a `SensorInfo` packet with a fresh sequence number.
    pub open spec fn add_sensor(self, sensor_type: ImuType, sensor_status: SensorStatus) -> (
        TrackerModel,
        Result<Packet, TrackerError>,
    ) {
        let sensor = Sensor { sensor_id: self.sensors.len() as u8, sensor_type, sensor_status };
        let t1 = TrackerModel { sensors: self.sensors.push(sensor), ..self };
        t1.send_packet(
            SbPacket::SensorInfo { sensor_id: sensor.sensor_id, sensor_type, sensor_status },
        )
    }

    /// One beat of the heartbeat emitter: while the session is active it
    /// stamps and emits a heartbeat; once it observes `Initializing` it
    /// stops without touching anything.
    pub open spec fn heartbeat_tick(self) -> (TrackerModel, Option<Packet>) {
        if self.state.status == Status::Initializing {
            (self, None)
        } else {
            let seq = (self.state.packet_number + 1) as u64;
            let t2 = TrackerModel {
                state: TrackerState { packet_number: seq, ..self.state },
                ..self
            };
            (t2, Some(Packet { seq, data: SbPacket::Heartbeat }))
        }
    }

    /// One check of the liveness watchdog: if the server has been silent
    /// for longer than the configured timeout, the session is forced back
    /// to `Initializing`, the socket is released and the change published;
    /// otherwise nothing happens. Forcing an already-uninitialized session
    /// changes and publishes nothing.
    pub open spec fn watchdog_check(self, elapsed_ms: u64) -> (TrackerModel, Option<Status>) {
        if elapsed_ms > self.server_timeout && self.state.status != Status::Initializing {
            let t2 = TrackerModel {
                state: TrackerState { status: Status::Initializing, ..self.state },
                socket_present: false,
                ..self
            };
            (t2, Some(Status::Initializing))
        } else {
            (self, None)
        }
    }
}

impl EmulatedTracker {
    /// Session well-formedness, on the view.
    pub open spec fn wf(&self) -> bool {
        self@.wf()
    }

    /// The handshake announcement for this tracker: sequence number zero
    /// and the full identity.
    pub open spec fn handshake_packet(&self) -> Packet {
        Packet {
            seq: 0,
            data: SbPacket::Handshake {
                board: self.board_type,
                imu: ImuType::Unknown(0),
                mcu: self.mcu_type,
                imu_info: (0u8, 0u8, 0u8),
                build: 13u32,
                firmware: self.firmware_version,
                mac_address: self.mac_address,
            },
        }
    }

    /// Builds a tracker from its identity and configuration. Absent
    /// configuration values take the documented defaults: board and
    /// microcontroller tags `Unknown(0)`, server address
    /// `255.255.255.255:6969`, timeout 5000 ms, debug off. The session
    /// starts uninitialized with the sequence counter at zero and no
    /// sensors registered.
    pub fn new(
        mac_address: [u8; 6],
        firmware_version: String,
        board_type: Option<BoardType>,
        mcu_type: Option<McuType>,
        server_ip: Option<String>,
        server_discovery_port: Option<u16>,
        server_timeout_ms: Option<u64>,
        debug: Option<bool>,
    ) -> (r: Result<EmulatedTracker, TrackerError>)
        ensures
            r matches Ok(t) && {
                &&& t.wf()
                &&& t.mac_address == mac_address
                &&& t.firmware_version@ == firmware_version@
                &&& t.board_type == (match board_type {
                    Some(b) => b,
                    None => BoardType::Unknown(0),
                })
                &&& t.mcu_type == (match mcu_type {
                    Some(m) => m,
                    None => McuType::Unknown(0),
                })
                &&& t.server_ip@ == (match server_ip {
                    Some(ip) => ip@,
                    None => "255.255.255.255"@,
                })
                &&& t.server_port == (match server_discovery_port {
                    Some(p) => p,
                    None => 6969u16,
                })
                &&& t.server_timeout == (match server_timeout_ms {
                    Some(ms) => ms,
                    None => 5000u64,
                })
                &&& t.debug == (match debug {
                    Some(d) => d,
                    None => false,
                })
                &&& t.sensors@ == Seq::<Sensor>::empty()
                &&& t.state == (TrackerState {
                    status: Status::Initializing,
                    packet_number: 0,
                    last_received_packet_time: 0,
                })
                &&& !t.socket_present
            },
    {
        let board_type = match board_type {
            Some(b) => b,
            None => BoardType::Unknown(0),
        };
        let mcu_type = match mcu_type {
            Some(m) => m,
            None => McuType::Unknown(0),
        };
        let server_ip = match server_ip {
            Some(ip) => ip,
            None => String::from_str("255.255.255.255"),
        };
        let server_port = match server_discovery_port {
            Some(p) => p,
            None => 6969,
        };
        let server_timeout = match server_timeout_ms {
            Some(ms) => ms,
            None => 5000,
        };
        let debug = match debug {
            Some(d) => d,
            None => false,
        };

        let state = TrackerState {
            status: Status::Initializing,
            packet_number: 0,
            last_received_packet_time: 0,
        };

        Ok(
            EmulatedTracker {
                mac_address,
                firmware_version,
                board_type,
                mcu_type,
                sensors: Vec::new(),
                server_timeout,
                server_ip,
                server_port,
                debug,
                state,
                socket_present: false,
            },
        )
    }

    /// A snapshot of the session state.
    pub fn get_state(&self) -> (r: TrackerState)
        ensures
            r == self.state,
    {
        self.state
    }

    /// The latest value on the status channel. The runtime publishes every
    /// transition as it happens, so the latest published value is the
    /// current status.
    pub fn subscribe_status(&self) -> (r: Status)
        ensures
            r == self.state.status,
    {
        self.state.status
    }

    /// Begins initialization. `true` means the session was uninitialized
    /// and the runtime must now bind a broadcast-enabled datagram socket to
    /// an ephemeral local port, hand it to the session through
    /// `attach_socket`, spawn the heartbeat emitter and the liveness
    /// watchdog, and run the discovery loop until `discovery_tick` reports
    /// the connection. `false` means the session is already live and the
    /// call is a no-op: no socket is rebound and no handshake is sent.
    pub fn init(&self) -> (r: bool)
        ensures
            r == (self.state.status == Status::Initializing),
    {
        match self.state.status {
            Status::Initializing => true,
            _ => false,
        }
    }

    /// Completes initialization once the runtime has bound the socket: the
    /// session moves from `Initializing` to `Idle` and the returned status
    /// is published.
    pub fn attach_socket(&mut self) -> (published: Status)
        requires
            old(self).wf(),
            old(self).state.status == Status::Initializing,
        ensures
            final(self).wf(),
            ({
                let (m2, p) = old(self)@.attach_socket();
                final(self)@ == m2 && published == p
            }),
    {
        self.state.status = Status::Idle;
        self.socket_present = true;
        Status::Idle
    }

    /// Tears the session down: a no-op while uninitialized, otherwise the
    /// socket is released (the runtime drops its handle), the status
    /// returns to `Initializing`, and the returned status is published.
    /// The sequence counter and the sensor registry survive.
    pub fn deinit(&mut self) -> (published: Option<Status>)
        requires
            old(self).wf(),
        ensures
            final(self).wf(),
            ({
                let (m2, p) = old(self)@.deinit();
                final(self)@ == m2 && published == p
            }),
    {
        if self.state.status == Status::Initializing {
            return None;
        }
        self.socket_present = false;
        self.state.status = Status::Initializing;
        Some(Status::Initializing)
    }

    /// One tick of the discovery loop: while the connection is not yet
    /// confirmed, the handshake announcement (sequence number zero) is
    /// (re)sent; once the session is connected the tick reports `None` and
    /// the discovery loop ends.
    pub fn discovery_tick(&self) -> (r: Option<Packet>)
        requires
            self.wf(),
            self.socket_present,
        ensures
            self.state.status == Status::ConnectedToServer ==> r is None,
            self.state.status != Status::ConnectedToServer ==> r == Some(self.handshake_packet()),
    {
        if self.state.status == Status::ConnectedToServer {
            return None;
        }
        match self.send_handshake() {
            Ok(p) => Some(p),
            Err(_) => None,
        }
    }

    /// Builds the handshake announcement: sequence number zero and the full
    /// identity. Fails when the session holds no socket.
    pub fn send_handshake(&self) -> (r: Result<Packet, TrackerError>)
        ensures
            self.socket_present ==> r == Ok::<Packet, TrackerError>(self.handshake_packet()),
            !self.socket_present ==> r == Err::<Packet, TrackerError>(TrackerError::NotInitialized),
    {
        if !self.socket_present {
            return Err(TrackerError::NotInitialized);
        }
        let data = SbPacket::Handshake {
            board: self.clone_board_type(),
            imu: self.clone_sensor_type(&ImuType::Unknown(0)),
            mcu: self.clone_mcu_type(),
            imu_info: (0, 0, 0),
            build: 13,
            firmware: self.firmware_version.clone(),
            mac_address: self.mac_address,
        };
        Ok(Packet { seq: 0, data })
    }

    /// Records the receipt of a well-formed datagram from the server: the
    /// first one confirms the connection (the returned status is published
    /// exactly once for that transition), and every one refreshes the lossy
    /// receipt timestamp from the low bits of the current time.
    pub fn on_datagram(&mut self, now_ms: u16) -> (published: Option<Status>)
        requires
            old(self).wf(),
            old(self).socket_present,
        ensures
            final(self).wf(),
            ({
                let (m2, p) = old(self)@.on_datagram(now_ms);
                final(self)@ == m2 && published == p
            }),
    {
        let was_connected = self.state.status == Status::ConnectedToServer;
        self.state.status = Status::ConnectedToServer;
        self.state.last_received_packet_time = now_ms;
        if was_connected {
            None
        } else {
            Some(Status::ConnectedToServer)
        }
    }

    /// Dispatches a decoded inbound payload: a heartbeat is answered with a
    /// heartbeat, a ping is echoed with the same challenge and a freshly
    /// advanced sequence number; everything else draws no reply.
    pub fn handle_packet(&mut self, packet: &CbPacket) -> (r: Option<Packet>)
        requires
            old(self).wf(),
            old(self).socket_present,
            (*packet is Heartbeat || *packet is Ping) ==> old(self).state.packet_number
                < u64::MAX,
        ensures
            final(self).wf(),
            ({
                let (m2, p) = old(self)@.handle_packet(*packet);
                final(self)@ == m2 && r == p
            }),
    {
        match packet {
            CbPacket::Heartbeat => match self.send_packet(SbPacket::Heartbeat) {
                Ok(p) => Some(p),
                Err(_) => None,
            },
            CbPacket::Ping { challenge } => match self.send_packet(
                SbPacket::Ping { challenge: *challenge },
            ) {
                Ok(p) => Some(p),
                Err(_) => None,
            },
            _ => None,
        }
    }

    /// Registers a virtual sensor: its identifier is the registry length at
    /// the time of the call, it is appended whether or not the announcement
    /// can be sent, and with a live socket the announcement packet is
    /// returned for the runtime to send.
    pub fn add_sensor(&mut self, sensor_type: ImuType, sensor_status: SensorStatus) -> (r: Result<
        Packet,
        TrackerError,
    >)
        requires
            old(self).wf(),
            old(self).socket_present ==> old(self).state.packet_number < u64::MAX,
        ensures
            final(self).wf(),
            ({
                let (m2, r2) = old(self)@.add_sensor(sensor_type, sensor_status);
                final(self)@ == m2 && r == r2
            }),
    {
        let sensor_id: u8 = self.sensors.len() as u8;
        let sensor = Sensor { sensor_id, sensor_type, sensor_status };
        self.sensors.push(sensor);
        self.send_sensor_info(&sensor)
    }

    /// Announces a registered sensor to the server.
    fn send_sensor_info(&mut self, sensor: &Sensor) -> (r: Result<Packet, TrackerError>)
        requires
            old(self).wf(),
            old(self).socket_present ==> old(self).state.packet_number < u64::MAX,
        ensures
            final(self).wf(),
            ({
                let (m2, r2) = old(self)@.send_packet(
                    SbPacket::SensorInfo {
                        sensor_id: sensor.sensor_id,
                        sensor_type: sensor.sensor_type,
                        sensor_status: sensor.sensor_status,
                    },
                );
                final(self)@ == m2 && r == r2
            }),
    {
        let data = SbPacket::SensorInfo {
            sensor_id: sensor.sensor_id,
            sensor_type: self.clone_sensor_type(&sensor.sensor_type),
            sensor_status: self.clone_sensor_status(&sensor.sensor_status),
        };
        self.send_packet(data)
    }

    /// Packages a rotation sample for the given sensor.
    pub fn send_rotation(
        &mut self,
        sensor_id: u8,
        data_type: SensorDataType,
        rotation_data: SlimeQuaternion,
        accuracy: u8,
    ) -> (r: Result<Packet, TrackerError>)
        requires
            old(self).wf(),
            old(self).socket_present ==> old(self).state.packet_number < u64::MAX,
        ensures
            final(self).wf(),
            ({
                let (m2, r2) = old(self)@.send_packet(
                    SbPacket::RotationData {
                        sensor_id,
                        data_type,
                        quat: rotation_data,
                        calibration_info: accuracy,
                    },
                );
                final(self)@ == m2 && r == r2
            }),
    {
        let data = SbPacket::RotationData {
            sensor_id,
            data_type,
            quat: rotation_data,
            calibration_info: accuracy,
        };
        self.send_packet(data)
    }

    /// Packages an acceleration sample; the vector components are 32-bit
    /// IEEE-754 bit patterns.
    pub fn send_acceleration(&mut self, sensor_id: u8, acceleration: (u32, u32, u32)) -> (r: Result<
        Packet,
        TrackerError,
    >)
        requires
            old(self).wf(),
            old(self).socket_present ==> old(self).state.packet_number < u64::MAX,
        ensures
            final(self).wf(),
            ({
                let (m2, r2) = old(self)@.send_packet(
                    SbPacket::Acceleration { sensor_id, vector: acceleration },
                );
                final(self)@ == m2 && r == r2
            }),
    {
        let data = SbPacket::Acceleration { sensor_id, vector: acceleration };
        self.send_packet(data)
    }

    /// Packages a battery report; both fields are 32-bit IEEE-754 bit
    /// patterns.
    pub fn send_battery_level(&mut self, percentage: u32, voltage: u32) -> (r: Result<
        Packet,
        TrackerError,
    >)
        requires
            old(self).wf(),
            old(self).socket_present ==> old(self).state.packet_number < u64::MAX,
        ensures
            final(self).wf(),
            ({
                let (m2, r2) = old(self)@.send_packet(SbPacket::Battery { percentage, voltage });
                final(self)@ == m2 && r == r2
            }),
    {
        let data = SbPacket::Battery { percentage, voltage };
        self.send_packet(data)
    }

    /// Packages a temperature report; the reading is a 32-bit IEEE-754 bit
    /// pattern.
    pub fn send_temperature(&mut self, sensor_id: u8, temperature: u32) -> (r: Result<
        Packet,
        TrackerError,
    >)
        requires
            old(self).wf(),
            old(self).socket_present ==> old(self).state.packet_number < u64::MAX,
        ensures
            final(self).wf(),
            ({
                let (m2, r2) = old(self)@.send_packet(
                    SbPacket::Temperature { sensor_id, temperature },
                );
                final(self)@ == m2 && r == r2
            }),
    {
        let data = SbPacket::Temperature { sensor_id, temperature };
        self.send_packet(data)
    }

    /// Packages a signal-strength report.
    pub fn send_signal_strength(&mut self, sensor_id: u8, strength: i8) -> (r: Result<
        Packet,
        TrackerError,
    >)
        requires
            old(self).wf(),
            old(self).socket_present ==> old(self).state.packet_number < u64::MAX,
        ensures
            final(self).wf(),
            ({
                let (m2, r2) = old(self)@.send_packet(
                    SbPacket::SignalStrength { sensor_id, strength },
                );
                final(self)@ == m2 && r == r2
            }),
    {
        let data = SbPacket::SignalStrength { sensor_id, strength };
        self.send_packet(data)
    }

    /// Packages a magnetometer-accuracy report; the reading is a 32-bit
    /// IEEE-754 bit pattern.
    pub fn send_magnetometer_accuracy(&mut self, sensor_id: u8, accuracy: u32) -> (r: Result<
        Packet,
        TrackerError,
    >)
        requires
            old(self).wf(),
            old(self).socket_present ==> old(self).state.packet_number < u64::MAX,
        ensures
            final(self).wf(),
            ({
                let (m2, r2) = old(self)@.send_packet(SbPacket::MagAccuracy { sensor_id, accuracy });
                final(self)@ == m2 && r == r2
            }),
    {
        let data = SbPacket::MagAccuracy { sensor_id, accuracy };
        self.send_packet(data)
    }

    /// Packages a user action report.
    pub fn send_user_action(&mut self, action: ActionType) -> (r: Result<Packet, TrackerError>)
        requires
            old(self).wf(),
            old(self).socket_present ==> old(self).state.packet_number < u64::MAX,
        ensures
            final(self).wf(),
            ({
                let (m2, r2) = old(self)@.send_packet(SbPacket::UserAction { action });
                final(self)@ == m2 && r == r2
            }),
    {
        let data = SbPacket::UserAction { action };
        self.send_packet(data)
    }

    /// One beat of the heartbeat emitter: while the session is active it
    /// stamps and returns a heartbeat packet for the runtime to send; once
    /// the published status reads `Initializing` it returns `None` and the
    /// emitter task terminates.
    pub fn heartbeat_tick(&mut self) -> (r: Option<Packet>)
        requires
            old(self).wf(),
            old(self).socket_present ==> old(self).state.packet_number < u64::MAX,
        ensures
            final(self).wf(),
            ({
                let (m2, p) = old(self)@.heartbeat_tick();
                final(self)@ == m2 && r == p
            }),
    {
        if self.state.status == Status::Initializing {
            return None;
        }
        let seq = self.get_packet_number();
        Some(Packet { seq, data: SbPacket::Heartbeat })
    }

    /// One check of the liveness watchdog, given the milliseconds elapsed
    /// since the last observed server heartbeat: past the configured
    /// timeout the session is forced back to `Initializing`, the socket is
    /// released and the returned status is published.
    pub fn watchdog_check(&mut self, elapsed_ms: u64) -> (published: Option<Status>)
        requires
            old(self).wf(),
        ensures
            final(self).wf(),
            ({
                let (m2, p) = old(self)@.watchdog_check(elapsed_ms);
                final(self)@ == m2 && published == p
            }),
    {
        if elapsed_ms > self.server_timeout && !(self.state.status == Status::Initializing) {
            self.state.status = Status::Initializing;
            self.socket_present = false;
            Some(Status::Initializing)
        } else {
            None
        }
    }

    /// Sends an arbitrary payload: with a live socket the sequence counter
    /// advances by one and the stamped packet is returned for the runtime
    /// to encode and send; without one nothing changes and the caller gets
    /// the precondition error.
    pub fn send_packet(&mut self, data: SbPacket) -> (r: Result<Packet, TrackerError>)
        requires
            old(self).wf(),
            old(self).socket_present ==> old(self).state.packet_number < u64::MAX,
        ensures
            final(self).wf(),
            ({
                let (m2, r2) = old(self)@.send_packet(data);
                final(self)@ == m2 && r == r2
            }),
    {
        if !self.socket_present {
            return Err(TrackerError::NotInitialized);
        }
        let seq = self.get_packet_number();
        Ok(Packet { seq, data })
    }

    /// Atomically advances the sequence counter and returns its new value.
    fn get_packet_number(&mut self) -> (r: u64)
        requires
            old(self).state.packet_number < u64::MAX,
        ensures
            r == old(self).state.packet_number + 1,
            final(self)@ == (TrackerModel {
                state: TrackerState { packet_number: r, ..old(self).state },
                ..old(self)@
            }),
    {
        self.state.packet_number = self.state.packet_number + 1;
        self.state.packet_number
    }

    /// A copy of the configured board tag.
    fn clone_board_type(&self) -> (r: BoardType)
        ensures
            r == self.board_type,
    {
        match &self.board_type {
            BoardType::SlimeVRLegacy => BoardType::SlimeVRLegacy,
            BoardType::SlimeVRDev => BoardType::SlimeVRDev,
            BoardType::NodeMCU => BoardType::NodeMCU,
            BoardType::Custom => BoardType::Custom,
            BoardType::WRoom32 => BoardType::WRoom32,
            BoardType::WemosD1Mini => BoardType::WemosD1Mini,
            BoardType::TTGOTBase => BoardType::TTGOTBase,
            BoardType::ESP01 => BoardType::ESP01,
            BoardType::SlimeVR => BoardType::SlimeVR,
            BoardType::LolinC3Mini => BoardType::LolinC3Mini,
            BoardType::Beetle32C3 => BoardType::Beetle32C3,
            BoardType::ESP32C3DevKitM1 => BoardType::ESP32C3DevKitM1,
            BoardType::OwoTrack => BoardType::OwoTrack,
            BoardType::Wrangler => BoardType::Wrangler,
            BoardType::Mocopi => BoardType::Mocopi,
            BoardType::WemosWroom02 => BoardType::WemosWroom02,
            BoardType::XiaoEsp32C3 => BoardType::XiaoEsp32C3,
            BoardType::Haritora => BoardType::Haritora,
            BoardType::ESP32C6DevKitC1 => BoardType::ESP32C6DevKitC1,
            BoardType::GloveImuSlimeVRDev => BoardType::GloveImuSlimeVRDev,
            BoardType::Gestures => BoardType::Gestures,
            BoardType::DevReserved => BoardType::DevReserved,
            BoardType::Unknown(val) => BoardType::Unknown(*val),
        }
    }

    /// A copy of the configured microcontroller tag.
    fn clone_mcu_type(&self) -> (r: McuType)
        ensures
            r == self.mcu_type,
    {
        match &self.mcu_type {
            McuType::Esp8266 => McuType::Esp8266,
            McuType::Esp32 => McuType::Esp32,
            McuType::OwoTrackAndroid => McuType::OwoTrackAndroid,
            McuType::Wrangler => McuType::Wrangler,
            McuType::OwoTrackIos => McuType::OwoTrackIos,
            McuType::Esp32C3 => McuType::Esp32C3,
            McuType::Mocopi => McuType::Mocopi,
            McuType::Haritora => McuType::Haritora,
            McuType::DevReserved => McuType::DevReserved,
            McuType::Unknown(val) => McuType::Unknown(*val),
        }
    }

    /// A copy of a sensor model tag.
    fn clone_sensor_type(&self, imu_type: &ImuType) -> (r: ImuType)
        ensures
            r == *imu_type,
    {
        match imu_type {
            ImuType::Mpu9250 => ImuType::Mpu9250,
            ImuType::Mpu6500 => ImuType::Mpu6500,
            ImuType::Bno080 => ImuType::Bno080,
            ImuType::Bno085 => ImuType::Bno085,
            ImuType::Bno055 => ImuType::Bno055,
            ImuType::Mpu6050 => ImuType::Mpu6050,
            ImuType::Bno086 => ImuType::Bno086,
            ImuType::Bmi160 => ImuType::Bmi160,
            ImuType::Icm20948 => ImuType::Icm20948,
            ImuType::Icm42688 => ImuType::Icm42688,
            ImuType::Bmi270 => ImuType::Bmi270,
            ImuType::Lsm6ds3trc => ImuType::Lsm6ds3trc,
            ImuType::Lsm6dsv => ImuType::Lsm6dsv,
            ImuType::Lsm6dso => ImuType::Lsm6dso,
            ImuType::Lsm6dsr => ImuType::Lsm6dsr,
            ImuType::Icm45686 => ImuType::Icm45686,
            ImuType::Icm45605 => ImuType::Icm45605,
            ImuType::AdcResistance => ImuType::AdcResistance,
            ImuType::DevReserved => ImuType::DevReserved,
            ImuType::Unknown(val) => ImuType::Unknown(*val),
        }
    }

    /// A copy of a sensor status tag.
    fn clone_sensor_status(&self, status: &SensorStatus) -> (r: SensorStatus)
        ensures
            r == *status,
    {
        match status {
            SensorStatus::Okay => SensorStatus::Okay,
            SensorStatus::Offline => SensorStatus::Offline,
        }
    }
}

} // verus!
