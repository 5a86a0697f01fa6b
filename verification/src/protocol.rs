//! The packet vocabulary spoken between the emulated tracker and the server,
//! and the session status values published on the status channel.
//!
//! The wire codec that turns these values into bytes and back is an outside
//! collaborator; this module only fixes the typed shape of each packet.
//! Measurement fields that the real device reports as 32-bit IEEE-754
//! numbers are carried here as their raw bit patterns (`u32`): the session
//! logic never interprets them, it only stamps them with a sequence number
//! and hands them on.

use vstd::prelude::*;

verus! {

/// Connection status of a tracker session.
#[derive(Clone, Copy, Debug, PartialEq, Eq, Structural)]
pub enum Status {
    Initializing,
    Idle,
    ConnectedToServer,
}

impl Status {
    /// The display name of the status, as published on the status channel.
    pub fn as_str(&self) -> (r: &'static str)
        ensures
            *self == Status::Initializing ==> r@ == "initializing"@,
            *self == Status::Idle ==> r@ == "idle"@,
            *self == Status::ConnectedToServer ==> r@ == "connected-to-server"@,
    {
        match self {
            Status::Initializing => "initializing",
            Status::Idle => "idle",
            Status::ConnectedToServer => "connected-to-server",
        }
    }
}

/// Board hardware tag announced in the handshake.
#[derive(Clone, Copy, Debug, PartialEq, Eq, Structural)]
pub enum BoardType {
    SlimeVRLegacy,
    SlimeVRDev,
    NodeMCU,
    Custom,
    WRoom32,
    WemosD1Mini,
    TTGOTBase,
    ESP01,
    SlimeVR,
    LolinC3Mini,
    Beetle32C3,
    ESP32C3DevKitM1,
    OwoTrack,
    Wrangler,
    Mocopi,
    WemosWroom02,
    XiaoEsp32C3,
    Haritora,
    ESP32C6DevKitC1,
    GloveImuSlimeVRDev,
    Gestures,
    DevReserved,
    Unknown(u8),
}

/// Microcontroller tag announced in the handshake.
#[derive(Clone, Copy, Debug, PartialEq, Eq, Structural)]
pub enum McuType {
    Esp8266,
    Esp32,
    OwoTrackAndroid,
    Wrangler,
    OwoTrackIos,
    Esp32C3,
    Mocopi,
    Haritora,
    DevReserved,
    Unknown(u8),
}

/// Inertial-measurement-unit model tag of a registered sensor.
#[derive(Clone, Copy, Debug, PartialEq, Eq, Structural)]
pub enum ImuType {
    Mpu9250,
    Mpu6500,
    Bno080,
    Bno085,
    Bno055,
    Mpu6050,
    Bno086,
    Bmi160,
    Icm20948,
    Icm42688,
    Bmi270,
    Lsm6ds3trc,
    Lsm6dsv,
    Lsm6dso,
    Lsm6dsr,
    Icm45686,
    Icm45605,
    AdcResistance,
    DevReserved,
    Unknown(u8),
}

/// Health of a registered sensor as announced to the server.
#[derive(Clone, Copy, Debug, PartialEq, Eq, Structural)]
pub enum SensorStatus {
    Okay,
    Offline,
}

/// Which kind of rotation sample a `RotationData` packet carries.
#[derive(Clone, Copy, Debug, PartialEq, Eq, Structural)]
pub enum SensorDataType {
    Normal,
    Correction,
}

/// A user-triggered action reported to the server.
#[derive(Clone, Copy, Debug, PartialEq, Eq, Structural)]
pub enum ActionType {
    Reset,
    ResetMounting,
    ResetYaw,
    PauseTracking,
}

/// Firmware capability flags a tracker may advertise.
#[derive(Clone, Copy, Debug, PartialEq, Eq, Structural)]
pub enum FirmwareFeatureFlags {
    LegacySlimevrTracker,
    RotationData,
    PositionData,
    NoFeature,
}

impl FirmwareFeatureFlags {
    /// The numeric code of the flag on the wire.
    pub fn code(&self) -> (r: u16)
        ensures
            *self == FirmwareFeatureFlags::LegacySlimevrTracker ==> r == 0,
            *self == FirmwareFeatureFlags::RotationData ==> r == 1,
            *self == FirmwareFeatureFlags::PositionData ==> r == 2,
            *self == FirmwareFeatureFlags::NoFeature ==> r == 9999,
    {
        match self {
            FirmwareFeatureFlags::LegacySlimevrTracker => 0,
            FirmwareFeatureFlags::RotationData => 1,
            FirmwareFeatureFlags::PositionData => 2,
            FirmwareFeatureFlags::NoFeature => 9999,
        }
    }
}

/// A unit quaternion sample; each component is the raw bit pattern of a
/// 32-bit IEEE-754 number. The session logic carries the bits unchanged.
#[derive(Clone, Copy, Debug, PartialEq, Eq, Structural)]
pub struct SlimeQuaternion {
    pub i: u32,
    pub j: u32,
    pub k: u32,
    pub w: u32,
}

/// A server-bound payload: everything the tracker can say to the server.
/// Fields documented as bit patterns hold 32-bit IEEE-754 numbers verbatim.
#[derive(Debug, PartialEq, Eq)]
pub enum SbPacket {
    Heartbeat,
    /// Identity announcement, sent repeatedly during discovery.
    Handshake {
        board: BoardType,
        imu: ImuType,
        mcu: McuType,
        imu_info: (u8, u8, u8),
        build: u32,
        firmware: String,
        mac_address: [u8; 6],
    },
    /// Announces a newly registered sensor.
    SensorInfo {
        sensor_id: u8,
        sensor_type: ImuType,
        sensor_status: SensorStatus,
    },
    RotationData {
        sensor_id: u8,
        data_type: SensorDataType,
        quat: SlimeQuaternion,
        calibration_info: u8,
    },
    /// `vector` holds three bit patterns.
    Acceleration {
        sensor_id: u8,
        vector: (u32, u32, u32),
    },
    /// Echo of a server challenge; proves liveness.
    Ping {
        challenge: u32,
    },
    /// `percentage` and `voltage` hold bit patterns.
    Battery {
        percentage: u32,
        voltage: u32,
    },
    /// `temperature` holds a bit pattern.
    Temperature {
        sensor_id: u8,
        temperature: u32,
    },
    SignalStrength {
        sensor_id: u8,
        strength: i8,
    },
    /// `accuracy` holds a bit pattern.
    MagAccuracy {
        sensor_id: u8,
        accuracy: u32,
    },
    UserAction {
        action: ActionType,
    },
}

/// A client-bound payload: everything the server can say to the tracker
/// that the session logic reacts to. Anything else decodes to `Unrecognized`.
#[derive(Clone, Copy, Debug, PartialEq, Eq, Structural)]
pub enum CbPacket {
    Heartbeat,
    /// Liveness challenge; the tracker echoes it back.
    Ping { challenge: u32 },
    /// Servers broadcast this to find trackers; a client ignores it.
    Discovery,
    /// The server's answer to a handshake.
    HandshakeResponse { version: u32 },
    /// A well-formed datagram whose payload the tracker does not act on.
    Unrecognized,
}

impl CbPacket {
    /// Whether this payload is a server heartbeat; the liveness watchdog
    /// restarts its silence clock exactly when this holds.
    pub fn is_heartbeat(&self) -> (r: bool)
        ensures
            r == (*self == CbPacket::Heartbeat),
    {
        match self {
            CbPacket::Heartbeat => true,
            _ => false,
        }
    }
}

/// An outbound datagram before encoding: the sequence number stamped on it
/// and the payload it carries.
#[derive(Debug, PartialEq, Eq)]
pub struct Packet {
    pub seq: u64,
    pub data: SbPacket,
}

} // verus!
