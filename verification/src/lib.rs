//! Model of a motion-tracker network client: the session state machine that
//! governs discovery, handshake, connection and disconnection, the packet
//! vocabulary it exchanges with an aggregation server, and the bookkeeping
//! (outbound sequence counter, sensor registry) shared by its concurrent
//! actors. Transport and the wire codec are collaborators outside this
//! library: every function here is a pure decision step from state and event
//! to next state and outbound packets, which a runtime drives from its own
//! socket and timer loops.

pub mod protocol;
pub mod tracker;
pub mod laws;

pub use protocol::ActionType;
pub use protocol::BoardType;
pub use protocol::CbPacket;
pub use protocol::FirmwareFeatureFlags;
pub use protocol::ImuType;
pub use protocol::McuType;
pub use protocol::Packet;
pub use protocol::SbPacket;
pub use protocol::SensorDataType;
pub use protocol::SensorStatus;
pub use protocol::SlimeQuaternion;
pub use protocol::Status;
pub use tracker::EmulatedTracker;
pub use tracker::Sensor;
pub use tracker::TrackerError;
pub use tracker::TrackerState;
