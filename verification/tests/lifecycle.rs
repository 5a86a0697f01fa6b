use tracker_emulation::ActionType;
use tracker_emulation::EmulatedTracker;
use tracker_emulation::ImuType;
use tracker_emulation::SensorDataType;
use tracker_emulation::SensorStatus;
use tracker_emulation::SlimeQuaternion;
use tracker_emulation::Status;

// The whole session lifecycle in one run: construct, bring the session up,
// register sensors, stream telemetry, report user actions, tear the session
// down, bring it back up and continue. This drives the model exactly as a
// runtime would between its socket and timer events.
#[test]
fn test_all() {
    let mac_address = [0xDE, 0xAD, 0xBE, 0xEF, 0x01, 0x02];
    let firmware_version = "tracker_emulation-rs test".to_string();

    let mut tracker = EmulatedTracker::new(
        mac_address,
        firmware_version,
        None,
        None,
        None,
        None,
        None,
        None,
    )
    .expect("Failed to create EmulatedTracker");

    assert!(tracker.init());
    tracker.attach_socket();
    // The server answers the first handshake.
    let handshake = tracker.discovery_tick().expect("still discovering");
    assert_eq!(handshake.seq, 0);
    tracker.on_datagram(1);
    assert_eq!(tracker.get_state().status, Status::ConnectedToServer);
    assert_eq!(tracker.discovery_tick(), None);

    // Add 5 sensors.
    for i in 0..5u8 {
        let announce = tracker
            .add_sensor(ImuType::Mpu6050, SensorStatus::Okay)
            .unwrap_or_else(|_| panic!("Failed to add sensor {}", i));
        assert_eq!(announce.seq, u64::from(i) + 1);
    }

    // Stream rotation and acceleration to each sensor.
    let mut expected_seq = tracker.get_state().packet_number;
    for _ in 0..50 {
        for sensor_id in 0..5u8 {
            let quat = SlimeQuaternion {
                i: 0x3E99999A,
                j: 0x3F000000,
                k: 0x3F19999A,
                w: 0x3F800000,
            };
            let p = tracker
                .send_rotation(sensor_id, SensorDataType::Normal, quat, 42)
                .expect("Failed to send rotation data");
            expected_seq += 1;
            assert_eq!(p.seq, expected_seq);

            let accel = (0x3DCCCCCD, 0x3E4CCCCD, 0x3E99999A);
            let p = tracker
                .send_acceleration(sensor_id, accel)
                .expect("Failed to send acceleration data");
            expected_seq += 1;
            assert_eq!(p.seq, expected_seq);
        }
    }

    // Report every user action.
    for action in [
        ActionType::Reset,
        ActionType::ResetMounting,
        ActionType::ResetYaw,
        ActionType::PauseTracking,
    ] {
        let p = tracker
            .send_user_action(action)
            .unwrap_or_else(|_| panic!("Failed to send user action: {:?}", action));
        expected_seq += 1;
        assert_eq!(p.seq, expected_seq);
    }

    // Deinit and reinit; counters and registry survive.
    assert_eq!(tracker.deinit(), Some(Status::Initializing));
    assert_eq!(tracker.get_state().packet_number, expected_seq);
    assert!(tracker.init());
    tracker.attach_socket();
    tracker.on_datagram(2);

    // Add another sensor after reinit: the identifier continues.
    let announce = tracker
        .add_sensor(ImuType::Bno080, SensorStatus::Okay)
        .expect("Failed to add sensor after reinit");
    expected_seq += 1;
    assert_eq!(announce.seq, expected_seq);
    assert_eq!(tracker.sensors.len(), 6);
    assert_eq!(tracker.sensors[5].sensor_id, 5);

    // Stream again to each sensor.
    for _ in 0..50 {
        for sensor_id in 0..5u8 {
            let quat = SlimeQuaternion {
                i: 0x3F000000,
                j: 0x3E99999A,
                k: 0x3F800000,
                w: 0x3F19999A,
            };
            tracker
                .send_rotation(sensor_id, SensorDataType::Normal, quat, 42)
                .expect("Failed to send rotation data");
            tracker
                .send_acceleration(sensor_id, (0, 0, 0))
                .expect("Failed to send acceleration data");
            expected_seq += 2;
        }
    }
    assert_eq!(tracker.get_state().packet_number, expected_seq);

    assert_eq!(tracker.deinit(), Some(Status::Initializing));
    assert_eq!(tracker.get_state().status, Status::Initializing);
}
