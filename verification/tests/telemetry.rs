//! The state store on concrete reports.

use subsystem_driver::status::{PosVelType, RefTimeStatus, SolutionStatus};
use subsystem_driver::telemetry::{
    Component, LockInfo, LockStatus, OEMTime, ReceiverStatus, StateStore, SystemStatus,
    TelemetryFrame, VersionComponent, VersionInfo, ALL_FLAGS, SOLUTION_COMPUTED,
};

fn bits(values: [f64; 3]) -> [u64; 3] {
    [values[0].to_bits(), values[1].to_bits(), values[2].to_bits()]
}

fn status(time: OEMTime, position_status: u32, velocity_status: u32) -> LockStatus {
    LockStatus {
        time_status: 180,
        time,
        position_status,
        position_type: 16,
        velocity_status,
        velocity_type: 8,
    }
}

fn nominal(
    week: i32,
    ms: i32,
    position_status: u32,
    position: [f64; 3],
    velocity_status: u32,
    velocity: [f64; 3],
) -> TelemetryFrame {
    let time = OEMTime { week, ms };
    TelemetryFrame::Nominal {
        status: ReceiverStatus(0x0000_0040),
        lock_status: status(time, position_status, velocity_status),
        lock_info: LockInfo { time, position: bits(position), velocity: bits(velocity) },
    }
}

fn version() -> VersionInfo {
    VersionInfo {
        num_components: 1,
        components: vec![VersionComponent(Component {
            comp_type: 1,
            model: "G1SB0GTT0".to_string(),
            serial_num: "BFN10260026".to_string(),
            hw_version: "OEM615-2.00".to_string(),
            sw_version: "OEM060600RN0000".to_string(),
            boot_version: "OEM060201RB0000".to_string(),
            compile_date: "2015/Jan/28".to_string(),
            compile_time: "15:27:29".to_string(),
        })],
    }
}

#[test]
fn lock_status_default_is_unknown_without_observations() {
    let status = LockStatus::default();
    assert_eq!(status.time_status, 20);
    assert_eq!(status.time, OEMTime { week: 0, ms: 0 });
    assert_eq!(status.position_status, 1);
    assert_eq!(status.position_type, 0);
    assert_eq!(status.velocity_status, 1);
    assert_eq!(status.velocity_type, 0);
    assert_eq!(status.decoded_time_status(), RefTimeStatus::Unknown);
    assert_eq!(status.decoded_position_status(), SolutionStatus::InsufficientObservations);
    assert_eq!(status.decoded_position_type(), PosVelType::NoSolution);
    assert_eq!(status.decoded_velocity_status(), SolutionStatus::InsufficientObservations);
    assert_eq!(status.decoded_velocity_type(), PosVelType::NoSolution);
}

#[test]
fn lock_status_decodes_unknown_codes_as_invalid() {
    let status = LockStatus {
        time_status: 21,
        time: OEMTime { week: 1, ms: 2 },
        position_status: 10,
        position_type: 3,
        velocity_status: 0xFFFF_FFFF,
        velocity_type: 79,
    };
    assert_eq!(status.decoded_time_status(), RefTimeStatus::KubosInvalid);
    assert_eq!(status.decoded_position_status(), SolutionStatus::KubosInvalid);
    assert_eq!(status.decoded_position_type(), PosVelType::KubosInvalid);
    assert_eq!(status.decoded_velocity_status(), SolutionStatus::KubosInvalid);
    assert_eq!(status.decoded_velocity_type(), PosVelType::KubosInvalid);
}

#[test]
fn defaults_are_zero() {
    assert_eq!(OEMTime::default(), OEMTime { week: 0, ms: 0 });
    let info = LockInfo::default();
    assert_eq!(info.time, OEMTime { week: 0, ms: 0 });
    assert_eq!(info.position, bits([0.0, 0.0, 0.0]));
    assert_eq!(info.velocity, bits([0.0, 0.0, 0.0]));
    assert_eq!(SOLUTION_COMPUTED, 0);
}

#[test]
fn new_store_has_no_status_and_no_fix() {
    let store = StateStore::new();
    assert_eq!(store.system_status.status, ReceiverStatus(ALL_FLAGS));
    assert!(store.system_status.status.all_set());
    assert_eq!(store.system_status.errors, vec!["no status received".to_string()]);
    assert!(!store.system_status.is_fresh());
    assert_eq!(store.lock_status, LockStatus::default());
    assert_eq!(store.lock_info, LockInfo::default());
    assert_eq!(store.version, None);
}

#[test]
fn lock_info_survives_loss_of_lock() {
    let p = [-2_689_330.3, -4_265_140.1, 3_896_324.7];
    let v = [0.25, -7.5, 1.125];
    let mut store = StateStore::new();
    store.publish(nominal(2000, 1000, 0, p, 0, v));
    assert_eq!(store.lock_info.position, bits(p));
    assert_eq!(store.lock_info.velocity, bits(v));
    assert_eq!(store.lock_info.time, OEMTime { week: 2000, ms: 1000 });

    // InsufficientObservations for both parts
    store.publish(nominal(2000, 2000, 1, [0.0, 0.0, 0.0], 1, [0.0, 0.0, 0.0]));
    assert_eq!(store.lock_info.position, bits(p));
    assert_eq!(store.lock_info.velocity, bits(v));
    assert_eq!(store.lock_info.time, OEMTime { week: 2000, ms: 1000 });
    // the snapshot follows the latest report all the same
    assert_eq!(store.lock_status.position_status, 1);
    assert_eq!(store.lock_status.time, OEMTime { week: 2000, ms: 2000 });
    assert_eq!(
        store.lock_status.decoded_position_status(),
        SolutionStatus::InsufficientObservations
    );
}

#[test]
fn lock_info_takes_each_part_on_its_own_status() {
    let p1 = [1.0, 2.0, 3.0];
    let v1 = [4.0, 5.0, 6.0];
    let p2 = [7.0, 8.0, 9.0];
    let v2 = [10.0, 11.0, 12.0];
    let mut store = StateStore::new();
    store.publish(nominal(1, 10, 0, p1, 0, v1));
    // position computed, velocity pending
    store.publish(nominal(1, 20, 0, p2, 18, v2));
    assert_eq!(store.lock_info.position, bits(p2));
    assert_eq!(store.lock_info.velocity, bits(v1));
    assert_eq!(store.lock_info.time, OEMTime { week: 1, ms: 20 });
    // velocity computed, position unknown code
    store.publish(nominal(1, 30, 99, p1, 0, v2));
    assert_eq!(store.lock_info.position, bits(p2));
    assert_eq!(store.lock_info.velocity, bits(v2));
    assert_eq!(store.lock_info.time, OEMTime { week: 1, ms: 30 });
}

#[test]
fn merge_follows_the_same_rule() {
    let mut info = LockInfo::default();
    let time = OEMTime { week: 5, ms: 6 };
    let reported = LockInfo { time, position: [1, 2, 3], velocity: [4, 5, 6] };
    info.merge(&status(time, 1, 1), &reported);
    assert_eq!(info, LockInfo::default());
    info.merge(&status(time, 0, 1), &reported);
    assert_eq!(info, LockInfo { time, position: [1, 2, 3], velocity: [0, 0, 0] });
    info.merge(&status(OEMTime { week: 9, ms: 9 }, 1, 0), &LockInfo {
        time: OEMTime { week: 9, ms: 9 },
        position: [7, 7, 7],
        velocity: [8, 8, 8],
    });
    assert_eq!(
        info,
        LockInfo { time: OEMTime { week: 9, ms: 9 }, position: [1, 2, 3], velocity: [8, 8, 8] }
    );
}

#[test]
fn nominal_report_replaces_status_and_keeps_version() {
    let mut store = StateStore::new();
    store.publish(TelemetryFrame::Debug { version: version() });
    store.publish(nominal(3, 4, 0, [1.0, 1.0, 1.0], 0, [2.0, 2.0, 2.0]));
    assert_eq!(store.system_status, SystemStatus { status: ReceiverStatus(0x40), errors: vec![] });
    assert!(store.system_status.is_fresh());
    assert_eq!(store.lock_status, status(OEMTime { week: 3, ms: 4 }, 0, 0));
    assert_eq!(store.version, Some(version()));
}

#[test]
fn debug_report_replaces_version_only() {
    let mut store = StateStore::new();
    store.publish(nominal(3, 4, 0, [1.0, 1.0, 1.0], 0, [2.0, 2.0, 2.0]));
    let before = store.clone();
    store.publish(TelemetryFrame::Debug { version: version() });
    assert_eq!(store.version, Some(version()));
    assert_eq!(store.system_status, before.system_status);
    assert_eq!(store.lock_status, before.lock_status);
    assert_eq!(store.lock_info, before.lock_info);
    let mut other = version();
    other.num_components = 0;
    other.components.clear();
    store.publish(TelemetryFrame::Debug { version: other.clone() });
    assert_eq!(store.version, Some(other));
}

#[test]
fn status_unavailable_shows_all_flags_with_the_reason() {
    let mut store = StateStore::new();
    store.publish(nominal(3, 4, 0, [1.0, 1.0, 1.0], 0, [2.0, 2.0, 2.0]));
    let before = store.clone();
    store.status_unavailable("no response".to_string());
    assert_eq!(store.system_status.status, ReceiverStatus(0xFFFF_FFFF));
    assert_eq!(store.system_status.errors, vec!["no response".to_string()]);
    assert!(!store.system_status.is_fresh());
    assert_eq!(store.lock_status, before.lock_status);
    assert_eq!(store.lock_info, before.lock_info);
    assert_eq!(store.version, before.version);
    // a hardware state with every flag set differs by its empty error list
    store.publish(TelemetryFrame::Nominal {
        status: ReceiverStatus(ALL_FLAGS),
        lock_status: LockStatus::default(),
        lock_info: LockInfo::default(),
    });
    assert!(store.system_status.status.all_set());
    assert!(store.system_status.is_fresh());
}

#[test]
fn system_status_builders() {
    assert_eq!(ReceiverStatus::indeterminate(), ReceiverStatus(u32::MAX));
    assert!(!ReceiverStatus(0x7FFF_FFFF).all_set());
    assert_eq!(
        SystemStatus::reported(ReceiverStatus(5)),
        SystemStatus { status: ReceiverStatus(5), errors: vec![] }
    );
    assert_eq!(
        SystemStatus::unavailable("x".to_string()),
        SystemStatus { status: ReceiverStatus(u32::MAX), errors: vec!["x".to_string()] }
    );
}

#[test]
fn into_telemetry_hands_everything_out() {
    let mut store = StateStore::new();
    store.publish(nominal(3, 4, 0, [1.0, 1.0, 1.0], 1, [2.0, 2.0, 2.0]));
    store.publish(TelemetryFrame::Debug { version: version() });
    let copy = store.clone();
    let telemetry = store.into_telemetry();
    assert_eq!(telemetry.nominal.system_status, copy.system_status);
    assert_eq!(telemetry.nominal.lock_status, Some(copy.lock_status));
    assert_eq!(telemetry.nominal.lock_info, Some(copy.lock_info));
    assert_eq!(telemetry.debug, Some(version()));
}
