use motorbridge_ros2::clock::{epoch_millis, now_millis};
use motorbridge_ros2::config::{ControlProfile, GlobalSafety, Manifest, RosBridgeOptions};
use motorbridge_ros2::ros2_adapter::{
    app_name, bridge_timing, build_qos, find_profile, is_due, joint_topics, json_command_token,
    next_counter_value, publish_bridge_status, publish_motor_state, publish_periodic_diagnostics,
    route_token, string_type_name, typed_command_token, Reliability, TokenRoute,
};
use motorbridge_ros2::ros2_adapter::{
    estop_reason, Durability, EstopSource, History, LeaseDuration, Liveliness,
};
use motorbridge_ros2::types::EStopMessage;
use motorbridge_ros2::runtime::JointRuntime;
use motorbridge_ros2::types::IeeeSingle;

fn named_profile(name: &str) -> ControlProfile {
    ControlProfile {
        profile_name: name.to_string(),
        mode: "m".to_string(),
        kp: Some(IeeeSingle { bits: 0.05f32.to_bits() }),
        kd: None,
        max_torque: None,
        max_velocity: None,
        max_acceleration: None,
        interpolation: None,
        on_loss_of_comm: None,
    }
}

fn bare_manifest() -> Manifest {
    Manifest {
        target_name: "arm".to_string(),
        version: "2".to_string(),
        control_profiles: vec![named_profile("slow"), named_profile("fast"), named_profile("fast")],
        joints: Vec::new(),
        global_safety: GlobalSafety {
            heartbeat_timeout_ms: 0,
            emergency_stop_topic: "/e".to_string(),
            emergency_stop_json_topic: "/ej".to_string(),
            watchdog_strategy: "hold".to_string(),
        },
        ros_bridge_options: RosBridgeOptions {
            namespace: "".to_string(),
            qos_profile: "Reliable".to_string(),
            status_topic: "s".to_string(),
            enable_easter_counter: true,
            state_publish_period_ms: 0,
            feedback_warn_ms: 50,
        },
    }
}

#[test]
fn tokens_route_to_their_readers() {
    assert_eq!(route_token(1, 3), TokenRoute::Estop);
    assert_eq!(route_token(2, 3), TokenRoute::EstopJson);
    assert_eq!(route_token(typed_command_token(2), 3), TokenRoute::TypedCommand(2));
    assert_eq!(route_token(json_command_token(0), 3), TokenRoute::JsonCommand(0));
    assert_eq!(route_token(13, 3), TokenRoute::Ignored);
    assert_eq!(route_token(1003, 3), TokenRoute::Ignored);
    assert_eq!(route_token(0, 3), TokenRoute::Ignored);
    // with more than 990 joints the typed range covers the first JSON tokens
    assert_eq!(route_token(1000, 991), TokenRoute::TypedCommand(990));
}

#[test]
fn counter_cycles_through_sixty() {
    let mut v = 1u32;
    let mut seen = Vec::new();
    for _ in 0..61 {
        seen.push(v);
        v = next_counter_value(v);
    }
    assert_eq!(v, 1);
    assert_eq!(seen[59], 60);
    assert_eq!(seen[60], 0);
    assert_eq!(next_counter_value(60), 0);
    assert_eq!(next_counter_value(0), 1);
    assert_eq!(next_counter_value(7), 8);
}

#[test]
fn periods_and_due_checks() {
    let m = bare_manifest();
    let t = bridge_timing(&m);
    assert_eq!(t.heartbeat_timeout_ms, 1);
    assert_eq!(t.state_period_ms, 1);
    assert_eq!(t.feedback_warn_ms, 100);
    assert!(is_due(1_000_000_000, 1000));
    assert!(!is_due(999_999_999, 1000));
    let d = publish_periodic_diagnostics(&m, 1_000_000_000, 10);
    assert!(d.publish_counter);
    assert!(!d.publish_status);
    let r = publish_motor_state(true, true, 2_000_000_000, 1_000_000, 0, &t);
    assert!(r.log_state && r.publish_state && !r.warn_no_feedback);
    let r = publish_motor_state(true, false, 2_000_000_000, 1_000_000, 100_000_000, &t);
    assert!(!r.log_state && !r.publish_state && r.warn_no_feedback);
    let r = publish_motor_state(true, false, 0, 0, 99_999_999, &t);
    assert!(!r.warn_no_feedback);
    let r = publish_motor_state(false, false, 2_000_000_000, 2_000_000_000, 2_000_000_000, &t);
    assert!(!r.log_state && !r.publish_state && !r.warn_no_feedback);
    let r = publish_motor_state(false, true, 2_000_000_000, 2_000_000_000, 2_000_000_000, &t);
    assert!(!r.log_state && !r.publish_state && !r.warn_no_feedback);
}

#[test]
fn qos_topics_and_profiles() {
    let mut m = bare_manifest();
    let q = build_qos(&m);
    assert_eq!(q.reliability, Reliability::Reliable { max_blocking_time_ms: 50 });
    assert_eq!(q.durability, Durability::Volatile);
    assert_eq!(q.liveliness, Liveliness::Automatic { lease_duration: LeaseDuration::Infinite });
    assert_eq!(q.history, History::KeepLast { depth: 10 });
    m.ros_bridge_options.qos_profile = "ReLiAbLe".to_string();
    assert_eq!(build_qos(&m).reliability, Reliability::Reliable { max_blocking_time_ms: 50 });
    m.ros_bridge_options.qos_profile = "best_effort".to_string();
    let q = build_qos(&m);
    assert_eq!(q.reliability, Reliability::BestEffort);
    assert_eq!(q.history, History::KeepLast { depth: 10 });
    assert_eq!(q.durability, Durability::Volatile);
    let t = joint_topics("base_yaw");
    assert_eq!(t.cmd, "base_yaw/cmd");
    assert_eq!(t.state, "base_yaw/state");
    assert_eq!(t.cmd_json, "base_yaw/cmd_json");
    assert_eq!(t.state_json, "base_yaw/state_json");
    assert_eq!(t.event_json, "base_yaw/event_json");
    assert_eq!(t.cmd_type, "motorbridge_msgs::msg::dds_::base_yaw_Cmd_");
    assert_eq!(t.state_type, "motorbridge_msgs::msg::dds_::base_yaw_State_");
    assert_eq!(string_type_name(), "std_msgs::msg::dds_::String_");
    assert_eq!(find_profile(&m, "fast"), Some(1));
    assert_eq!(find_profile(&m, "slow"), Some(0));
    assert_eq!(find_profile(&m, "none"), None);
}

#[test]
fn bridge_status_report() {
    let mut m = bare_manifest();
    let j = motorbridge_ros2::config::JointConfig {
        joint_name: "a".to_string(),
        vendor: None,
        transport: None,
        bus_interface: "can0".to_string(),
        serial_baud: None,
        motor_id: 1,
        feedback_id: None,
        interface_type: None,
        direction: None,
        pos_offset: None,
        pos_limit: None,
        default_profile: "slow".to_string(),
        model: None,
    };
    m.joints.push(j.clone());
    let rts: Vec<JointRuntime<u8>> = vec![JointRuntime::new(j, named_profile("slow"))];
    let s = publish_bridge_status(&m, &rts, 2, "0.1.0", &vec![15], 99);
    assert_eq!(s.app, "motorbridge_ros2");
    assert_eq!(app_name(), "motorbridge_ros2");
    assert_eq!(s.version, "0.1.0");
    assert_eq!(s.target_name, "arm");
    assert_eq!(s.manifest_version, "2");
    assert_eq!(s.controller_count, 2);
    assert_eq!(s.joints.len(), 1);
    assert_eq!(s.joints[0].last_cmd_age_ms, 15);
    assert_eq!(s.ts_millis, 99);
}

#[test]
fn time_stamps() {
    assert_eq!(epoch_millis(None), 0);
    assert_eq!(epoch_millis(Some(1_700_000_000_123)), 1_700_000_000_123);
    assert_eq!(epoch_millis(Some(u128::from(u64::MAX))), -1);
    assert!(now_millis() > 1_600_000_000_000);
}

#[test]
fn ieee_comparisons_follow_floats() {
    let vals = [0.0f32, -0.0, 1.0, -1.0, f32::INFINITY, f32::NEG_INFINITY, f32::NAN, 1e-40, -3.5];
    for a in vals {
        for b in vals {
            let x = IeeeSingle { bits: a.to_bits() };
            let y = IeeeSingle { bits: b.to_bits() };
            assert_eq!(x.lt(y), a < b);
            assert_eq!(x.le(y), a <= b);
        }
        assert_eq!(IeeeSingle { bits: a.to_bits() }.is_nan_exec(), a.is_nan());
    }
}

#[test]
fn estop_messages_engage_only_when_engaged() {
    let on = EStopMessage { engaged: true };
    let off = EStopMessage { engaged: false };
    assert_eq!(estop_reason(&on, EstopSource::Typed), Some("typed estop message"));
    assert_eq!(estop_reason(&on, EstopSource::Json), Some("json estop message"));
    assert_eq!(estop_reason(&off, EstopSource::Typed), None);
    assert_eq!(estop_reason(&off, EstopSource::Json), None);
}
