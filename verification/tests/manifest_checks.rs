use motorbridge_ros2::config::{
    default_enable_easter_counter, default_estop_json_topic, default_feedback_warn_ms,
    default_state_publish_period_ms, default_status_topic, ControlProfile, GlobalSafety,
    JointConfig, Manifest, RosBridgeOptions,
};
use motorbridge_ros2::manifest_tools::{print_topic_plan, topic_path, validate_manifest, ManifestError};
use motorbridge_ros2::types::IeeeSingle;
use motorbridge_ros2::abi::{add_motor, new_controller};
use motorbridge_ros2::runtime::{effective_transport, joint_vendor_key, JointRuntime};

fn single(x: f32) -> IeeeSingle {
    IeeeSingle { bits: x.to_bits() }
}

fn profile(name: &str) -> ControlProfile {
    ControlProfile {
        profile_name: name.to_string(),
        mode: "mit".to_string(),
        kp: None,
        kd: None,
        max_torque: None,
        max_velocity: None,
        max_acceleration: None,
        interpolation: None,
        on_loss_of_comm: None,
    }
}

fn joint(name: &str) -> JointConfig {
    JointConfig {
        joint_name: name.to_string(),
        vendor: None,
        transport: None,
        bus_interface: "can0".to_string(),
        serial_baud: None,
        motor_id: 6,
        feedback_id: Some(0x16),
        interface_type: None,
        direction: None,
        pos_offset: None,
        pos_limit: None,
        default_profile: "default".to_string(),
        model: None,
    }
}

fn manifest(joints: Vec<JointConfig>) -> Manifest {
    Manifest {
        target_name: "arm".to_string(),
        version: "1".to_string(),
        control_profiles: vec![profile("default")],
        joints,
        global_safety: GlobalSafety {
            heartbeat_timeout_ms: 500,
            emergency_stop_topic: "/sys/estop".to_string(),
            emergency_stop_json_topic: default_estop_json_topic(),
            watchdog_strategy: "disable".to_string(),
        },
        ros_bridge_options: RosBridgeOptions {
            namespace: "/robot/".to_string(),
            qos_profile: "reliable".to_string(),
            status_topic: default_status_topic(),
            enable_easter_counter: default_enable_easter_counter(),
            state_publish_period_ms: default_state_publish_period_ms(),
            feedback_warn_ms: default_feedback_warn_ms(),
        },
    }
}

#[test]
fn defaults_of_optional_options() {
    assert_eq!(default_estop_json_topic(), "/sys/estop_json");
    assert_eq!(default_status_topic(), "bridge_status_json");
    assert!(default_enable_easter_counter());
    assert_eq!(default_state_publish_period_ms(), 20);
    assert_eq!(default_feedback_warn_ms(), 2000);
}

#[test]
fn valid_manifest_is_accepted() {
    let mut j = joint("base_yaw");
    j.vendor = Some("Dami-ao".to_string());
    j.transport = Some("PCAN".to_string().replace("PCAN", "can"));
    j.pos_limit = Some([single(-1.5), single(1.5)]);
    j.direction = Some(-1);
    let mut k = joint("elbow");
    k.pos_limit = Some([single(f32::NAN), single(0.0)]);
    assert!(validate_manifest(&manifest(vec![j, k])).is_ok());
}

#[test]
fn empty_joints_and_profiles_are_refused() {
    assert!(matches!(validate_manifest(&manifest(vec![])), Err(ManifestError::NoJoints)));
    let mut m = manifest(vec![joint("a")]);
    m.control_profiles.clear();
    assert!(matches!(validate_manifest(&m), Err(ManifestError::NoControlProfiles)));
}

#[test]
fn joint_problems_in_order() {
    assert!(matches!(validate_manifest(&manifest(vec![joint(" \t ")])), Err(ManifestError::EmptyJointName)));
    match validate_manifest(&manifest(vec![joint("a"), joint("b"), joint("a")])) {
        Err(ManifestError::DuplicateJointName { joint }) => assert_eq!(joint, "a"),
        other => panic!("unexpected {:?}", other),
    }
    let mut j = joint("a");
    j.default_profile = "fast".to_string();
    match validate_manifest(&manifest(vec![j])) {
        Err(ManifestError::MissingProfile { joint, profile }) => {
            assert_eq!(joint, "a");
            assert_eq!(profile, "fast");
        }
        other => panic!("unexpected {:?}", other),
    }
    let mut j = joint("a");
    j.vendor = Some("Acme".to_string());
    match validate_manifest(&manifest(vec![j])) {
        Err(ManifestError::UnsupportedVendor { joint, vendor }) => {
            assert_eq!(joint, "a");
            assert_eq!(vendor, "Acme");
        }
        other => panic!("unexpected {:?}", other),
    }
    let mut j = joint("a");
    j.transport = Some("Ether-Cat".to_string());
    match validate_manifest(&manifest(vec![j])) {
        Err(ManifestError::UnsupportedTransport { joint, transport }) => {
            assert_eq!(joint, "a");
            assert_eq!(transport, "Ether-Cat");
        }
        other => panic!("unexpected {:?}", other),
    }
    let mut j = joint("a");
    j.pos_limit = Some([single(1.0), single(1.0)]);
    match validate_manifest(&manifest(vec![j])) {
        Err(ManifestError::InvalidPosLimit { joint, min, max }) => {
            assert_eq!(joint, "a");
            assert_eq!(f32::from_bits(min.bits), 1.0);
            assert_eq!(f32::from_bits(max.bits), 1.0);
        }
        other => panic!("unexpected {:?}", other),
    }
    let mut j = joint("a");
    j.pos_limit = Some([single(0.0), single(-0.0)]);
    assert!(matches!(validate_manifest(&manifest(vec![j])), Err(ManifestError::InvalidPosLimit { .. })));
    let mut j = joint("a");
    j.direction = Some(0);
    match validate_manifest(&manifest(vec![j])) {
        Err(ManifestError::InvalidDirection { joint }) => assert_eq!(joint, "a"),
        other => panic!("unexpected {:?}", other),
    }
    // a vendor problem is found before a direction problem of the same joint
    let mut j = joint("a");
    j.vendor = Some("x".to_string());
    j.direction = Some(2);
    assert!(matches!(validate_manifest(&manifest(vec![j])), Err(ManifestError::UnsupportedVendor { .. })));
}

#[test]
fn topic_paths_join_under_namespace() {
    assert_eq!(topic_path("/robot/", "/base/cmd_json"), "/robot/base/cmd_json");
    assert_eq!(topic_path("", "easter_counter"), "/easter_counter");
    assert_eq!(topic_path("///", "x/"), "/x");
    assert_eq!(topic_path("ns", ""), "/ns/");
}

#[test]
fn topic_plan_lines() {
    let mut m = manifest(vec![joint("base_yaw")]);
    m.ros_bridge_options.enable_easter_counter = false;
    let lines = print_topic_plan(&m);
    let expected = vec![
        "ROS2/DDS topic plan for target=arm namespace=/robot/",
        "  publish: /robot/bridge_status_json",
        "  subscribe: /sys/estop",
        "  subscribe: /sys/estop_json",
        "  joint base_yaw",
        "    subscribe: /robot/base_yaw/cmd_json",
        "    publish:   /robot/base_yaw/state_json",
        "    publish:   /robot/base_yaw/event_json",
        "    typed sub: /robot/base_yaw/cmd",
        "    typed pub: /robot/base_yaw/state",
    ];
    assert_eq!(lines, expected);
    m.ros_bridge_options.enable_easter_counter = true;
    let lines = print_topic_plan(&m);
    assert_eq!(lines[2], "  publish: /robot/easter_counter");
    assert_eq!(lines.len(), 11);
}

#[test]
fn outer_slashes_do_not_change_topics() {
    assert_eq!(topic_path("/robot/", "/base/state/"), topic_path("robot", "base/state"));
    assert_eq!(topic_path("robot", "base/state"), "/robot/base/state");
}

#[test]
fn accepted_joints_open_controllers_and_add_motors() {
    let mut a = joint("a");
    a.vendor = Some(" Hex_Fellow ".to_string());
    let mut b = joint("b");
    b.transport = Some("DM-Serial".to_string());
    b.vendor = Some("ROBSTRIDE".to_string());
    let c = joint("c");
    let m = manifest(vec![a, b, c]);
    assert!(validate_manifest(&m).is_ok());
    for j in &m.joints {
        let rt: JointRuntime<()> = JointRuntime::new(j.clone(), m.control_profiles[0].clone());
        assert!(new_controller(&effective_transport(&rt), j.serial_baud).is_ok());
        assert!(add_motor(&joint_vendor_key(j)).is_ok());
    }
}

#[test]
fn manifest_error_texts() {
    let none = "";
    assert_eq!(ManifestError::NoJoints.message(none, none), "manifest must define at least one joint");
    assert_eq!(
        ManifestError::NoControlProfiles.message(none, none),
        "manifest must define at least one control profile"
    );
    assert_eq!(ManifestError::EmptyJointName.message(none, none), "joint_name cannot be empty");
    assert_eq!(
        ManifestError::DuplicateJointName { joint: "j1".to_string() }.message(none, none),
        "duplicate joint_name: j1"
    );
    assert_eq!(
        ManifestError::MissingProfile { joint: "j1".to_string(), profile: "p".to_string() }
            .message(none, none),
        "joint j1 references missing default_profile p"
    );
    assert_eq!(
        ManifestError::UnsupportedVendor { joint: "j1".to_string(), vendor: "acme".to_string() }
            .message(none, none),
        "joint j1 uses unsupported vendor acme"
    );
    assert_eq!(
        ManifestError::UnsupportedTransport { joint: "j1".to_string(), transport: "usb".to_string() }
            .message(none, none),
        "joint j1 uses unsupported transport usb"
    );
    let e = ManifestError::InvalidPosLimit { joint: "j1".to_string(), min: single(1.5), max: single(-1.0) };
    assert_eq!(e.message("1.5", "-1"), "joint j1 has invalid pos_limit [1.5, -1]");
    assert_eq!(
        ManifestError::InvalidDirection { joint: "j1".to_string() }.message(none, none),
        "joint j1 direction must be 1 or -1"
    );
}

#[test]
fn accepted_manifest_stays_accepted_with_fewer_joints_and_more_profiles() {
    let mut a = joint("a");
    a.default_profile = "slow".to_string();
    let b = joint("b");
    let c = joint("c");
    let mut m = manifest(vec![a.clone(), b, c.clone()]);
    m.control_profiles.push(profile("slow"));
    assert!(validate_manifest(&m).is_ok());
    let mut kept = m.clone();
    kept.joints = vec![a, c];
    kept.control_profiles.push(profile("fast"));
    assert!(validate_manifest(&kept).is_ok());
    kept.joints.clear();
    assert!(matches!(validate_manifest(&kept), Err(ManifestError::NoJoints)));
}
