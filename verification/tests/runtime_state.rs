use motorbridge_ros2::config::{ControlProfile, JointConfig};
use motorbridge_ros2::runtime::{
    check_position, command_event, controller_key, effective_model, effective_transport,
    engage_estop, enforce_watchdog, ensure_motor, feedback_id, finish_command, joint_status,
    json_event, json_parse_failed, motor_added_event, no_feedback_event, plan_command,
    status_name, CommandError, CommandKind, CommandReport, CommandSource, JointRuntime,
};
use motorbridge_ros2::runtime::{
    apply_command, command_sent, estop_joint, mode_ensured, motor_added, motor_state_report,
    controller_opened, motor_to_poll, CommandStep, ControllerSet, MotorAction, DEFAULT_KD_BITS, DEFAULT_KP_BITS, DEFAULT_RATIO_BITS,
    DEFAULT_VLIM_BITS, ENSURE_MODE_TIMEOUT_MS,
};
use motorbridge_ros2::types::{IeeeSingle, MotorCommand};

fn bits(x: f32) -> IeeeSingle {
    IeeeSingle { bits: x.to_bits() }
}

fn cfg(name: &str, vendor: Option<&str>, transport: Option<&str>) -> JointConfig {
    JointConfig {
        joint_name: name.to_string(),
        vendor: vendor.map(|s| s.to_string()),
        transport: transport.map(|s| s.to_string()),
        bus_interface: "PCAN_USBBUS1@1000000".to_string(),
        serial_baud: Some(115_200),
        motor_id: 0x06,
        feedback_id: None,
        interface_type: None,
        direction: None,
        pos_offset: None,
        pos_limit: Some([bits(-1.0), bits(2.0)]),
        default_profile: "default".to_string(),
        model: None,
    }
}

fn prof() -> ControlProfile {
    ControlProfile {
        profile_name: "default".to_string(),
        mode: "mit".to_string(),
        kp: None,
        kd: None,
        max_torque: None,
        max_velocity: None,
        max_acceleration: None,
        interpolation: None,
        on_loss_of_comm: None,
    }
}

fn command(op: &str, continuous: Option<bool>) -> MotorCommand {
    MotorCommand {
        op: op.to_string(),
        pos: None,
        vel: None,
        kp: None,
        kd: None,
        tau: None,
        vlim: None,
        ratio: None,
        continuous,
        request_id: Some("r1".to_string()),
    }
}

#[test]
fn status_names() {
    assert_eq!(status_name(0), Some("ok"));
    assert_eq!(status_name(1), None);
    assert_eq!(status_name(255), None);
}

#[test]
fn new_joint_is_idle() {
    let rt: JointRuntime<u32> = JointRuntime::new(cfg("a", None, None), prof());
    assert!(rt.motor.is_none());
    assert!(!rt.enabled);
    assert!(rt.active_cmd.is_none());
    assert_eq!(rt.command_count, 0);
    assert_eq!(rt.error_count, 0);
    assert!(rt.last_error.is_none());
}

#[test]
fn transport_and_model_defaults() {
    let rt: JointRuntime<u32> = JointRuntime::new(cfg("a", None, None), prof());
    assert_eq!(effective_transport(&rt), "socketcan");
    assert_eq!(effective_model(&rt, "damiao"), "4340P");
    let rt: JointRuntime<u32> = JointRuntime::new(cfg("a", Some("Hex-Fellow"), None), prof());
    assert_eq!(effective_transport(&rt), "socketcanfd");
    assert_eq!(effective_model(&rt, "hexfellow"), "hexfellow");
    assert_eq!(effective_model(&rt, "robstride"), "rs-00");
    assert_eq!(effective_model(&rt, "myactuator"), "X8");
    assert_eq!(effective_model(&rt, "hightorque"), "hightorque");
    let rt: JointRuntime<u32> = JointRuntime::new(cfg("a", Some("hexfellow"), Some(" Dm_Serial ")), prof());
    assert_eq!(effective_transport(&rt), "dmserial");
    let mut c = cfg("a", None, None);
    c.model = Some("4310".to_string());
    let rt: JointRuntime<u32> = JointRuntime::new(c, prof());
    assert_eq!(effective_model(&rt, "robstride"), "4310");
}

#[test]
fn motor_plan_for_unconnected_joint() {
    let mut rt: JointRuntime<u32> = JointRuntime::new(cfg("a", Some("RobStride"), None), prof());
    let plan = ensure_motor(&rt).expect("a plan");
    assert_eq!(plan.vendor, "robstride");
    assert_eq!(plan.transport, "socketcan");
    assert_eq!(plan.controller_key, "robstride:socketcan:PCAN_USBBUS1@1000000");
    assert_eq!(plan.endpoint, "PCAN_USBBUS1@1000000");
    assert_eq!(plan.serial_baud, Some(115_200));
    assert_eq!(plan.motor_id, 6);
    assert_eq!(plan.feedback_id, 6);
    assert_eq!(plan.model, "rs-00");
    rt.motor = Some(7);
    assert!(ensure_motor(&rt).is_none());
    assert_eq!(controller_key("d", "t", "b"), "d:t:b");
    let mut c = cfg("a", None, None);
    c.feedback_id = Some(0x16);
    assert_eq!(feedback_id(&c), 0x16);
}

#[test]
fn command_ops_and_modes() {
    let cases = [
        ("enable", CommandKind::Enable, None),
        ("disable", CommandKind::Disable, None),
        ("clear-error", CommandKind::ClearError, None),
        ("set_zero_position", CommandKind::SetZeroPosition, None),
        ("save-parameters", CommandKind::StoreParameters, None),
        ("mit", CommandKind::Mit, Some(1)),
        ("pos-vel", CommandKind::PosVel, Some(2)),
        ("vel", CommandKind::Vel, Some(3)),
        ("force_pos", CommandKind::ForcePos, Some(4)),
    ];
    for (op, kind, mode) in cases {
        let k = plan_command(op).expect("known op");
        assert_eq!(k, kind);
        assert_eq!(k.control_mode(), mode);
    }
    match plan_command("Enable") {
        Err(CommandError::UnsupportedOp { op }) => assert_eq!(op, "Enable"),
        other => panic!("unexpected {:?}", other),
    }
}

#[test]
fn position_limit_checks() {
    let c = cfg("a", None, None);
    assert!(check_position(&c, bits(0.5)).is_ok());
    assert!(check_position(&c, bits(-1.0)).is_ok());
    assert!(check_position(&c, bits(2.0)).is_ok());
    assert!(check_position(&c, bits(f32::NAN)).is_ok());
    match check_position(&c, bits(2.5)) {
        Err(CommandError::PositionOutOfRange { min, max }) => {
            assert_eq!(f32::from_bits(min.bits), -1.0);
            assert_eq!(f32::from_bits(max.bits), 2.0);
        }
        other => panic!("unexpected {:?}", other),
    }
    assert!(check_position(&c, bits(f32::NEG_INFINITY)).is_err());
    let mut free = cfg("b", None, None);
    free.pos_limit = None;
    assert!(check_position(&free, bits(1e9)).is_ok());
}

#[test]
fn enable_disable_and_outcomes() {
    let mut rt: JointRuntime<u32> = JointRuntime::new(cfg("a", None, None), prof());
    rt.command_applied(CommandKind::Enable);
    assert!(rt.enabled);
    match finish_command(&mut rt, command("vel", Some(true)), Ok(()), CommandSource::Json, 5) {
        CommandReport::Command(e) => {
            assert_eq!(e.kind, "command_applied");
            assert_eq!(e.level, "info");
            assert!(e.ok);
            assert_eq!(e.command_count, 1);
            assert_eq!(e.request_id.as_deref(), Some("r1"));
            assert_eq!(e.op, "vel");
        }
        CommandReport::Joint(_) => panic!("expected a command report"),
    }
    assert_eq!(rt.active_cmd.as_ref().map(|c| c.op.as_str()), Some("vel"));
    rt.command_applied(CommandKind::Disable);
    assert!(!rt.enabled);
    assert!(rt.active_cmd.is_none());
    match finish_command(&mut rt, command("mit", None), Ok(()), CommandSource::Typed, 6) {
        CommandReport::Command(e) => assert_eq!(e.command_count, 2),
        CommandReport::Joint(_) => panic!("expected a command report"),
    }
    assert!(rt.active_cmd.is_none());
    match finish_command(&mut rt, command("mit", None), Err("bus down".to_string()), CommandSource::Json, 7) {
        CommandReport::Command(e) => {
            assert_eq!(e.level, "error");
            assert_eq!(e.kind, "command_failed");
            assert!(!e.ok);
            assert_eq!(e.error.as_deref(), Some("bus down"));
            assert_eq!(e.error_count, 1);
        }
        CommandReport::Joint(_) => panic!("expected a command report"),
    }
    match finish_command(&mut rt, command("mit", None), Err("again".to_string()), CommandSource::Typed, 8) {
        CommandReport::Joint(e) => {
            assert_eq!(e.kind, "command_failed");
            assert_eq!(e.message, "again");
        }
        CommandReport::Command(_) => panic!("expected a plain event"),
    }
    assert_eq!(rt.error_count, 2);
    assert_eq!(rt.last_error.as_deref(), Some("again"));
    let e = json_parse_failed(&mut rt, "expected value", 9);
    assert_eq!(e.message, "json parse error: expected value");
    assert_eq!(e.kind, "parse_error");
    assert_eq!(rt.last_error.as_deref(), Some("json parse error: expected value"));
    assert_eq!(rt.error_count, 3);
}

#[test]
fn estop_disables_every_joint() {
    let mut a: JointRuntime<u32> = JointRuntime::new(cfg("a", None, None), prof());
    a.enabled = true;
    a.active_cmd = Some(command("vel", Some(true)));
    let b: JointRuntime<u32> = JointRuntime::new(cfg("b", None, None), prof());
    let mut all = vec![a, b];
    let events = engage_estop(&mut all, "typed estop message", 42);
    assert_eq!(events.len(), 2);
    for (rt, e) in all.iter().zip(events.iter()) {
        assert!(!rt.enabled);
        assert!(rt.active_cmd.is_none());
        assert_eq!(e.level, "warn");
        assert_eq!(e.kind, "estop");
        assert_eq!(e.message, "typed estop message");
        assert_eq!(e.ts_millis, 42);
    }
    assert_eq!(events[1].joint_name, "b");
}

#[test]
fn watchdog_trips_only_when_due_enabled_and_not_hold() {
    let mut rt: JointRuntime<u32> = JointRuntime::new(cfg("a", None, None), prof());
    rt.enabled = true;
    assert!(enforce_watchdog(&mut rt, 500_000_000, 500, "disable", 1).is_none());
    assert!(enforce_watchdog(&mut rt, 600_000_000, 500, "hold", 1).is_none());
    assert!(rt.enabled);
    let e = enforce_watchdog(&mut rt, 500_000_001, 500, "disable", 3).expect("trips");
    assert_eq!(e.message, "heartbeat timeout; motor disabled");
    assert!(!rt.enabled);
    assert!(enforce_watchdog(&mut rt, 900_000_000, 500, "disable", 4).is_none());
}

#[test]
fn events_and_status_entries() {
    let mut rt: JointRuntime<u32> = JointRuntime::new(cfg("a", Some("Robstride"), None), prof());
    let e = json_event(&rt, "info", "x", "y", 11);
    assert_eq!((e.joint_name.as_str(), e.motor_id, e.feedback_id, e.ts_millis), ("a", 6, 6, 11));
    assert_eq!(motor_added_event(&rt, 1).message, "motorbridge ABI motor handle ready");
    assert_eq!(no_feedback_event(&rt, 1).kind, "no_feedback");
    let c = command_event(&rt, "info", "k", &command("vel", None), true, None, 2);
    assert!(c.error.is_none());
    rt.motor = Some(3);
    rt.active_cmd = Some(command("pos_vel", Some(true)));
    rt.last_error = Some("e".to_string());
    let s = joint_status(&rt, 77);
    assert_eq!(s.vendor, "Robstride");
    assert_eq!(s.transport, "socketcan");
    assert!(s.connected);
    assert_eq!(s.active_command.as_deref(), Some("pos_vel"));
    assert_eq!(s.last_error.as_deref(), Some("e"));
    assert_eq!(s.last_cmd_age_ms, 77);
    let plain: JointRuntime<u32> = JointRuntime::new(cfg("b", None, None), prof());
    assert_eq!(joint_status(&plain, 0).vendor, "damiao");
}

fn connected(c: JointConfig, p: ControlProfile) -> JointRuntime<u32> {
    let mut rt: JointRuntime<u32> = JointRuntime::new(c, p);
    rt.motor = Some(7);
    rt
}

fn send_of(step: CommandStep) -> MotorAction {
    match step {
        CommandStep::Send(a) => a,
        _ => panic!("expected a motor call"),
    }
}

#[test]
fn default_gains_and_limits() {
    assert_eq!(f32::from_bits(DEFAULT_KP_BITS), 0.05f32);
    assert_eq!(f32::from_bits(DEFAULT_KD_BITS), 0.005f32);
    assert_eq!(f32::from_bits(DEFAULT_VLIM_BITS), 3.0f32);
    assert_eq!(f32::from_bits(DEFAULT_RATIO_BITS), 0.3f32);
    assert_eq!(ENSURE_MODE_TIMEOUT_MS, 200);
}

#[test]
fn enable_and_disable_change_state_only_when_carried_out() {
    let mut rt = connected(cfg("a", None, None), prof());
    let action = send_of(apply_command(&rt, &ControllerSet::<u32>::new(), &command("enable", None)));
    assert_eq!(action, MotorAction::Enable);
    assert!(matches!(command_sent(&mut rt, action, Err("bus off".to_string())), Err(CommandError::Motor(m)) if m == "bus off"));
    assert!(!rt.enabled);
    assert!(command_sent(&mut rt, action, Ok(())).is_ok());
    assert!(rt.enabled);
    assert_eq!(rt.motor, Some(7));
    rt.active_cmd = Some(command("vel", Some(true)));
    let action = send_of(apply_command(&rt, &ControllerSet::<u32>::new(), &command("disable", None)));
    assert_eq!(action, MotorAction::Disable);
    assert!(command_sent(&mut rt, action, Err("no".to_string())).is_err());
    assert!(rt.enabled);
    assert!(rt.active_cmd.is_some());
    assert!(command_sent(&mut rt, action, Ok(())).is_ok());
    assert!(!rt.enabled);
    assert!(rt.active_cmd.is_none());
    let action = send_of(apply_command(&rt, &ControllerSet::<u32>::new(), &command("clear-error", None)));
    assert_eq!(action, MotorAction::ClearError);
    rt.enabled = true;
    assert!(command_sent(&mut rt, action, Ok(())).is_ok());
    assert!(rt.enabled);
}

#[test]
fn unconnected_joint_connects_first() {
    let mut rt: JointRuntime<u32> = JointRuntime::new(cfg("a", Some("Rob-Stride"), None), prof());
    let mut controllers: ControllerSet<u32> = ControllerSet::new();
    let plan = match apply_command(&rt, &controllers, &command("mit", None)) {
        CommandStep::OpenController(plan) => {
            assert_eq!(plan.vendor, "robstride");
            assert_eq!(plan.transport, "socketcan");
            assert_eq!(plan.motor_id, 6);
            plan
        }
        _ => panic!("expected a controller to open"),
    };
    let key = plan.controller_key.clone();
    match controller_opened(&mut controllers, plan, Err("no device".to_string())) {
        CommandStep::Finished(Err(CommandError::Motor(m))) => assert_eq!(m, "no device"),
        _ => panic!("expected the failure"),
    }
    assert_eq!(controllers.len(), 0);
    let plan = match apply_command(&rt, &controllers, &command("mit", None)) {
        CommandStep::OpenController(plan) => plan,
        _ => panic!("expected a controller to open"),
    };
    match controller_opened(&mut controllers, plan, Ok(40)) {
        CommandStep::AddMotor { plan, controller } => {
            assert_eq!(controller, 0);
            assert_eq!(plan.controller_key, key);
        }
        _ => panic!("expected the motor to be added"),
    }
    assert_eq!(controllers.len(), 1);
    assert_eq!(controllers.index_of(&key), Some(0));
    assert_eq!(*controllers.get(0), 40);
    match apply_command(&rt, &controllers, &command("mit", None)) {
        CommandStep::AddMotor { plan, controller } => {
            assert_eq!(controller, 0);
            assert_eq!(plan.controller_key, key);
        }
        _ => panic!("expected the open controller to be shared"),
    }
    let other: JointRuntime<u32> = JointRuntime::new(cfg("b", Some("robstride"), None), prof());
    assert!(matches!(
        apply_command(&other, &controllers, &command("enable", None)),
        CommandStep::AddMotor { controller: 0, .. }
    ));
    let elsewhere: JointRuntime<u32> = JointRuntime::new(cfg("c", Some("damiao"), None), prof());
    assert!(matches!(
        apply_command(&elsewhere, &controllers, &command("enable", None)),
        CommandStep::OpenController(_)
    ));
    match motor_added(&mut rt, &command("mit", None), Err("no bus".to_string())) {
        CommandStep::Finished(Err(CommandError::Motor(m))) => assert_eq!(m, "no bus"),
        _ => panic!("expected the failure"),
    }
    assert!(rt.motor.is_none());
    assert_eq!(controllers.len(), 1);
    match motor_added(&mut rt, &command("mit", None), Ok(9)) {
        CommandStep::EnsureMode { kind, mode, timeout_ms } => {
            assert_eq!(kind, CommandKind::Mit);
            assert_eq!(mode, 1);
            assert_eq!(timeout_ms, 200);
        }
        _ => panic!("expected a mode switch"),
    }
    assert_eq!(rt.motor, Some(9));
    match apply_command(&rt, &ControllerSet::<u32>::new(), &command("Enable", None)) {
        CommandStep::Finished(Err(CommandError::UnsupportedOp { op })) => assert_eq!(op, "Enable"),
        _ => panic!("expected a refusal"),
    }
}

#[test]
fn mit_gains_come_from_command_then_profile_then_defaults() {
    let c = cfg("a", None, None);
    let rt = connected(c, prof());
    let cmd = command("mit", None);
    let action = send_of(mode_ensured(&rt, &cmd, CommandKind::Mit, Ok(())));
    assert_eq!(
        action,
        MotorAction::Mit {
            pos: bits(0.0),
            vel: bits(0.0),
            kp: bits(0.05),
            kd: bits(0.005),
            tau: bits(0.0),
        }
    );
    let mut p = prof();
    p.kp = Some(bits(20.0));
    p.kd = Some(bits(1.5));
    let rt = connected(cfg("a", None, None), p);
    let mut cmd = command("mit", None);
    cmd.kd = Some(bits(0.7));
    cmd.pos = Some(bits(1.0));
    cmd.tau = Some(bits(-0.25));
    match send_of(mode_ensured(&rt, &cmd, CommandKind::Mit, Ok(()))) {
        MotorAction::Mit { pos, vel, kp, kd, tau } => {
            assert_eq!(pos, bits(1.0));
            assert_eq!(vel, bits(0.0));
            assert_eq!(kp, bits(20.0));
            assert_eq!(kd, bits(0.7));
            assert_eq!(tau, bits(-0.25));
        }
        _ => panic!("expected an MIT call"),
    }
}

#[test]
fn velocity_limit_and_ratio_defaults() {
    let mut p = prof();
    p.max_velocity = Some(bits(4.5));
    let rt = connected(cfg("a", None, None), p);
    let cmd = command("pos_vel", None);
    assert_eq!(
        send_of(mode_ensured(&rt, &cmd, CommandKind::PosVel, Ok(()))),
        MotorAction::PosVel { pos: bits(0.0), vlim: bits(4.5) }
    );
    let rt = connected(cfg("a", None, None), prof());
    let cmd = command("force-pos", None);
    assert_eq!(
        send_of(mode_ensured(&rt, &cmd, CommandKind::ForcePos, Ok(()))),
        MotorAction::ForcePos { pos: bits(0.0), vlim: bits(3.0), ratio: bits(0.3) }
    );
    let mut cmd = command("vel", None);
    cmd.vel = Some(bits(2.0));
    assert_eq!(send_of(mode_ensured(&rt, &cmd, CommandKind::Vel, Ok(()))), MotorAction::Vel { vel: bits(2.0) });
}

#[test]
fn out_of_range_target_is_refused_after_the_mode_switch() {
    let rt = connected(cfg("a", None, None), prof());
    match apply_command(&rt, &ControllerSet::<u32>::new(), &command("pos-vel", None)) {
        CommandStep::EnsureMode { kind, mode, timeout_ms } => {
            assert_eq!(kind, CommandKind::PosVel);
            assert_eq!(mode, 2);
            assert_eq!(timeout_ms, 200);
        }
        _ => panic!("expected a mode switch"),
    }
    let mut cmd = command("pos-vel", None);
    cmd.pos = Some(bits(2.5));
    match mode_ensured(&rt, &cmd, CommandKind::PosVel, Ok(())) {
        CommandStep::Finished(Err(e)) => {
            assert!(matches!(e, CommandError::PositionOutOfRange { min, max } if min == bits(-1.0) && max == bits(2.0)));
            assert_eq!(e.message("-1", "2"), "position out of range [-1, 2]");
        }
        _ => panic!("expected a refusal"),
    }
    match mode_ensured(&rt, &cmd, CommandKind::PosVel, Err("timeout".to_string())) {
        CommandStep::Finished(Err(CommandError::Motor(m))) => assert_eq!(m, "timeout"),
        _ => panic!("expected the mode failure"),
    }
    cmd.pos = Some(bits(-3.0));
    assert!(matches!(mode_ensured(&rt, &cmd, CommandKind::Mit, Ok(())), CommandStep::Finished(Err(_))));
    cmd.vel = Some(bits(1.0));
    assert_eq!(send_of(mode_ensured(&rt, &cmd, CommandKind::Vel, Ok(()))), MotorAction::Vel { vel: bits(1.0) });
    assert_eq!(
        CommandError::UnsupportedOp { op: "spin".to_string() }.message("", ""),
        "unsupported op: spin"
    );
}

#[test]
fn estop_on_one_joint() {
    let mut rt = connected(cfg("a", None, None), prof());
    rt.enabled = true;
    rt.active_cmd = Some(command("vel", Some(true)));
    let e = estop_joint(&mut rt, "json estop message", 11);
    assert!(!rt.enabled);
    assert!(rt.active_cmd.is_none());
    assert_eq!(rt.motor, Some(7));
    assert_eq!(e.kind, "estop");
    assert_eq!(e.level, "warn");
    assert_eq!(e.message, "json estop message");
    assert_eq!(e.joint_name, "a");
    assert_eq!(e.ts_millis, 11);
}

#[test]
fn published_state_carries_joint_and_status() {
    let mut rt = connected(cfg("a", None, None), prof());
    rt.enabled = true;
    let s = motor_state_report(&rt, bits(0.5), bits(-1.0), bits(0.25), bits(30.0), bits(31.0), 0, 99);
    assert_eq!(s.joint_name, "a");
    assert!(s.enabled);
    assert_eq!(s.pos, Some(bits(0.5)));
    assert_eq!(s.vel, Some(bits(-1.0)));
    assert_eq!(s.torque, Some(bits(0.25)));
    assert_eq!(s.t_mos, Some(bits(30.0)));
    assert_eq!(s.t_rotor, Some(bits(31.0)));
    assert_eq!(s.status_code, Some(0));
    assert_eq!(s.status_name.as_deref(), Some("ok"));
    assert_eq!(s.ts_millis, 99);
    let s = motor_state_report(&rt, bits(0.5), bits(-1.0), bits(0.25), bits(30.0), bits(31.0), 3, 99);
    assert_eq!(s.status_code, Some(3));
    assert!(s.status_name.is_none());
}

#[test]
fn controllers_are_taken_out_last_first() {
    let mut controllers: ControllerSet<u32> = ControllerSet::new();
    let rt: JointRuntime<u32> = JointRuntime::new(cfg("a", None, None), prof());
    let mut c = cfg("b", None, None);
    c.bus_interface = "can1".to_string();
    let rt2: JointRuntime<u32> = JointRuntime::new(c, prof());
    for (joint, handle) in [(&rt, 1u32), (&rt2, 2u32)] {
        match apply_command(joint, &controllers, &command("enable", None)) {
            CommandStep::OpenController(plan) => {
                let _ = controller_opened(&mut controllers, plan, Ok(handle));
            }
            _ => panic!("expected a controller to open"),
        }
    }
    assert_eq!(controllers.index_of("damiao:socketcan:can1"), Some(1));
    assert_eq!(controllers.index_of("damiao:socketcan:can9"), None);
    assert_eq!(controllers.pop(), Some(2));
    assert_eq!(controllers.pop(), Some(1));
    assert_eq!(controllers.pop(), None);
}

#[test]
fn only_a_joint_with_a_motor_is_polled() {
    let mut rt: JointRuntime<u32> = JointRuntime::new(cfg("a", None, None), prof());
    assert!(motor_to_poll(&rt).is_none());
    rt.motor = Some(5);
    assert_eq!(motor_to_poll(&rt), Some(&5));
}
