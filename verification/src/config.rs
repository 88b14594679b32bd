//! The bridge manifest: joints, control profiles, safety and bridge options,
//! and the defaults of the options that a manifest may leave out.

use vstd::prelude::*;
use crate::types::IeeeSingle;

verus! {

/// The whole manifest.
#[derive(Clone, Debug)]
pub struct Manifest {
    pub target_name: String,
    pub version: String,
    pub control_profiles: Vec<ControlProfile>,
    pub joints: Vec<JointConfig>,
    pub global_safety: GlobalSafety,
    pub ros_bridge_options: RosBridgeOptions,
}

/// A named set of control parameters.
#[derive(Clone, Debug)]
pub struct ControlProfile {
    pub profile_name: String,
    pub mode: String,
    pub kp: Option<IeeeSingle>,
    pub kd: Option<IeeeSingle>,
    pub max_torque: Option<IeeeSingle>,
    pub max_velocity: Option<IeeeSingle>,
    pub max_acceleration: Option<IeeeSingle>,
    pub interpolation: Option<String>,
    pub on_loss_of_comm: Option<String>,
}

/// One joint: the motor behind it and how it is reached.
#[derive(Clone, Debug)]
pub struct JointConfig {
    pub joint_name: String,
    pub vendor: Option<String>,
    pub transport: Option<String>,
    pub bus_interface: String,
    pub serial_baud: Option<u32>,
    pub motor_id: u16,
    pub feedback_id: Option<u16>,
    pub interface_type: Option<String>,
    pub direction: Option<i8>,
    pub pos_offset: Option<IeeeSingle>,
    pub pos_limit: Option<[IeeeSingle; 2]>,
    pub default_profile: String,
    pub model: Option<String>,
}

/// Safety settings shared by all joints.
#[derive(Clone, Debug)]
pub struct GlobalSafety {
    pub heartbeat_timeout_ms: u64,
    pub emergency_stop_topic: String,
    pub emergency_stop_json_topic: String,
    pub watchdog_strategy: String,
}

/// Settings of the bridge itself.
#[derive(Clone, Debug)]
pub struct RosBridgeOptions {
    pub namespace: String,
    pub qos_profile: String,
    pub status_topic: String,
    pub enable_easter_counter: bool,
    pub state_publish_period_ms: u64,
    pub feedback_warn_ms: u64,
}

/// The JSON emergency-stop topic when the manifest names none.
pub fn default_estop_json_topic() -> (res: String)
    ensures
        res@ == "/sys/estop_json"@,
{
    "/sys/estop_json".to_owned()
}

/// The bridge status topic when the manifest names none.
pub fn default_status_topic() -> (res: String)
    ensures
        res@ == "bridge_status_json"@,
{
    "bridge_status_json".to_owned()
}

/// Whether the diagnostic counter runs when the manifest does not say.
pub fn default_enable_easter_counter() -> (res: bool)
    ensures
        res,
{
    true
}

/// The state publish period, in milliseconds, when the manifest gives none.
pub fn default_state_publish_period_ms() -> (res: u64)
    ensures
        res == 20,
{
    20
}

/// The feedback warning period, in milliseconds, when the manifest gives none.
pub fn default_feedback_warn_ms() -> (res: u64)
    ensures
        res == 2000,
{
    2000
}

} // verus!
