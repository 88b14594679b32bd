//! The decisions of the bridge's main loop: which reader an event belongs
//! to, when diagnostics and joint state are due, how the heartbeat counter
//! advances, the quality of service, the topics a joint uses, and the bridge
//! status report.

use vstd::prelude::*;
use crate::config::Manifest;
use crate::types::EStopMessage;
use crate::manifest_tools::has_profile;
use crate::runtime::{is_joint_status, joint_status, JointRuntime, JointStatus};
use crate::text::{concat, eq_ignore_ascii_case, lower_all, str_eq};

verus! {

/// How long, in milliseconds, the loop waits for reader events per tick.
pub const TICK_MS: u64 = 20;

/// Reader tokens: the typed and JSON emergency-stop readers, and the bases
/// of the typed and JSON command readers of joint `i` (base + `i`).
pub const TOKEN_ESTOP: usize = 1;
pub const TOKEN_ESTOP_JSON: usize = 2;
pub const TOKEN_BASE_JOINT: usize = 10;
pub const TOKEN_BASE_JSON: usize = 1000;

/// The reader that an event token belongs to.
#[derive(Clone, Copy, Debug, PartialEq, Eq, Structural)]
pub enum TokenRoute {
    Estop,
    EstopJson,
    TypedCommand(usize),
    JsonCommand(usize),
    Ignored,
}

/// The reader of a token when there are `joints` joints; the typed command
/// range is tried before the JSON one.
pub open spec fn route_of(token: int, joints: int) -> TokenRoute {
    if token == TOKEN_ESTOP {
        TokenRoute::Estop
    } else if token == TOKEN_ESTOP_JSON {
        TokenRoute::EstopJson
    } else if TOKEN_BASE_JOINT <= token < TOKEN_BASE_JOINT + joints {
        TokenRoute::TypedCommand((token - TOKEN_BASE_JOINT) as usize)
    } else if TOKEN_BASE_JSON <= token < TOKEN_BASE_JSON + joints {
        TokenRoute::JsonCommand((token - TOKEN_BASE_JSON) as usize)
    } else {
        TokenRoute::Ignored
    }
}

/// The reader that an event token belongs to (see `route_of`).
pub fn route_token(token: usize, joints: usize) -> (res: TokenRoute)
    requires
        joints <= usize::MAX - TOKEN_BASE_JSON,
    ensures
        res == route_of(token as int, joints as int),
{
    if token == TOKEN_ESTOP {
        TokenRoute::Estop
    } else if token == TOKEN_ESTOP_JSON {
        TokenRoute::EstopJson
    } else if token >= TOKEN_BASE_JOINT && token < TOKEN_BASE_JOINT + joints {
        TokenRoute::TypedCommand(token - TOKEN_BASE_JOINT)
    } else if token >= TOKEN_BASE_JSON && token < TOKEN_BASE_JSON + joints {
        TokenRoute::JsonCommand(token - TOKEN_BASE_JSON)
    } else {
        TokenRoute::Ignored
    }
}

/// The token of joint `i`'s typed command reader.
pub fn typed_command_token(i: usize) -> (res: usize)
    requires
        i <= usize::MAX - TOKEN_BASE_JOINT,
    ensures
        res == TOKEN_BASE_JOINT + i,
{
    TOKEN_BASE_JOINT + i
}

/// The token of joint `i`'s JSON command reader.
pub fn json_command_token(i: usize) -> (res: usize)
    requires
        i <= usize::MAX - TOKEN_BASE_JSON,
    ensures
        res == TOKEN_BASE_JSON + i,
{
    TOKEN_BASE_JSON + i
}

/// Every reader's token leads back to it, as long as the typed command
/// tokens stay below the JSON ones (at most 990 joints).
pub proof fn token_routes_back(i: int, joints: int)
    requires
        0 <= i < joints <= TOKEN_BASE_JSON - TOKEN_BASE_JOINT,
    ensures
        route_of(TOKEN_ESTOP as int, joints) == TokenRoute::Estop,
        route_of(TOKEN_ESTOP_JSON as int, joints) == TokenRoute::EstopJson,
        route_of(TOKEN_BASE_JOINT + i, joints) == TokenRoute::TypedCommand(i as usize),
        route_of(TOKEN_BASE_JSON + i, joints) == TokenRoute::JsonCommand(i as usize),
{
}

/// The next value of the heartbeat counter: it counts up to 60, then
/// shows 0, then starts again at 1.
pub open spec fn counter_next(v: int) -> int {
    if v == 60 {
        0
    } else if v == 0 {
        1
    } else {
        v + 1
    }
}

/// The next value of the heartbeat counter (see `counter_next`).
pub fn next_counter_value(v: u32) -> (res: u32)
    requires
        v < u32::MAX,
    ensures
        res == counter_next(v as int),
{
    if v == 60 {
        0
    } else if v == 0 {
        1
    } else {
        v + 1
    }
}

/// The counter after `n` steps from `v`.
pub open spec fn counter_after(v: int, n: nat) -> int
    decreases n,
{
    if n == 0 {
        v
    } else {
        counter_next(counter_after(v, (n - 1) as nat))
    }
}

proof fn lemma_counter_after_from_zero(n: nat)
    requires
        n <= 60,
    ensures
        counter_after(0, n) == n,
    decreases n,
{
    if n > 0 {
        lemma_counter_after_from_zero((n - 1) as nat);
    }
}

proof fn lemma_counter_after_split(v: int, a: nat, b: nat)
    ensures
        counter_after(v, a + b) == counter_after(counter_after(v, a), b),
    decreases b,
{
    if b > 0 {
        lemma_counter_after_split(v, a, (b - 1) as nat);
        assert((a + b - 1) as nat == a + (b - 1) as nat);
    }
}

proof fn lemma_counter_to_zero(v: int)
    requires
        0 <= v <= 60,
    ensures
        counter_after(v, (61 - v) as nat) == 0,
    decreases 61 - v,
{
    assert(counter_after(v, 0) == v);
    assert(counter_after(v, 1) == counter_next(v));
    if v < 60 {
        lemma_counter_to_zero(v + 1);
        lemma_counter_after_split(v, 1, (60 - v) as nat);
        assert((1 + (60 - v)) as nat == (61 - v) as nat);
    }
}

/// The heartbeat counter stays within 0..=60, and comes back to where it
/// was after 61 steps.
pub proof fn counter_cycles(v: int)
    requires
        0 <= v <= 60,
    ensures
        0 <= counter_next(v) <= 60,
        counter_after(v, 61) == v,
{
    lemma_counter_to_zero(v);
    lemma_counter_after_from_zero(v as nat);
    lemma_counter_after_split(v, (61 - v) as nat, v as nat);
    assert((61 - v) as nat + v as nat == 61);
}

/// Whether a period has passed: `elapsed_nanos` is at least `period_ms`.
pub open spec fn period_passed(elapsed_nanos: u128, period_ms: u64) -> bool {
    elapsed_nanos >= period_ms as int * 1_000_000
}

/// Whether a period has passed (see `period_passed`).
pub fn is_due(elapsed_nanos: u128, period_ms: u64) -> (res: bool)
    ensures
        res == period_passed(elapsed_nanos, period_ms),
{
    elapsed_nanos >= (period_ms as u128) * 1_000_000
}

/// Which diagnostics are due on a tick.
pub struct DiagnosticsPlan {
    pub publish_counter: bool,
    pub publish_status: bool,
}

/// The diagnostics that are due: the counter once a second when enabled,
/// the bridge status once a second.
pub fn publish_periodic_diagnostics(
    manifest: &Manifest,
    since_counter_nanos: u128,
    since_status_nanos: u128,
) -> (res: DiagnosticsPlan)
    ensures
        res.publish_counter == (manifest.ros_bridge_options.enable_easter_counter && period_passed(
            since_counter_nanos,
            1000,
        )),
        res.publish_status == period_passed(since_status_nanos, 1000),
{
    DiagnosticsPlan {
        publish_counter: manifest.ros_bridge_options.enable_easter_counter && is_due(
            since_counter_nanos,
            1000,
        ),
        publish_status: is_due(since_status_nanos, 1000),
    }
}

/// The periods of the main loop, in milliseconds.
pub struct BridgeTiming {
    pub heartbeat_timeout_ms: u64,
    pub state_period_ms: u64,
    pub feedback_warn_ms: u64,
}

/// The larger of two numbers.
pub open spec fn at_least(v: u64, floor: u64) -> u64 {
    if v >= floor {
        v
    } else {
        floor
    }
}

/// The periods of the main loop: the heartbeat timeout and the state period
/// of the manifest, at least 1 ms, and its feedback warning period, at
/// least 100 ms.
pub fn bridge_timing(manifest: &Manifest) -> (res: BridgeTiming)
    ensures
        res.heartbeat_timeout_ms == at_least(manifest.global_safety.heartbeat_timeout_ms, 1),
        res.state_period_ms == at_least(manifest.ros_bridge_options.state_publish_period_ms, 1),
        res.feedback_warn_ms == at_least(manifest.ros_bridge_options.feedback_warn_ms, 100),
{
    let hb = manifest.global_safety.heartbeat_timeout_ms;
    let sp = manifest.ros_bridge_options.state_publish_period_ms;
    let fw = manifest.ros_bridge_options.feedback_warn_ms;
    BridgeTiming {
        heartbeat_timeout_ms: if hb >= 1 {
            hb
        } else {
            1
        },
        state_period_ms: if sp >= 1 {
            sp
        } else {
            1
        },
        feedback_warn_ms: if fw >= 100 {
            fw
        } else {
            100
        },
    }
}

/// What a joint's state report does on a tick.
pub struct StateReport {
    pub log_state: bool,
    pub publish_state: bool,
    pub warn_no_feedback: bool,
}

/// A joint's state report on a tick. A joint without a motor reports
/// nothing. With feedback, the state is logged once a second and published
/// once per state period; without, a warning is given once per feedback
/// warning period. The times are since the last of each.
pub fn publish_motor_state(
    has_motor: bool,
    has_feedback: bool,
    since_log_nanos: u128,
    since_publish_nanos: u128,
    since_warn_nanos: u128,
    timing: &BridgeTiming,
) -> (res: StateReport)
    ensures
        res.log_state == (has_motor && has_feedback && period_passed(since_log_nanos, 1000)),
        res.publish_state == (has_motor && has_feedback && period_passed(
            since_publish_nanos,
            timing.state_period_ms,
        )),
        res.warn_no_feedback == (has_motor && !has_feedback && period_passed(
            since_warn_nanos,
            timing.feedback_warn_ms,
        )),
{
    if !has_motor {
        StateReport { log_state: false, publish_state: false, warn_no_feedback: false }
    } else if has_feedback {
        StateReport {
            log_state: is_due(since_log_nanos, 1000),
            publish_state: is_due(since_publish_nanos, timing.state_period_ms),
            warn_no_feedback: false,
        }
    } else {
        StateReport {
            log_state: false,
            publish_state: false,
            warn_no_feedback: is_due(since_warn_nanos, timing.feedback_warn_ms),
        }
    }
}

/// The reliability asked of the topics; a reliable writer blocks for at most
/// `max_blocking_time_ms`.
#[derive(Clone, Copy, Debug, PartialEq, Eq, Structural)]
pub enum Reliability {
    Reliable { max_blocking_time_ms: u64 },
    BestEffort,
}

/// How long samples outlive their writer: not at all.
#[derive(Clone, Copy, Debug, PartialEq, Eq, Structural)]
pub enum Durability {
    Volatile,
}

/// How long a writer counts as alive without writing.
#[derive(Clone, Copy, Debug, PartialEq, Eq, Structural)]
pub enum LeaseDuration {
    Infinite,
}

/// How writers show they are alive: by the middleware itself.
#[derive(Clone, Copy, Debug, PartialEq, Eq, Structural)]
pub enum Liveliness {
    Automatic { lease_duration: LeaseDuration },
}

/// How many samples are kept: the last `depth`.
#[derive(Clone, Copy, Debug, PartialEq, Eq, Structural)]
pub enum History {
    KeepLast { depth: i32 },
}

/// The quality-of-service settings of every topic of the bridge.
#[derive(Clone, Copy, Debug, PartialEq, Eq, Structural)]
pub struct QosSettings {
    pub reliability: Reliability,
    pub durability: Durability,
    pub liveliness: Liveliness,
    pub history: History,
}

/// Blocking time of a reliable writer, in milliseconds.
pub const RELIABLE_MAX_BLOCKING_MS: u64 = 50;

/// Samples kept per topic.
pub const HISTORY_DEPTH: i32 = 10;

/// The quality of service of the topics: reliable, blocking for at most
/// 50 ms, when the manifest's QoS profile is `reliable` in any ASCII case,
/// best effort otherwise; always volatile, automatic liveliness with an
/// infinite lease, and the last 10 samples kept.
pub fn build_qos(manifest: &Manifest) -> (res: QosSettings)
    ensures
        res.reliability == (if lower_all(manifest.ros_bridge_options.qos_profile@) == lower_all(
            "reliable"@,
        ) {
            Reliability::Reliable { max_blocking_time_ms: 50 }
        } else {
            Reliability::BestEffort
        }),
        res.durability == Durability::Volatile,
        res.liveliness == (Liveliness::Automatic { lease_duration: LeaseDuration::Infinite }),
        res.history == (History::KeepLast { depth: 10 }),
{
    let reliability = if eq_ignore_ascii_case(manifest.ros_bridge_options.qos_profile.as_str(), "reliable") {
        Reliability::Reliable { max_blocking_time_ms: RELIABLE_MAX_BLOCKING_MS }
    } else {
        Reliability::BestEffort
    };
    QosSettings {
        reliability,
        durability: Durability::Volatile,
        liveliness: Liveliness::Automatic { lease_duration: LeaseDuration::Infinite },
        history: History::KeepLast { depth: HISTORY_DEPTH },
    }
}

/// The topics of one joint, relative to the bridge namespace, and the type
/// names of its typed topics.
pub struct JointTopics {
    pub cmd: String,
    pub state: String,
    pub cmd_json: String,
    pub state_json: String,
    pub event_json: String,
    pub cmd_type: String,
    pub state_type: String,
}

/// The type name of the JSON topics.
pub fn string_type_name() -> (res: String)
    ensures
        res@ == "std_msgs::msg::dds_::String_"@,
{
    "std_msgs::msg::dds_::String_".to_owned()
}

/// The topics of a joint: `<joint>/cmd`, `<joint>/state`, `<joint>/cmd_json`,
/// `<joint>/state_json`, `<joint>/event_json`, with the typed ones of type
/// `motorbridge_msgs::msg::dds_::<joint>_Cmd_` and `..._State_`.
pub fn joint_topics(joint_name: &str) -> (res: JointTopics)
    ensures
        res.cmd@ == joint_name@ + "/cmd"@,
        res.state@ == joint_name@ + "/state"@,
        res.cmd_json@ == joint_name@ + "/cmd_json"@,
        res.state_json@ == joint_name@ + "/state_json"@,
        res.event_json@ == joint_name@ + "/event_json"@,
        res.cmd_type@ == "motorbridge_msgs::msg::dds_::"@ + joint_name@ + "_Cmd_"@,
        res.state_type@ == "motorbridge_msgs::msg::dds_::"@ + joint_name@ + "_State_"@,
{
    let prefix = concat("motorbridge_msgs::msg::dds_::", joint_name);
    JointTopics {
        cmd: concat(joint_name, "/cmd"),
        state: concat(joint_name, "/state"),
        cmd_json: concat(joint_name, "/cmd_json"),
        state_json: concat(joint_name, "/state_json"),
        event_json: concat(joint_name, "/event_json"),
        cmd_type: concat(prefix.as_str(), "_Cmd_"),
        state_type: concat(prefix.as_str(), "_State_"),
    }
}

/// The first control profile with a given name.
pub fn find_profile(manifest: &Manifest, name: &str) -> (res: Option<usize>)
    ensures
        res is Some <==> has_profile(*manifest, name@),
        res matches Some(p) ==> p < manifest.control_profiles@.len()
            && manifest.control_profiles@[p as int].profile_name@ == name@ && forall|q: int|
            0 <= q < p ==> (#[trigger] manifest.control_profiles@[q]).profile_name@ != name@,
{
    let mut p: usize = 0;
    while p < manifest.control_profiles.len()
        invariant
            p <= manifest.control_profiles@.len(),
            forall|q: int|
                0 <= q < p ==> (#[trigger] manifest.control_profiles@[q]).profile_name@ != name@,
        decreases manifest.control_profiles@.len() - p,
    {
        if str_eq(manifest.control_profiles[p].profile_name.as_str(), name) {
            return Some(p);
        }
        p = p + 1;
    }
    None
}

/// The name the bridge reports itself under.
pub fn app_name() -> (res: &'static str)
    ensures
        res@ == "motorbridge_ros2"@,
{
    "motorbridge_ros2"
}

/// The bridge status report.
pub struct BridgeStatus {
    pub app: String,
    pub version: String,
    pub target_name: String,
    pub manifest_version: String,
    pub controller_count: usize,
    pub joints: Vec<JointStatus>,
    pub ts_millis: i64,
}

/// The bridge status: the bridge's name and version, the manifest's target
/// and version, the number of open controllers, and each joint's entry in
/// order, with the age of its last command from `ages_ms`.
pub fn publish_bridge_status<M>(
    manifest: &Manifest,
    runtimes: &Vec<JointRuntime<M>>,
    controller_count: usize,
    version: &str,
    ages_ms: &Vec<u64>,
    ts_millis: i64,
) -> (res: BridgeStatus)
    requires
        ages_ms@.len() == runtimes@.len(),
    ensures
        res.app@ == "motorbridge_ros2"@,
        res.version@ == version@,
        res.target_name@ == manifest.target_name@,
        res.manifest_version@ == manifest.version@,
        res.controller_count == controller_count,
        res.joints@.len() == runtimes@.len(),
        forall|i: int|
            0 <= i < runtimes@.len() ==> is_joint_status(
                #[trigger] res.joints@[i],
                runtimes@[i],
                ages_ms@[i],
            ),
        res.ts_millis == ts_millis,
{
    let mut joints: Vec<JointStatus> = Vec::new();
    let mut i: usize = 0;
    while i < runtimes.len()
        invariant
            i <= runtimes@.len(),
            ages_ms@.len() == runtimes@.len(),
            joints@.len() == i,
            forall|k: int|
                0 <= k < i ==> is_joint_status(#[trigger] joints@[k], runtimes@[k], ages_ms@[k]),
        decreases runtimes@.len() - i,
    {
        joints.push(joint_status(&runtimes[i], ages_ms[i]));
        i = i + 1;
    }
    BridgeStatus {
        app: app_name().to_owned(),
        version: version.to_owned(),
        target_name: manifest.target_name.clone(),
        manifest_version: manifest.version.clone(),
        controller_count,
        joints,
        ts_millis,
    }
}

/// Where an emergency-stop message came from.
#[derive(Clone, Copy, Debug, PartialEq, Eq, Structural)]
pub enum EstopSource {
    Typed,
    Json,
}

/// The reason an emergency-stop message engages the stop with, or nothing
/// for a message that does not engage it.
pub fn estop_reason(msg: &EStopMessage, source: EstopSource) -> (res: Option<&'static str>)
    ensures
        res is Some <==> msg.engaged,
        res matches Some(r) ==> r@ == (match source {
            EstopSource::Typed => "typed estop message"@,
            EstopSource::Json => "json estop message"@,
        }),
{
    if !msg.engaged {
        None
    } else {
        match source {
            EstopSource::Typed => Some("typed estop message"),
            EstopSource::Json => Some("json estop message"),
        }
    }
}

/// A period is due exactly from the moment it has fully passed: never a
/// nanosecond before `period_ms` milliseconds, and from then on for as long
/// as nothing resets the time; a longer period is never due sooner.
pub proof fn periods_fall_due_once_passed(elapsed_nanos: u128, later_nanos: u128, period_ms: u64, longer_ms: u64)
    ensures
        period_ms as int * 1_000_000 <= u128::MAX ==> period_passed(
            (period_ms as int * 1_000_000) as u128,
            period_ms,
        ),
        period_ms > 0 ==> !period_passed((period_ms as int * 1_000_000 - 1) as u128, period_ms),
        period_passed(elapsed_nanos, period_ms) && elapsed_nanos <= later_nanos ==> period_passed(
            later_nanos,
            period_ms,
        ),
        period_passed(elapsed_nanos, longer_ms) && period_ms <= longer_ms ==> period_passed(
            elapsed_nanos,
            period_ms,
        ),
{
    assert(period_ms <= longer_ms ==> period_ms as int * 1_000_000 <= longer_ms as int * 1_000_000)
        by (nonlinear_arith);
}

/// A floor on a period keeps the configured value when it reaches the floor
/// and raises it to the floor otherwise: the result is the larger of the
/// two.
pub proof fn period_floors_take_the_larger(v: u64, floor: u64)
    ensures
        at_least(v, floor) >= v,
        at_least(v, floor) >= floor,
        at_least(v, floor) == v || at_least(v, floor) == floor,
{
}

} // verus!
