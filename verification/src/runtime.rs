//! The state the bridge keeps for each joint, and the decisions taken on it:
//! how a motor is reached, what a command asks the motor to do, what a
//! command's outcome, an emergency stop or a heartbeat timeout does to the
//! state, and what the bridge reports.

use vstd::prelude::*;
use crate::abi::normalize_vendor;
use crate::config::{ControlProfile, JointConfig};
use crate::manifest_tools::joint_vendor;
use crate::abi::{backend_of, vendor_of};
use crate::manifest_tools::manifest_problem;
use crate::text::{concat, is_canonical_name, normalize_canonical_name, normalize_name, str_eq};
use crate::types::{IeeeSingle, MotorCommand, MotorState};

verus! {

/// The state of one joint. `M` is the handle of its motor once the motor
/// has been added.
pub struct JointRuntime<M> {
    pub cfg: JointConfig,
    pub profile: ControlProfile,
    pub motor: Option<M>,
    pub enabled: bool,
    pub active_cmd: Option<MotorCommand>,
    pub command_count: u64,
    pub error_count: u64,
    pub last_error: Option<String>,
}

impl<M> JointRuntime<M> {
    /// A joint that has no motor yet, is disabled, runs no command and has
    /// counted nothing.
    pub fn new(cfg: JointConfig, profile: ControlProfile) -> (res: Self)
        ensures
            res.cfg == cfg,
            res.profile == profile,
            res.motor is None,
            !res.enabled,
            res.active_cmd is None,
            res.command_count == 0,
            res.error_count == 0,
            res.last_error is None,
    {
        JointRuntime {
            cfg,
            profile,
            motor: None,
            enabled: false,
            active_cmd: None,
            command_count: 0,
            error_count: 0,
            last_error: None,
        }
    }
}

/// The motor id that feedback comes from: the configured one, else the
/// motor id.
pub open spec fn feedback_id_of(cfg: JointConfig) -> u16 {
    match cfg.feedback_id {
        Some(f) => f,
        None => cfg.motor_id,
    }
}

/// The normalised vendor of a joint.
pub open spec fn vendor_key(cfg: JointConfig) -> Seq<char> {
    normalize_name(joint_vendor(cfg))
}

/// The transport of a joint: the configured one, normalised; otherwise
/// `socketcanfd` for hexfellow motors and `socketcan` for the others.
pub open spec fn effective_transport_of(cfg: JointConfig) -> Seq<char> {
    match cfg.transport {
        Some(t) => normalize_name(t@),
        None => if vendor_key(cfg) == "hexfellow"@ {
            "socketcanfd"@
        } else {
            "socketcan"@
        },
    }
}

/// The motor model: the configured one; otherwise the usual model of the
/// (normalised) vendor, `4340P` for any vendor without one.
pub open spec fn effective_model_of(cfg: JointConfig, vendor: Seq<char>) -> Seq<char> {
    match cfg.model {
        Some(m) => m@,
        None => if vendor == "robstride"@ {
            "rs-00"@
        } else if vendor == "myactuator"@ {
            "X8"@
        } else if vendor == "hightorque"@ {
            "hightorque"@
        } else if vendor == "hexfellow"@ {
            "hexfellow"@
        } else {
            "4340P"@
        },
    }
}

/// The motor id that feedback comes from.
pub fn feedback_id(cfg: &JointConfig) -> (res: u16)
    ensures
        res == feedback_id_of(*cfg),
{
    match cfg.feedback_id {
        Some(f) => f,
        None => cfg.motor_id,
    }
}

/// The normalised vendor of a joint.
pub fn joint_vendor_key(cfg: &JointConfig) -> (res: String)
    ensures
        res@ == vendor_key(*cfg),
{
    match &cfg.vendor {
        Some(v) => normalize_vendor(v.as_str()),
        None => normalize_vendor("damiao"),
    }
}

/// The transport a joint's controller uses (see `effective_transport_of`).
pub fn effective_transport<M>(rt: &JointRuntime<M>) -> (res: String)
    ensures
        res@ == effective_transport_of(rt.cfg),
{
    match &rt.cfg.transport {
        Some(t) => crate::abi::normalize_transport(t.as_str()),
        None => {
            let v = joint_vendor_key(&rt.cfg);
            if str_eq(v.as_str(), "hexfellow") {
                "socketcanfd".to_owned()
            } else {
                "socketcan".to_owned()
            }
        },
    }
}

/// The motor model of a joint (see `effective_model_of`).
pub fn effective_model<M>(rt: &JointRuntime<M>, vendor: &str) -> (res: String)
    ensures
        res@ == effective_model_of(rt.cfg, vendor@),
{
    match &rt.cfg.model {
        Some(m) => m.clone(),
        None => if str_eq(vendor, "robstride") {
            "rs-00".to_owned()
        } else if str_eq(vendor, "myactuator") {
            "X8".to_owned()
        } else if str_eq(vendor, "hightorque") {
            "hightorque".to_owned()
        } else if str_eq(vendor, "hexfellow") {
            "hexfellow".to_owned()
        } else {
            "4340P".to_owned()
        },
    }
}

/// The key under which controllers are shared: vendor, transport and bus,
/// joined by `:`.
pub open spec fn controller_key_of(vendor: Seq<char>, transport: Seq<char>, bus: Seq<char>) -> Seq<
    char,
> {
    vendor + ":"@ + transport + ":"@ + bus
}

/// The key under which a controller is shared (see `controller_key_of`).
pub fn controller_key(vendor: &str, transport: &str, bus: &str) -> (res: String)
    ensures
        res@ == controller_key_of(vendor@, transport@, bus@),
{
    let a = concat(vendor, ":");
    let b = concat(a.as_str(), transport);
    let c = concat(b.as_str(), ":");
    let d = concat(c.as_str(), bus);
    assert(d@ =~= controller_key_of(vendor@, transport@, bus@));
    d
}

/// How a joint's motor is to be reached: the controller (shared by key)
/// and the motor added on it.
pub struct MotorPlan {
    pub vendor: String,
    pub transport: String,
    pub controller_key: String,
    pub endpoint: String,
    pub serial_baud: Option<u32>,
    pub motor_id: u16,
    pub feedback_id: u16,
    pub model: String,
}

/// Whether a plan is the one for a joint's configuration.
pub open spec fn is_motor_plan(p: MotorPlan, cfg: JointConfig) -> bool {
    &&& p.vendor@ == vendor_key(cfg)
    &&& p.transport@ == effective_transport_of(cfg)
    &&& p.controller_key@ == controller_key_of(
        vendor_key(cfg),
        effective_transport_of(cfg),
        cfg.bus_interface@,
    )
    &&& p.endpoint@ == cfg.bus_interface@
    &&& p.serial_baud == cfg.serial_baud
    &&& p.motor_id == cfg.motor_id
    &&& p.feedback_id == feedback_id_of(cfg)
    &&& p.model@ == effective_model_of(cfg, vendor_key(cfg))
}

/// What must be done before a command reaches the motor: nothing when the
/// joint has its motor, else the plan for opening (or sharing) its controller
/// and adding its motor.
pub fn ensure_motor<M>(rt: &JointRuntime<M>) -> (res: Option<MotorPlan>)
    ensures
        rt.motor is Some <==> res is None,
        res matches Some(p) ==> is_motor_plan(p, rt.cfg),
{
    if rt.motor.is_some() {
        return None;
    }
    let vendor = joint_vendor_key(&rt.cfg);
    let transport = effective_transport(rt);
    let key = controller_key(vendor.as_str(), transport.as_str(), rt.cfg.bus_interface.as_str());
    let model = effective_model(rt, vendor.as_str());
    Some(
        MotorPlan {
            vendor,
            transport,
            controller_key: key,
            endpoint: rt.cfg.bus_interface.clone(),
            serial_baud: rt.cfg.serial_baud,
            motor_id: rt.cfg.motor_id,
            feedback_id: feedback_id(&rt.cfg),
            model,
        },
    )
}

/// What a command asks the motor to do.
#[derive(Clone, Copy, Debug, PartialEq, Eq, Structural)]
pub enum CommandKind {
    Enable,
    Disable,
    ClearError,
    SetZeroPosition,
    StoreParameters,
    Mit,
    PosVel,
    Vel,
    ForcePos,
}

/// How long, in milliseconds, the motor is given to switch control mode.
pub const ENSURE_MODE_TIMEOUT_MS: u32 = 200;

impl CommandKind {
    /// The control mode the motor must be in first, for the commands that
    /// drive it.
    pub open spec fn spec_control_mode(self) -> Option<u32> {
        match self {
            CommandKind::Mit => Some(1),
            CommandKind::PosVel => Some(2),
            CommandKind::Vel => Some(3),
            CommandKind::ForcePos => Some(4),
            _ => None,
        }
    }

    /// The control mode the motor must be in first, for the commands that
    /// drive it.
    pub fn control_mode(self) -> (res: Option<u32>)
        ensures
            res == self.spec_control_mode(),
    {
        match self {
            CommandKind::Mit => Some(1),
            CommandKind::PosVel => Some(2),
            CommandKind::Vel => Some(3),
            CommandKind::ForcePos => Some(4),
            _ => None,
        }
    }
}

/// The command an `op` names; `_` and `-` spellings are both accepted.
pub open spec fn command_kind_of(op: Seq<char>) -> Option<CommandKind> {
    if op == "enable"@ {
        Some(CommandKind::Enable)
    } else if op == "disable"@ {
        Some(CommandKind::Disable)
    } else if op == "clear_error"@ || op == "clear-error"@ {
        Some(CommandKind::ClearError)
    } else if op == "set_zero"@ || op == "set-zero"@ || op == "set_zero_position"@ || op
        == "set-zero-position"@ {
        Some(CommandKind::SetZeroPosition)
    } else if op == "store_parameters"@ || op == "store-parameters"@ || op == "save_parameters"@
        || op == "save-parameters"@ {
        Some(CommandKind::StoreParameters)
    } else if op == "mit"@ {
        Some(CommandKind::Mit)
    } else if op == "pos_vel"@ || op == "pos-vel"@ {
        Some(CommandKind::PosVel)
    } else if op == "vel"@ {
        Some(CommandKind::Vel)
    } else if op == "force_pos"@ || op == "force-pos"@ {
        Some(CommandKind::ForcePos)
    } else {
        None
    }
}

/// Why a command is not carried out.
#[derive(Debug)]
pub enum CommandError {
    UnsupportedOp { op: String },
    /// The target position lies outside the joint's limit `[min, max]`.
    PositionOutOfRange { min: IeeeSingle, max: IeeeSingle },
    /// A motor call failed; the text is the ABI's.
    Motor(String),
}

/// The text of a command error. The two ends of a position limit are given
/// as the caller renders them (`min_text`, `max_text`); the other errors do
/// not use them.
pub open spec fn command_error_text(e: CommandError, min_text: Seq<char>, max_text: Seq<char>) -> Seq<
    char,
> {
    match e {
        CommandError::UnsupportedOp { op } => "unsupported op: "@ + op@,
        CommandError::PositionOutOfRange { .. } => "position out of range ["@ + min_text + ", "@
            + max_text + "]"@,
        CommandError::Motor(m) => m@,
    }
}

impl CommandError {
    /// The text of the error (see `command_error_text`).
    pub fn message(&self, min_text: &str, max_text: &str) -> (res: String)
        ensures
            res@ == command_error_text(*self, min_text@, max_text@),
    {
        match self {
            CommandError::UnsupportedOp { op } => concat("unsupported op: ", op.as_str()),
            CommandError::PositionOutOfRange { .. } => {
                let a = concat("position out of range [", min_text);
                let b = concat(a.as_str(), ", ");
                let c = concat(b.as_str(), max_text);
                let d = concat(c.as_str(), "]");
                assert(d@ =~= command_error_text(*self, min_text@, max_text@));
                d
            },
            CommandError::Motor(m) => m.clone(),
        }
    }
}

/// The command an `op` names, or the refusal of an unknown `op`.
pub fn plan_command(op: &str) -> (res: Result<CommandKind, CommandError>)
    ensures
        match command_kind_of(op@) {
            Some(k) => res matches Ok(r) && r == k,
            None => res matches Err(CommandError::UnsupportedOp { op: o }) && o@ == op@,
        },
{
    if str_eq(op, "enable") {
        Ok(CommandKind::Enable)
    } else if str_eq(op, "disable") {
        Ok(CommandKind::Disable)
    } else if str_eq(op, "clear_error") || str_eq(op, "clear-error") {
        Ok(CommandKind::ClearError)
    } else if str_eq(op, "set_zero") || str_eq(op, "set-zero") || str_eq(op, "set_zero_position")
        || str_eq(op, "set-zero-position") {
        Ok(CommandKind::SetZeroPosition)
    } else if str_eq(op, "store_parameters") || str_eq(op, "store-parameters") || str_eq(
        op,
        "save_parameters",
    ) || str_eq(op, "save-parameters") {
        Ok(CommandKind::StoreParameters)
    } else if str_eq(op, "mit") {
        Ok(CommandKind::Mit)
    } else if str_eq(op, "pos_vel") || str_eq(op, "pos-vel") {
        Ok(CommandKind::PosVel)
    } else if str_eq(op, "vel") {
        Ok(CommandKind::Vel)
    } else if str_eq(op, "force_pos") || str_eq(op, "force-pos") {
        Ok(CommandKind::ForcePos)
    } else {
        Err(CommandError::UnsupportedOp { op: op.to_owned() })
    }
}

/// Whether a target position is refused by a joint's limit: it lies below
/// the lower or above the upper end (as IEEE 754 compares, so a NaN passes).
pub open spec fn position_out_of_range(cfg: JointConfig, pos: IeeeSingle) -> bool {
    cfg.pos_limit matches Some(l) && (pos.spec_lt(l[0]) || l[1].spec_lt(pos))
}

/// Checks a target position against the joint's limit, where it has one.
pub fn check_position(cfg: &JointConfig, pos: IeeeSingle) -> (res: Result<(), CommandError>)
    ensures
        !position_out_of_range(*cfg, pos) ==> res is Ok,
        position_out_of_range(*cfg, pos) ==> (res matches Err(
            CommandError::PositionOutOfRange { min, max },
        ) && min == cfg.pos_limit->0[0] && max == cfg.pos_limit->0[1]),
{
    if let Some(l) = cfg.pos_limit {
        if pos.lt(l[0]) || l[1].lt(pos) {
            return Err(CommandError::PositionOutOfRange { min: l[0], max: l[1] });
        }
    }
    Ok(())
}

impl<M> JointRuntime<M> {
    /// What a command that the motor carried out does to the joint: enabling
    /// sets it enabled; disabling clears that and drops the running command;
    /// the others change nothing here.
    pub fn command_applied(&mut self, kind: CommandKind)
        ensures
            final(self).cfg == old(self).cfg,
            final(self).profile == old(self).profile,
            final(self).motor == old(self).motor,
            final(self).command_count == old(self).command_count,
            final(self).error_count == old(self).error_count,
            final(self).last_error == old(self).last_error,
            final(self).enabled == (match kind {
                CommandKind::Enable => true,
                CommandKind::Disable => false,
                _ => old(self).enabled,
            }),
            final(self).active_cmd == (match kind {
                CommandKind::Disable => None,
                _ => old(self).active_cmd,
            }),
    {
        match kind {
            CommandKind::Enable => {
                self.enabled = true;
            },
            CommandKind::Disable => {
                self.enabled = false;
                self.active_cmd = None;
            },
            _ => {},
        }
    }
}

/// The gain `kp` when neither the command nor the profile gives one: 0.05,
/// as IEEE 754 bits.
pub const DEFAULT_KP_BITS: u32 = 0x3d4c_cccd;

/// The gain `kd` when neither the command nor the profile gives one: 0.005.
pub const DEFAULT_KD_BITS: u32 = 0x3ba3_d70a;

/// The velocity limit when neither the command nor the profile's
/// `max_velocity` gives one: 3.0.
pub const DEFAULT_VLIM_BITS: u32 = 0x4040_0000;

/// The force ratio when the command gives none: 0.3.
pub const DEFAULT_RATIO_BITS: u32 = 0x3e99_999a;

/// The value the command gives, else 0.0.
pub open spec fn given_or_zero(v: Option<IeeeSingle>) -> IeeeSingle {
    match v {
        Some(x) => x,
        None => IeeeSingle { bits: 0 },
    }
}

/// The value the command gives, else the profile's, else the default.
pub open spec fn first_given(cmd: Option<IeeeSingle>, profile: Option<IeeeSingle>, default_bits: u32) -> IeeeSingle {
    match cmd {
        Some(x) => x,
        None => match profile {
            Some(y) => y,
            None => IeeeSingle { bits: default_bits },
        },
    }
}

/// A motor call that carries a command out. Positions, velocities and
/// torques are the command's targets (0.0 where it gives none); the caller
/// applies the joint's direction and offset when it makes the call.
#[derive(Clone, Copy, Debug, PartialEq, Eq, Structural)]
pub enum MotorAction {
    Enable,
    Disable,
    ClearError,
    SetZeroPosition,
    StoreParameters,
    Mit { pos: IeeeSingle, vel: IeeeSingle, kp: IeeeSingle, kd: IeeeSingle, tau: IeeeSingle },
    PosVel { pos: IeeeSingle, vlim: IeeeSingle },
    Vel { vel: IeeeSingle },
    ForcePos { pos: IeeeSingle, vlim: IeeeSingle, ratio: IeeeSingle },
}

/// The motor call for a command: the targets it gives; `kp` and `kd` from the
/// command, else the profile, else 0.05 and 0.005; the velocity limit from the
/// command, else the profile's `max_velocity`, else 3.0; the force ratio from
/// the command, else 0.3.
pub open spec fn drive_action(kind: CommandKind, profile: ControlProfile, cmd: MotorCommand) -> MotorAction {
    match kind {
        CommandKind::Enable => MotorAction::Enable,
        CommandKind::Disable => MotorAction::Disable,
        CommandKind::ClearError => MotorAction::ClearError,
        CommandKind::SetZeroPosition => MotorAction::SetZeroPosition,
        CommandKind::StoreParameters => MotorAction::StoreParameters,
        CommandKind::Mit => MotorAction::Mit {
            pos: given_or_zero(cmd.pos),
            vel: given_or_zero(cmd.vel),
            kp: first_given(cmd.kp, profile.kp, DEFAULT_KP_BITS),
            kd: first_given(cmd.kd, profile.kd, DEFAULT_KD_BITS),
            tau: given_or_zero(cmd.tau),
        },
        CommandKind::PosVel => MotorAction::PosVel {
            pos: given_or_zero(cmd.pos),
            vlim: first_given(cmd.vlim, profile.max_velocity, DEFAULT_VLIM_BITS),
        },
        CommandKind::Vel => MotorAction::Vel { vel: given_or_zero(cmd.vel) },
        CommandKind::ForcePos => MotorAction::ForcePos {
            pos: given_or_zero(cmd.pos),
            vlim: first_given(cmd.vlim, profile.max_velocity, DEFAULT_VLIM_BITS),
            ratio: first_given(cmd.ratio, None, DEFAULT_RATIO_BITS),
        },
    }
}

/// The commands that move the motor to a target position.
pub open spec fn targets_position(kind: CommandKind) -> bool {
    kind == CommandKind::Mit || kind == CommandKind::PosVel || kind == CommandKind::ForcePos
}

impl MotorAction {
    /// The command a motor call carries out.
    pub open spec fn spec_kind(self) -> CommandKind {
        match self {
            MotorAction::Enable => CommandKind::Enable,
            MotorAction::Disable => CommandKind::Disable,
            MotorAction::ClearError => CommandKind::ClearError,
            MotorAction::SetZeroPosition => CommandKind::SetZeroPosition,
            MotorAction::StoreParameters => CommandKind::StoreParameters,
            MotorAction::Mit { .. } => CommandKind::Mit,
            MotorAction::PosVel { .. } => CommandKind::PosVel,
            MotorAction::Vel { .. } => CommandKind::Vel,
            MotorAction::ForcePos { .. } => CommandKind::ForcePos,
        }
    }

    /// The command a motor call carries out.
    pub fn kind(self) -> (res: CommandKind)
        ensures
            res == self.spec_kind(),
    {
        match self {
            MotorAction::Enable => CommandKind::Enable,
            MotorAction::Disable => CommandKind::Disable,
            MotorAction::ClearError => CommandKind::ClearError,
            MotorAction::SetZeroPosition => CommandKind::SetZeroPosition,
            MotorAction::StoreParameters => CommandKind::StoreParameters,
            MotorAction::Mit { .. } => CommandKind::Mit,
            MotorAction::PosVel { .. } => CommandKind::PosVel,
            MotorAction::Vel { .. } => CommandKind::Vel,
            MotorAction::ForcePos { .. } => CommandKind::ForcePos,
        }
    }
}

fn given_or_zero_exec(v: Option<IeeeSingle>) -> (res: IeeeSingle)
    ensures
        res == given_or_zero(v),
{
    match v {
        Some(x) => x,
        None => IeeeSingle { bits: 0 },
    }
}

fn first_given_exec(cmd: Option<IeeeSingle>, profile: Option<IeeeSingle>, default_bits: u32) -> (res:
    IeeeSingle)
    ensures
        res == first_given(cmd, profile, default_bits),
{
    match cmd {
        Some(x) => x,
        None => match profile {
            Some(y) => y,
            None => IeeeSingle { bits: default_bits },
        },
    }
}

/// The motor call for a command (see `drive_action`).
pub fn drive_action_exec(kind: CommandKind, profile: &ControlProfile, cmd: &MotorCommand) -> (res:
    MotorAction)
    ensures
        res == drive_action(kind, *profile, *cmd),
{
    match kind {
        CommandKind::Enable => MotorAction::Enable,
        CommandKind::Disable => MotorAction::Disable,
        CommandKind::ClearError => MotorAction::ClearError,
        CommandKind::SetZeroPosition => MotorAction::SetZeroPosition,
        CommandKind::StoreParameters => MotorAction::StoreParameters,
        CommandKind::Mit => MotorAction::Mit {
            pos: given_or_zero_exec(cmd.pos),
            vel: given_or_zero_exec(cmd.vel),
            kp: first_given_exec(cmd.kp, profile.kp, DEFAULT_KP_BITS),
            kd: first_given_exec(cmd.kd, profile.kd, DEFAULT_KD_BITS),
            tau: given_or_zero_exec(cmd.tau),
        },
        CommandKind::PosVel => MotorAction::PosVel {
            pos: given_or_zero_exec(cmd.pos),
            vlim: first_given_exec(cmd.vlim, profile.max_velocity, DEFAULT_VLIM_BITS),
        },
        CommandKind::Vel => MotorAction::Vel { vel: given_or_zero_exec(cmd.vel) },
        CommandKind::ForcePos => MotorAction::ForcePos {
            pos: given_or_zero_exec(cmd.pos),
            vlim: first_given_exec(cmd.vlim, profile.max_velocity, DEFAULT_VLIM_BITS),
            ratio: first_given_exec(cmd.ratio, None, DEFAULT_RATIO_BITS),
        },
    }
}

/// The controllers opened so far, each under its key (see
/// `controller_key_of`), in the order they were opened. Joints whose motors
/// sit on the same controller share it.
pub struct ControllerSet<C> {
    entries: Vec<(String, C)>,
}

impl<C> View for ControllerSet<C> {
    type V = Seq<(Seq<char>, C)>;

    closed spec fn view(&self) -> Seq<(Seq<char>, C)> {
        self.entries@.map_values(|e: (String, C)| (e.0@, e.1))
    }
}

/// Whether a controller is open under `key`.
pub open spec fn has_controller<C>(set: Seq<(Seq<char>, C)>, key: Seq<char>) -> bool {
    exists|i: int| 0 <= i < set.len() && #[trigger] set[i].0 == key
}

/// Whether no two open controllers share a key.
pub open spec fn keys_distinct<C>(set: Seq<(Seq<char>, C)>) -> bool {
    forall|i: int, j: int| 0 <= i < j < set.len() ==> #[trigger] set[i].0 != #[trigger] set[j].0
}

impl<C> ControllerSet<C> {
    /// No controller open yet.
    pub fn new() -> (res: Self)
        ensures
            res@ == Seq::<(Seq<char>, C)>::empty(),
    {
        let res = ControllerSet { entries: Vec::new() };
        assert(res@ =~= Seq::<(Seq<char>, C)>::empty());
        res
    }

    /// How many controllers are open.
    pub fn len(&self) -> (res: usize)
        ensures
            res == self@.len(),
    {
        self.entries.len()
    }

    /// Where the controller under `key` stands, if one is open.
    pub fn index_of(&self, key: &str) -> (res: Option<usize>)
        ensures
            match res {
                Some(i) => i < self@.len() && self@[i as int].0 == key@,
                None => !has_controller(self@, key@),
            },
    {
        let mut i: usize = 0;
        while i < self.entries.len()
            invariant
                i <= self.entries@.len(),
                forall|k: int| 0 <= k < i ==> #[trigger] self@[k].0 != key@,
            decreases self.entries@.len() - i,
        {
            if str_eq(self.entries[i].0.as_str(), key) {
                return Some(i);
            }
            i = i + 1;
        }
        None
    }

    /// The controller at position `i`.
    pub fn get(&self, i: usize) -> (res: &C)
        requires
            i < self@.len(),
        ensures
            *res == self@[i as int].1,
    {
        &self.entries[i].1
    }

    /// Takes out the controller opened last, for shutting it down.
    pub fn pop(&mut self) -> (res: Option<C>)
        ensures
            old(self)@.len() == 0 ==> res is None && final(self)@ == old(self)@,
            old(self)@.len() > 0 ==> res == Some(old(self)@.last().1) && final(self)@
                == old(self)@.drop_last(),
    {
        let r = self.entries.pop();
        proof {
            if old(self)@.len() > 0 {
                assert(self@ =~= old(self)@.drop_last());
            } else {
                assert(self@ =~= old(self)@);
            }
        }
        match r {
            Some(e) => Some(e.1),
            None => None,
        }
    }

    fn add(&mut self, key: String, c: C)
        ensures
            final(self)@ == old(self)@.push((key@, c)),
    {
        self.entries.push((key, c));
        assert(self@ =~= old(self)@.push((key@, c)));
    }
}

/// The next thing to do for a command: open the controller of the joint's
/// motor, add the motor on an open controller, put the motor in a control
/// mode, make the motor call, or nothing more, with the command's outcome.
pub enum CommandStep {
    OpenController(MotorPlan),
    AddMotor { plan: MotorPlan, controller: usize },
    EnsureMode { kind: CommandKind, mode: u32, timeout_ms: u32 },
    Send(MotorAction),
    Finished(Result<(), CommandError>),
}

/// The step that follows once the joint has its motor: an unknown op is
/// refused; a command that drives the motor first puts it in its control
/// mode; any other is sent at once.
pub open spec fn is_step_after_connect(s: CommandStep, profile: ControlProfile, cmd: MotorCommand) -> bool {
    match command_kind_of(cmd.op@) {
        None => s matches CommandStep::Finished(Err(CommandError::UnsupportedOp { op })) && op@
            == cmd.op@,
        Some(k) => match k.spec_control_mode() {
            Some(mode) => s == CommandStep::EnsureMode {
                kind: k,
                mode,
                timeout_ms: ENSURE_MODE_TIMEOUT_MS,
            },
            None => s == CommandStep::Send(drive_action(k, profile, cmd)),
        },
    }
}

fn step_after_connect(profile: &ControlProfile, cmd: &MotorCommand) -> (res: CommandStep)
    ensures
        is_step_after_connect(res, *profile, *cmd),
{
    match plan_command(cmd.op.as_str()) {
        Err(e) => CommandStep::Finished(Err(e)),
        Ok(kind) => match kind.control_mode() {
            Some(mode) => CommandStep::EnsureMode { kind, mode, timeout_ms: ENSURE_MODE_TIMEOUT_MS },
            None => CommandStep::Send(drive_action_exec(kind, profile, cmd)),
        },
    }
}

/// Whether `s` is the step that connects a joint's motor: opening its
/// controller when none is open under the controller's key, else adding the
/// motor on the controller open under that key.
pub open spec fn is_connect_step<C>(s: CommandStep, cfg: JointConfig, set: Seq<(Seq<char>, C)>) -> bool {
    match s {
        CommandStep::OpenController(p) => is_motor_plan(p, cfg) && !has_controller(
            set,
            p.controller_key@,
        ),
        CommandStep::AddMotor { plan, controller } => is_motor_plan(plan, cfg) && controller
            < set.len() && set[controller as int].0 == plan.controller_key@,
        _ => false,
    }
}

/// The first step of a command: connecting the joint's motor where it has
/// none yet (see `is_connect_step`), else the step after connecting (see
/// `is_step_after_connect`). Steps go on through `controller_opened`,
/// `motor_added`, `mode_ensured` and `command_sent`.
pub fn apply_command<M, C>(rt: &JointRuntime<M>, controllers: &ControllerSet<C>, cmd: &MotorCommand) -> (res:
    CommandStep)
    ensures
        rt.motor is None ==> is_connect_step(res, rt.cfg, controllers@),
        rt.motor is Some ==> is_step_after_connect(res, rt.profile, *cmd),
{
    match ensure_motor(rt) {
        Some(p) => match controllers.index_of(p.controller_key.as_str()) {
            Some(i) => CommandStep::AddMotor { plan: p, controller: i },
            None => CommandStep::OpenController(p),
        },
        None => step_after_connect(&rt.profile, cmd),
    }
}

/// The outcome of opening a controller for a plan: once open it is kept
/// under the plan's key and the motor is added on it; a failure ends the
/// command with its text and keeps nothing. (Where a controller is already
/// open under the key, it is kept and the new one is not.)
pub fn controller_opened<C>(controllers: &mut ControllerSet<C>, plan: MotorPlan, opened: Result<C, String>) -> (res:
    CommandStep)
    ensures
        match opened {
            Err(e) => final(controllers)@ == old(controllers)@ && res == CommandStep::Finished(
                Err(CommandError::Motor(e)),
            ),
            Ok(c) => if has_controller(old(controllers)@, plan.controller_key@) {
                &&& final(controllers)@ == old(controllers)@
                &&& res matches CommandStep::AddMotor { plan: p, controller: i }
                &&& p == plan
                &&& i < old(controllers)@.len()
                &&& old(controllers)@[i as int].0 == plan.controller_key@
            } else {
                &&& final(controllers)@ == old(controllers)@.push((plan.controller_key@, c))
                &&& res == CommandStep::AddMotor { plan, controller: old(controllers)@.len() as usize }
            },
        },
        keys_distinct(old(controllers)@) ==> keys_distinct(final(controllers)@),
{
    match opened {
        Err(e) => CommandStep::Finished(Err(CommandError::Motor(e))),
        Ok(c) => match controllers.index_of(plan.controller_key.as_str()) {
            Some(i) => CommandStep::AddMotor { plan, controller: i },
            None => {
                let ghost before = controllers@;
                let n = controllers.len();
                let key = plan.controller_key.clone();
                controllers.add(key, c);
                assert(keys_distinct(before) ==> keys_distinct(controllers@)) by {
                    if keys_distinct(before) {
                        assert forall|i: int, j: int| 0 <= i < j < controllers@.len() implies
                            #[trigger] controllers@[i].0 != #[trigger] controllers@[j].0 by {
                            if j == before.len() {
                                assert(controllers@[i] == before[i]);
                            } else {
                                assert(controllers@[i] == before[i]);
                                assert(controllers@[j] == before[j]);
                            }
                        }
                    }
                }
                CommandStep::AddMotor { plan, controller: n }
            },
        },
    }
}

/// The outcome of adding the joint's motor on its controller: the added
/// motor becomes the joint's and the command goes on (see
/// `is_step_after_connect`); a failure ends the command with the failure's
/// text and leaves the joint as it was. The controllers are not touched, so
/// one opened for the motor stays open under its key.
pub fn motor_added<M>(rt: &mut JointRuntime<M>, cmd: &MotorCommand, added: Result<M, String>) -> (res:
    CommandStep)
    ensures
        match added {
            Ok(m) => {
                &&& final(rt).motor == Some(m)
                &&& same_but_motor(*final(rt), *old(rt))
                &&& is_step_after_connect(res, old(rt).profile, *cmd)
            },
            Err(e) => *final(rt) == *old(rt) && res == CommandStep::Finished(
                Err(CommandError::Motor(e)),
            ),
        },
{
    match added {
        Ok(m) => {
            rt.motor = Some(m);
            step_after_connect(&rt.profile, cmd)
        },
        Err(e) => CommandStep::Finished(Err(CommandError::Motor(e))),
    }
}

/// The step after a successful switch to the control mode of `kind` (see
/// `mode_ensured`).
pub open spec fn step_after_mode(cfg: JointConfig, profile: ControlProfile, cmd: MotorCommand, kind: CommandKind) -> CommandStep {
    if targets_position(kind) && position_out_of_range(cfg, given_or_zero(cmd.pos)) {
        CommandStep::Finished(
            Err(CommandError::PositionOutOfRange { min: cfg.pos_limit->0[0], max: cfg.pos_limit->0[1] }),
        )
    } else {
        CommandStep::Send(drive_action(kind, profile, cmd))
    }
}

/// Every command that moves the motor to a target position (MIT, position
/// with velocity limit, force-position) is refused once the motor is in its
/// mode when the target (0.0 where the command gives none) lies below the
/// lower or above the upper end of the joint's position limit; the refusal
/// names the limit's ends and no motor call follows. Within the limit, or
/// with no limit, the command's own motor call follows.
pub proof fn moving_commands_keep_within_the_limit(
    cfg: JointConfig,
    profile: ControlProfile,
    cmd: MotorCommand,
    kind: CommandKind,
)
    requires
        kind == CommandKind::Mit || kind == CommandKind::PosVel || kind == CommandKind::ForcePos,
    ensures
        ({
            let target = match cmd.pos {
                Some(p) => p,
                None => IeeeSingle { bits: 0 },
            };
            match cfg.pos_limit {
                Some(l) => if target.spec_lt(l[0]) || l[1].spec_lt(target) {
                    step_after_mode(cfg, profile, cmd, kind) == CommandStep::Finished(
                        Err(CommandError::PositionOutOfRange { min: l[0], max: l[1] }),
                    )
                } else {
                    step_after_mode(cfg, profile, cmd, kind) is Send
                },
                None => step_after_mode(cfg, profile, cmd, kind) is Send,
            }
        }),
        step_after_mode(cfg, profile, cmd, kind) matches CommandStep::Send(a) ==> a.spec_kind() == kind,
{
}

/// A velocity command has no target position, so the position limit does not
/// refuse it: its motor call follows the mode switch.
pub proof fn velocity_commands_ignore_the_limit(cfg: JointConfig, profile: ControlProfile, cmd: MotorCommand)
    ensures
        step_after_mode(cfg, profile, cmd, CommandKind::Vel) == CommandStep::Send(
            MotorAction::Vel {
                vel: match cmd.vel {
                    Some(v) => v,
                    None => IeeeSingle { bits: 0 },
                },
            },
        ),
{
}

/// The outcome of putting the motor in the control mode of `kind`: a failure
/// ends the command with its text; otherwise a target position outside the
/// joint's limit (0.0 where the command gives none) ends it refused, and any
/// other command goes on to its motor call (see `drive_action`).
pub fn mode_ensured<M>(
    rt: &JointRuntime<M>,
    cmd: &MotorCommand,
    kind: CommandKind,
    outcome: Result<(), String>,
) -> (res: CommandStep)
    ensures
        match outcome {
            Err(e) => res == CommandStep::Finished(Err(CommandError::Motor(e))),
            Ok(()) => if targets_position(kind) && position_out_of_range(
                rt.cfg,
                given_or_zero(cmd.pos),
            ) {
                res == CommandStep::Finished(
                    Err(
                        CommandError::PositionOutOfRange {
                            min: rt.cfg.pos_limit->0[0],
                            max: rt.cfg.pos_limit->0[1],
                        },
                    ),
                )
            } else {
                res == CommandStep::Send(drive_action(kind, rt.profile, *cmd))
            },
        },
        outcome is Ok ==> res == step_after_mode(rt.cfg, rt.profile, *cmd, kind),
{
    match outcome {
        Err(e) => CommandStep::Finished(Err(CommandError::Motor(e))),
        Ok(()) => {
            let moves = match kind {
                CommandKind::Mit | CommandKind::PosVel | CommandKind::ForcePos => true,
                _ => false,
            };
            if moves {
                if let Err(e) = check_position(&rt.cfg, given_or_zero_exec(cmd.pos)) {
                    return CommandStep::Finished(Err(e));
                }
            }
            CommandStep::Send(drive_action_exec(kind, &rt.profile, cmd))
        },
    }
}

/// The outcome of a motor call: carried out, the command takes effect on the
/// joint (enabling sets it enabled; disabling clears that and drops the
/// running command; the others change nothing here); failed, the joint stays
/// as it was and the command ends with the failure's text.
pub fn command_sent<M>(rt: &mut JointRuntime<M>, action: MotorAction, outcome: Result<(), String>) -> (res:
    Result<(), CommandError>)
    ensures
        match outcome {
            Err(e) => *final(rt) == *old(rt) && res == Err::<(), CommandError>(CommandError::Motor(e)),
            Ok(()) => {
                &&& res is Ok
                &&& same_but_drive(*final(rt), *old(rt))
                &&& final(rt).enabled == (match action {
                    MotorAction::Enable => true,
                    MotorAction::Disable => false,
                    _ => old(rt).enabled,
                })
                &&& final(rt).active_cmd == (match action {
                    MotorAction::Disable => None,
                    _ => old(rt).active_cmd,
                })
            },
        },
{
    match outcome {
        Err(e) => Err(CommandError::Motor(e)),
        Ok(()) => {
            rt.command_applied(action.kind());
            Ok(())
        },
    }
}

/// Whether two joints differ at most in their motor.
pub open spec fn same_but_motor<M>(a: JointRuntime<M>, b: JointRuntime<M>) -> bool {
    &&& a.cfg == b.cfg
    &&& a.profile == b.profile
    &&& a.enabled == b.enabled
    &&& a.active_cmd == b.active_cmd
    &&& a.command_count == b.command_count
    &&& a.error_count == b.error_count
    &&& a.last_error == b.last_error
}

/// Whether two joints differ at most in being enabled and in their running
/// command.
pub open spec fn same_but_drive<M>(a: JointRuntime<M>, b: JointRuntime<M>) -> bool {
    &&& a.cfg == b.cfg
    &&& a.profile == b.profile
    &&& a.motor == b.motor
    &&& a.command_count == b.command_count
    &&& a.error_count == b.error_count
    &&& a.last_error == b.last_error
}

/// An emergency stop on one joint: it is disabled, its running command
/// dropped, and an `estop` warning with the reason is the result. (The motor
/// itself is disabled by the caller, just before.)
pub fn estop_joint<M>(rt: &mut JointRuntime<M>, reason: &str, ts_millis: i64) -> (res: JointEvent)
    ensures
        !final(rt).enabled,
        final(rt).active_cmd is None,
        same_but_drive(*final(rt), *old(rt)),
        is_event(res, *old(rt), "warn"@, "estop"@, reason@, ts_millis),
{
    rt.enabled = false;
    rt.active_cmd = None;
    json_event(rt, "warn", "estop", reason, ts_millis)
}

/// An emergency stop on every joint, in order (see `estop_joint`).
pub fn engage_estop<M>(runtimes: &mut Vec<JointRuntime<M>>, reason: &str, ts_millis: i64) -> (res:
    Vec<JointEvent>)
    ensures
        final(runtimes)@.len() == old(runtimes)@.len(),
        res@.len() == old(runtimes)@.len(),
        forall|i: int|
            0 <= i < final(runtimes)@.len() ==> !(#[trigger] final(runtimes)@[i]).enabled
                && final(runtimes)@[i].active_cmd is None && same_but_drive(
                final(runtimes)@[i],
                old(runtimes)@[i],
            ) && is_event(res@[i], old(runtimes)@[i], "warn"@, "estop"@, reason@, ts_millis),
{
    let n = runtimes.len();
    let mut events: Vec<JointEvent> = Vec::new();
    let mut i: usize = 0;
    while i < n
        invariant
            i <= n,
            n == runtimes@.len(),
            runtimes@.len() == old(runtimes)@.len(),
            events@.len() == i,
            forall|k: int|
                0 <= k < i ==> !(#[trigger] runtimes@[k]).enabled && runtimes@[k].active_cmd is None
                    && same_but_drive(runtimes@[k], old(runtimes)@[k]) && is_event(
                    events@[k],
                    old(runtimes)@[k],
                    "warn"@,
                    "estop"@,
                    reason@,
                    ts_millis,
                ),
            forall|k: int| i <= k < n ==> #[trigger] runtimes@[k] == old(runtimes)@[k],
        decreases n - i,
    {
        let e = estop_joint(&mut runtimes[i], reason, ts_millis);
        events.push(e);
        i = i + 1;
    }
    events
}

/// Whether the heartbeat watchdog trips: no command for longer than the
/// timeout, the joint enabled, and a strategy other than `hold`.
pub open spec fn watchdog_trips(
    elapsed_nanos: u128,
    timeout_ms: u64,
    enabled: bool,
    strategy: Seq<char>,
) -> bool {
    elapsed_nanos > timeout_ms as int * 1_000_000 && enabled && strategy != "hold"@
}

/// The heartbeat watchdog: when it trips (see `watchdog_trips`; the time is
/// that since the last command, in nanoseconds) the joint is disabled, its
/// running command dropped, and a `watchdog` warning is the result.
pub fn enforce_watchdog<M>(
    rt: &mut JointRuntime<M>,
    elapsed_nanos: u128,
    timeout_ms: u64,
    strategy: &str,
    ts_millis: i64,
) -> (res: Option<JointEvent>)
    ensures
        res is Some == watchdog_trips(elapsed_nanos, timeout_ms, old(rt).enabled, strategy@),
        res matches Some(e) ==> {
            &&& !final(rt).enabled
            &&& final(rt).active_cmd is None
            &&& is_event(e, *old(rt), "warn"@, "watchdog"@, "heartbeat timeout; motor disabled"@, ts_millis)
        },
        res is None ==> *final(rt) == *old(rt),
        same_but_drive(*final(rt), *old(rt)),
{
    let limit: u128 = (timeout_ms as u128) * 1_000_000;
    if elapsed_nanos > limit && rt.enabled && !str_eq(strategy, "hold") {
        rt.enabled = false;
        rt.active_cmd = None;
        Some(json_event(rt, "warn", "watchdog", "heartbeat timeout; motor disabled", ts_millis))
    } else {
        None
    }
}

/// An event about one joint, as published on its event topic.
pub struct JointEvent {
    pub level: String,
    pub kind: String,
    pub message: String,
    pub joint_name: String,
    pub motor_id: u16,
    pub feedback_id: u16,
    pub ts_millis: i64,
}

/// Whether `e` is the event `kind` at `level` with `message` about a joint at
/// a time.
pub open spec fn is_event<M>(
    e: JointEvent,
    rt: JointRuntime<M>,
    level: Seq<char>,
    kind: Seq<char>,
    message: Seq<char>,
    ts_millis: i64,
) -> bool {
    &&& e.level@ == level
    &&& e.kind@ == kind
    &&& e.message@ == message
    &&& e.joint_name@ == rt.cfg.joint_name@
    &&& e.motor_id == rt.cfg.motor_id
    &&& e.feedback_id == feedback_id_of(rt.cfg)
    &&& e.ts_millis == ts_millis
}

/// The event `kind` at `level` with `message`, about a joint, at a time.
pub fn json_event<M>(
    rt: &JointRuntime<M>,
    level: &str,
    kind: &str,
    message: &str,
    ts_millis: i64,
) -> (res: JointEvent)
    ensures
        is_event(res, *rt, level@, kind@, message@, ts_millis),
{
    JointEvent {
        level: level.to_owned(),
        kind: kind.to_owned(),
        message: message.to_owned(),
        joint_name: rt.cfg.joint_name.clone(),
        motor_id: rt.cfg.motor_id,
        feedback_id: feedback_id(&rt.cfg),
        ts_millis,
    }
}

/// The report of a command's outcome, as published on the joint's event
/// topic.
pub struct CommandEvent {
    pub level: String,
    pub kind: String,
    pub joint_name: String,
    pub request_id: Option<String>,
    pub op: String,
    pub ok: bool,
    pub error: Option<String>,
    pub enabled: bool,
    pub command_count: u64,
    pub error_count: u64,
    pub ts_millis: i64,
}

/// The strings of an optional string.
pub open spec fn opt_view(o: Option<String>) -> Option<Seq<char>> {
    match o {
        Some(s) => Some(s@),
        None => None,
    }
}

fn clone_opt(o: &Option<String>) -> (res: Option<String>)
    ensures
        opt_view(res) == opt_view(*o),
{
    match o {
        Some(s) => Some(s.clone()),
        None => None,
    }
}

/// Whether `e` reports a command's outcome for a joint as it stands.
pub open spec fn is_command_event<M>(
    e: CommandEvent,
    rt: JointRuntime<M>,
    level: Seq<char>,
    kind: Seq<char>,
    cmd: MotorCommand,
    ok: bool,
    error: Option<Seq<char>>,
    ts_millis: i64,
) -> bool {
    &&& e.level@ == level
    &&& e.kind@ == kind
    &&& e.joint_name@ == rt.cfg.joint_name@
    &&& opt_view(e.request_id) == opt_view(cmd.request_id)
    &&& e.op@ == cmd.op@
    &&& e.ok == ok
    &&& opt_view(e.error) == error
    &&& e.enabled == rt.enabled
    &&& e.command_count == rt.command_count
    &&& e.error_count == rt.error_count
    &&& e.ts_millis == ts_millis
}

/// The report of a command's outcome: the command's request id and op, and
/// the joint's state and counters as they stand.
pub fn command_event<M>(
    rt: &JointRuntime<M>,
    level: &str,
    kind: &str,
    cmd: &MotorCommand,
    ok: bool,
    error: Option<&str>,
    ts_millis: i64,
) -> (res: CommandEvent)
    ensures
        is_command_event(
            res,
            *rt,
            level@,
            kind@,
            *cmd,
            ok,
            match error {
                Some(e) => Some(e@),
                None => None,
            },
            ts_millis,
        ),
{
    CommandEvent {
        level: level.to_owned(),
        kind: kind.to_owned(),
        joint_name: rt.cfg.joint_name.clone(),
        request_id: clone_opt(&cmd.request_id),
        op: cmd.op.clone(),
        ok,
        error: match error {
            Some(e) => Some(e.to_owned()),
            None => None,
        },
        enabled: rt.enabled,
        command_count: rt.command_count,
        error_count: rt.error_count,
        ts_millis,
    }
}

/// Where a command was read from.
#[derive(Clone, Copy, Debug, PartialEq, Eq, Structural)]
pub enum CommandSource {
    Typed,
    Json,
}

/// What is published after a command: a command report, or a plain event.
pub enum CommandReport {
    Command(CommandEvent),
    Joint(JointEvent),
}

/// What a command's outcome does. Carried out: the command is counted and
/// kept running when continuous (see `record_command_success`), and an
/// `info`/`command_applied` report follows. Failed with a message: the error
/// is counted and kept (see `record_command_failure`), and an
/// `error`/`command_failed` report with the message follows: a command report
/// for a JSON command, a plain event for a typed one. Reports show the joint as
/// it stands after the counting.
pub fn finish_command<M>(
    rt: &mut JointRuntime<M>,
    cmd: MotorCommand,
    outcome: Result<(), String>,
    source: CommandSource,
    ts_millis: i64,
) -> (res: CommandReport)
    requires
        outcome is Ok ==> old(rt).command_count < u64::MAX,
        outcome is Err ==> old(rt).error_count < u64::MAX,
    ensures
        final(rt).cfg == old(rt).cfg,
        final(rt).profile == old(rt).profile,
        final(rt).motor == old(rt).motor,
        final(rt).enabled == old(rt).enabled,
        outcome is Ok ==> {
            &&& final(rt).command_count == old(rt).command_count + 1
            &&& final(rt).active_cmd == (if cmd.continuous == Some(true) {
                Some(cmd)
            } else {
                None::<MotorCommand>
            })
            &&& final(rt).error_count == old(rt).error_count
            &&& final(rt).last_error == old(rt).last_error
            &&& res matches CommandReport::Command(e) && is_command_event(
                e,
                *final(rt),
                "info"@,
                "command_applied"@,
                cmd,
                true,
                None,
                ts_millis,
            )
        },
        outcome matches Err(m) ==> {
            &&& final(rt).error_count == old(rt).error_count + 1
            &&& final(rt).last_error == Some(m)
            &&& final(rt).command_count == old(rt).command_count
            &&& final(rt).active_cmd == old(rt).active_cmd
            &&& source == CommandSource::Json ==> (res matches CommandReport::Command(e)
                && is_command_event(
                e,
                *final(rt),
                "error"@,
                "command_failed"@,
                cmd,
                false,
                Some(m@),
                ts_millis,
            ))
            &&& source == CommandSource::Typed ==> (res matches CommandReport::Joint(e)
                && is_event(e, *final(rt), "error"@, "command_failed"@, m@, ts_millis))
        },
{
    match outcome {
        Ok(()) => {
            rt.command_count = rt.command_count + 1;
            let e = command_event(rt, "info", "command_applied", &cmd, true, None, ts_millis);
            let continuous = match cmd.continuous {
                Some(c) => c,
                None => false,
            };
            if continuous {
                rt.active_cmd = Some(cmd);
            } else {
                rt.active_cmd = None;
            }
            CommandReport::Command(e)
        },
        Err(m) => {
            let msg = m.clone();
            rt.error_count = rt.error_count + 1;
            rt.last_error = Some(m);
            match source {
                CommandSource::Json => CommandReport::Command(
                    command_event(
                        rt,
                        "error",
                        "command_failed",
                        &cmd,
                        false,
                        Some(msg.as_str()),
                        ts_millis,
                    ),
                ),
                CommandSource::Typed => CommandReport::Joint(
                    json_event(rt, "error", "command_failed", msg.as_str(), ts_millis),
                ),
            }
        },
    }
}

/// A JSON command that could not be read: the error is counted and kept
/// as `json parse error: ` followed by the reader's message, and a
/// `parse_error` event with that text follows.
pub fn json_parse_failed<M>(rt: &mut JointRuntime<M>, detail: &str, ts_millis: i64) -> (res:
    JointEvent)
    requires
        old(rt).error_count < u64::MAX,
    ensures
        final(rt).error_count == old(rt).error_count + 1,
        final(rt).last_error matches Some(m) && m@ == "json parse error: "@ + detail@,
        final(rt).cfg == old(rt).cfg,
        final(rt).profile == old(rt).profile,
        final(rt).motor == old(rt).motor,
        final(rt).enabled == old(rt).enabled,
        final(rt).active_cmd == old(rt).active_cmd,
        final(rt).command_count == old(rt).command_count,
        is_event(res, *old(rt), "error"@, "parse_error"@, "json parse error: "@ + detail@, ts_millis),
{
    let msg = concat("json parse error: ", detail);
    let e = json_event(rt, "error", "parse_error", msg.as_str(), ts_millis);
    rt.error_count = rt.error_count + 1;
    rt.last_error = Some(msg);
    e
}

/// The event that a joint's motor has been added.
pub fn motor_added_event<M>(rt: &JointRuntime<M>, ts_millis: i64) -> (res: JointEvent)
    ensures
        is_event(res, *rt, "info"@, "motor_added"@, "motorbridge ABI motor handle ready"@, ts_millis),
{
    json_event(rt, "info", "motor_added", "motorbridge ABI motor handle ready", ts_millis)
}

/// The warning that a joint's motor has sent no feedback yet.
pub fn no_feedback_event<M>(rt: &JointRuntime<M>, ts_millis: i64) -> (res: JointEvent)
    ensures
        is_event(
            res,
            *rt,
            "warn"@,
            "no_feedback"@,
            "no feedback yet; check channel, bitrate, wiring, termination, power, and feedback id"@,
            ts_millis,
        ),
{
    json_event(
        rt,
        "warn",
        "no_feedback",
        "no feedback yet; check channel, bitrate, wiring, termination, power, and feedback id",
        ts_millis,
    )
}

/// One joint's entry in the bridge status.
pub struct JointStatus {
    pub joint_name: String,
    /// The vendor as configured, `damiao` where none is.
    pub vendor: String,
    pub transport: String,
    pub bus_interface: String,
    pub motor_id: u16,
    pub feedback_id: u16,
    pub enabled: bool,
    pub connected: bool,
    /// The op of the running command.
    pub active_command: Option<String>,
    pub command_count: u64,
    pub error_count: u64,
    pub last_error: Option<String>,
    pub last_cmd_age_ms: u64,
}

/// Whether a status entry reports a joint whose last command is
/// `last_cmd_age_ms` old.
pub open spec fn is_joint_status<M>(s: JointStatus, rt: JointRuntime<M>, last_cmd_age_ms: u64) -> bool {
    &&& s.joint_name@ == rt.cfg.joint_name@
    &&& s.vendor@ == joint_vendor(rt.cfg)
    &&& s.transport@ == effective_transport_of(rt.cfg)
    &&& s.bus_interface@ == rt.cfg.bus_interface@
    &&& s.motor_id == rt.cfg.motor_id
    &&& s.feedback_id == feedback_id_of(rt.cfg)
    &&& s.enabled == rt.enabled
    &&& s.connected == rt.motor is Some
    &&& opt_view(s.active_command) == (match rt.active_cmd {
        Some(c) => Some(c.op@),
        None => None,
    })
    &&& s.command_count == rt.command_count
    &&& s.error_count == rt.error_count
    &&& opt_view(s.last_error) == opt_view(rt.last_error)
    &&& s.last_cmd_age_ms == last_cmd_age_ms
}

/// A status entry reports its own joint: its name, whether it is enabled
/// and connected, how many commands it has carried out and how many failed
/// (each count in its own field), its last error and the age of its last
/// command.
pub proof fn status_entry_reports_its_joint<M>(s: JointStatus, rt: JointRuntime<M>, last_cmd_age_ms: u64)
    requires
        is_joint_status(s, rt, last_cmd_age_ms),
    ensures
        s.joint_name@ == rt.cfg.joint_name@,
        s.enabled == rt.enabled,
        s.connected == rt.motor is Some,
        s.command_count == rt.command_count,
        s.error_count == rt.error_count,
        s.last_error is Some == rt.last_error is Some,
        s.last_cmd_age_ms == last_cmd_age_ms,
        s.motor_id == rt.cfg.motor_id,
{
}

/// A joint's entry in the bridge status.
pub fn joint_status<M>(rt: &JointRuntime<M>, last_cmd_age_ms: u64) -> (res: JointStatus)
    ensures
        is_joint_status(res, *rt, last_cmd_age_ms),
        res.joint_name@ == rt.cfg.joint_name@,
        res.enabled == rt.enabled,
        res.connected == rt.motor is Some,
        res.command_count == rt.command_count,
        res.error_count == rt.error_count,
        res.last_cmd_age_ms == last_cmd_age_ms,
{
    JointStatus {
        joint_name: rt.cfg.joint_name.clone(),
        vendor: match &rt.cfg.vendor {
            Some(v) => v.clone(),
            None => "damiao".to_owned(),
        },
        transport: effective_transport(rt),
        bus_interface: rt.cfg.bus_interface.clone(),
        motor_id: rt.cfg.motor_id,
        feedback_id: feedback_id(&rt.cfg),
        enabled: rt.enabled,
        connected: rt.motor.is_some(),
        active_command: match &rt.active_cmd {
            Some(c) => Some(c.op.clone()),
            None => None,
        },
        command_count: rt.command_count,
        error_count: rt.error_count,
        last_error: clone_opt(&rt.last_error),
        last_cmd_age_ms,
    }
}


/// The motor whose feedback a state report asks for and reads: the joint's,
/// where it has one. A joint without a motor asks for nothing.
pub fn motor_to_poll<M>(rt: &JointRuntime<M>) -> (res: Option<&M>)
    ensures
        res is Some <==> rt.motor is Some,
        res matches Some(m) ==> rt.motor == Some(*m),
{
    match &rt.motor {
        Some(m) => Some(m),
        None => None,
    }
}

/// The state a joint publishes: its name, whether it is enabled, the
/// readings (position, velocity and torque already scaled by the joint's
/// direction and offset), the status code and its name, at a time.
pub fn motor_state_report<M>(
    rt: &JointRuntime<M>,
    pos: IeeeSingle,
    vel: IeeeSingle,
    torque: IeeeSingle,
    t_mos: IeeeSingle,
    t_rotor: IeeeSingle,
    status_code: u8,
    ts_millis: i64,
) -> (res: MotorState)
    ensures
        res.joint_name@ == rt.cfg.joint_name@,
        res.enabled == rt.enabled,
        res.pos == Some(pos),
        res.vel == Some(vel),
        res.torque == Some(torque),
        res.t_mos == Some(t_mos),
        res.t_rotor == Some(t_rotor),
        res.status_code == Some(status_code),
        res.status_name is Some <==> status_code == 0,
        res.status_name matches Some(n) ==> n@ == "ok"@,
        res.ts_millis == ts_millis,
{
    let name = match status_name(status_code) {
        Some(n) => Some(n.to_owned()),
        None => None,
    };
    MotorState {
        joint_name: rt.cfg.joint_name.clone(),
        enabled: rt.enabled,
        pos: Some(pos),
        vel: Some(vel),
        torque: Some(torque),
        t_mos: Some(t_mos),
        t_rotor: Some(t_rotor),
        status_code: Some(status_code),
        status_name: name,
        ts_millis,
    }
}

/// Human-readable name of a motor status code, where one is known.
pub fn status_name(code: u8) -> (res: Option<&'static str>)
    ensures
        res is Some <==> code == 0,
        res matches Some(s) ==> s@ == "ok"@,
{
    if code == 0 {
        Some("ok")
    } else {
        None
    }
}


/// The vendor names and transport names that the ABI knows are canonical.
proof fn lemma_known_names_canonical(n: Seq<char>)
    requires
        vendor_of(n) is Some || backend_of(n) is Some,
    ensures
        is_canonical_name(n),
{
    reveal_strlit("damiao");
    reveal_strlit("robstride");
    reveal_strlit("myactuator");
    reveal_strlit("hexfellow");
    reveal_strlit("hightorque");
    reveal_strlit("socketcan");
    reveal_strlit("can");
    reveal_strlit("auto");
    reveal_strlit("socketcanfd");
    reveal_strlit("canfd");
    reveal_strlit("dmserial");
    reveal_strlit("serial");
}

/// Every joint of an accepted manifest can be connected: the transport it
/// ends up with (`effective_transport`) opens a controller, and its
/// normalised vendor adds a motor, when handed to `new_controller` and
/// `add_motor`, which normalise them again.
pub proof fn accepted_joints_can_connect(m: crate::config::Manifest, i: int)
    requires
        manifest_problem(m) is None,
        0 <= i < m.joints@.len(),
    ensures
        backend_of(normalize_name(effective_transport_of(m.joints@[i]))) is Some,
        vendor_of(normalize_name(vendor_key(m.joints@[i]))) is Some,
{
    crate::manifest_tools::accepted_manifest_is_consistent(m);
    let j = m.joints@[i];
    lemma_known_names_canonical(vendor_key(j));
    normalize_canonical_name(vendor_key(j));
    match j.transport {
        Some(t) => {
            lemma_known_names_canonical(normalize_name(t@));
            normalize_canonical_name(normalize_name(t@));
        },
        None => {
            reveal_strlit("socketcan");
            reveal_strlit("socketcanfd");
            reveal_strlit("can");
            reveal_strlit("auto");
            let e = effective_transport_of(j);
            assert(backend_of(e) is Some);
            lemma_known_names_canonical(e);
            normalize_canonical_name(e);
        },
    }
}

/// The command names: each op, in either spelling where it has two, selects
/// its command, and no other op selects one.
pub proof fn op_names_select_commands(op: Seq<char>)
    ensures
        op == "enable"@ <==> command_kind_of(op) == Some(CommandKind::Enable),
        op == "disable"@ <==> command_kind_of(op) == Some(CommandKind::Disable),
        (op == "clear_error"@ || op == "clear-error"@) <==> command_kind_of(op) == Some(
            CommandKind::ClearError,
        ),
        (op == "set_zero"@ || op == "set-zero"@ || op == "set_zero_position"@ || op
            == "set-zero-position"@) <==> command_kind_of(op) == Some(CommandKind::SetZeroPosition),
        (op == "store_parameters"@ || op == "store-parameters"@ || op == "save_parameters"@ || op
            == "save-parameters"@) <==> command_kind_of(op) == Some(CommandKind::StoreParameters),
        op == "mit"@ <==> command_kind_of(op) == Some(CommandKind::Mit),
        (op == "pos_vel"@ || op == "pos-vel"@) <==> command_kind_of(op) == Some(CommandKind::PosVel),
        op == "vel"@ <==> command_kind_of(op) == Some(CommandKind::Vel),
        (op == "force_pos"@ || op == "force-pos"@) <==> command_kind_of(op) == Some(
            CommandKind::ForcePos,
        ),
{
    reveal_strlit("enable");
    reveal_strlit("disable");
    reveal_strlit("clear_error");
    reveal_strlit("clear-error");
    reveal_strlit("set_zero");
    reveal_strlit("set-zero");
    reveal_strlit("set_zero_position");
    reveal_strlit("set-zero-position");
    reveal_strlit("store_parameters");
    reveal_strlit("store-parameters");
    reveal_strlit("save_parameters");
    reveal_strlit("save-parameters");
    reveal_strlit("mit");
    reveal_strlit("pos_vel");
    reveal_strlit("pos-vel");
    reveal_strlit("vel");
    reveal_strlit("force_pos");
    reveal_strlit("force-pos");
    assert("enable"@.len() == 6);
    assert("disable"@.len() == 7);
    assert("clear_error"@.len() == 11);
    assert("clear-error"@.len() == 11);
    assert("set_zero"@.len() == 8);
    assert("set-zero"@.len() == 8);
    assert("set_zero_position"@.len() == 17);
    assert("set-zero-position"@.len() == 17);
    assert("store_parameters"@.len() == 16);
    assert("store-parameters"@.len() == 16);
    assert("save_parameters"@.len() == 15);
    assert("save-parameters"@.len() == 15);
    assert("mit"@.len() == 3);
    assert("pos_vel"@.len() == 7);
    assert("pos-vel"@.len() == 7);
    assert("vel"@.len() == 3);
    assert("force_pos"@.len() == 9);
    assert("force-pos"@.len() == 9);
    assert("disable"@[0] != "pos_vel"@[0]);
    assert("disable"@[0] != "pos-vel"@[0]);
    assert("mit"@[0] != "vel"@[0]);
}

/// Once the joint has its motor, a command that drives it first switches
/// the motor to its control mode, waiting up to 200 ms: MIT to mode 1,
/// position with velocity limit to 2, velocity to 3, force-position to 4.
/// The other commands make their motor call at once.
pub proof fn driving_commands_switch_mode_first(s: CommandStep, profile: ControlProfile, cmd: MotorCommand)
    requires
        is_step_after_connect(s, profile, cmd),
    ensures
        command_kind_of(cmd.op@) == Some(CommandKind::Mit) ==> s == (CommandStep::EnsureMode {
            kind: CommandKind::Mit,
            mode: 1,
            timeout_ms: 200,
        }),
        command_kind_of(cmd.op@) == Some(CommandKind::PosVel) ==> s == (CommandStep::EnsureMode {
            kind: CommandKind::PosVel,
            mode: 2,
            timeout_ms: 200,
        }),
        command_kind_of(cmd.op@) == Some(CommandKind::Vel) ==> s == (CommandStep::EnsureMode {
            kind: CommandKind::Vel,
            mode: 3,
            timeout_ms: 200,
        }),
        command_kind_of(cmd.op@) == Some(CommandKind::ForcePos) ==> s == (CommandStep::EnsureMode {
            kind: CommandKind::ForcePos,
            mode: 4,
            timeout_ms: 200,
        }),
        command_kind_of(cmd.op@) == Some(CommandKind::Enable) ==> s == CommandStep::Send(MotorAction::Enable),
        command_kind_of(cmd.op@) == Some(CommandKind::Disable) ==> s == CommandStep::Send(MotorAction::Disable),
        command_kind_of(cmd.op@) == Some(CommandKind::ClearError) ==> s == CommandStep::Send(
            MotorAction::ClearError,
        ),
        command_kind_of(cmd.op@) == Some(CommandKind::SetZeroPosition) ==> s == CommandStep::Send(
            MotorAction::SetZeroPosition,
        ),
        command_kind_of(cmd.op@) == Some(CommandKind::StoreParameters) ==> s == CommandStep::Send(
            MotorAction::StoreParameters,
        ),
        command_kind_of(cmd.op@) is None ==> (s matches CommandStep::Finished(
            Err(CommandError::UnsupportedOp { op }),
        ) && op@ == cmd.op@),
{
}

/// The parameters of a motor call: targets as the command gives them, 0.0
/// where it gives none; `kp` and `kd` from the command, else the profile,
/// else 0.05 and 0.005; the velocity limit from the command, else the
/// profile's maximum velocity, else 3.0; the force ratio from the command,
/// else 0.3 (all as IEEE 754 single bits).
pub proof fn motor_call_parameters(profile: ControlProfile, cmd: MotorCommand)
    ensures
        ({
            let zero = IeeeSingle { bits: 0 };
            let pos = match cmd.pos { Some(x) => x, None => zero };
            let vel = match cmd.vel { Some(x) => x, None => zero };
            let tau = match cmd.tau { Some(x) => x, None => zero };
            let kp = match cmd.kp {
                Some(x) => x,
                None => match profile.kp { Some(y) => y, None => IeeeSingle { bits: 0x3d4c_cccd } },
            };
            let kd = match cmd.kd {
                Some(x) => x,
                None => match profile.kd { Some(y) => y, None => IeeeSingle { bits: 0x3ba3_d70a } },
            };
            let vlim = match cmd.vlim {
                Some(x) => x,
                None => match profile.max_velocity {
                    Some(y) => y,
                    None => IeeeSingle { bits: 0x4040_0000 },
                },
            };
            let ratio = match cmd.ratio { Some(x) => x, None => IeeeSingle { bits: 0x3e99_999a } };
            &&& drive_action(CommandKind::Mit, profile, cmd) == (MotorAction::Mit { pos, vel, kp, kd, tau })
            &&& drive_action(CommandKind::PosVel, profile, cmd) == (MotorAction::PosVel { pos, vlim })
            &&& drive_action(CommandKind::Vel, profile, cmd) == (MotorAction::Vel { vel })
            &&& drive_action(CommandKind::ForcePos, profile, cmd) == (MotorAction::ForcePos { pos, vlim, ratio })
            &&& drive_action(CommandKind::Enable, profile, cmd) == MotorAction::Enable
            &&& drive_action(CommandKind::Disable, profile, cmd) == MotorAction::Disable
            &&& drive_action(CommandKind::ClearError, profile, cmd) == MotorAction::ClearError
            &&& drive_action(CommandKind::SetZeroPosition, profile, cmd) == MotorAction::SetZeroPosition
            &&& drive_action(CommandKind::StoreParameters, profile, cmd) == MotorAction::StoreParameters
        }),
{
}

/// How a joint reaches its motor by default: feedback comes from the
/// configured feedback id, else the motor id; a configured transport is
/// used normalised, otherwise hexfellow motors use `socketcanfd` and the
/// others `socketcan`; without a configured model, robstride motors are
/// `rs-00`, myactuator `X8`, hightorque and hexfellow their vendor's name,
/// and any other `4340P`.
pub proof fn joint_connection_defaults(cfg: JointConfig, vendor: Seq<char>)
    ensures
        feedback_id_of(cfg) == (match cfg.feedback_id { Some(f) => f, None => cfg.motor_id }),
        cfg.transport matches Some(t) ==> effective_transport_of(cfg) == normalize_name(t@),
        cfg.transport is None ==> effective_transport_of(cfg) == (if normalize_name(
            match cfg.vendor { Some(v) => v@, None => "damiao"@ },
        ) == "hexfellow"@ {
            "socketcanfd"@
        } else {
            "socketcan"@
        }),
        cfg.model matches Some(m) ==> effective_model_of(cfg, vendor) == m@,
        cfg.model is None ==> effective_model_of(cfg, vendor) == (if vendor == "robstride"@ {
            "rs-00"@
        } else if vendor == "myactuator"@ {
            "X8"@
        } else if vendor == "hightorque"@ || vendor == "hexfellow"@ {
            vendor
        } else {
            "4340P"@
        }),
{
}

/// The heartbeat watchdog never trips for a disabled joint, under the `hold`
/// strategy, or before the timeout has passed; it trips for an enabled joint
/// under any other strategy once more than the timeout has passed since the
/// last command.
pub proof fn watchdog_trips_only_when_overdue(
    elapsed_nanos: u128,
    timeout_ms: u64,
    enabled: bool,
    strategy: Seq<char>,
)
    ensures
        !enabled ==> !watchdog_trips(elapsed_nanos, timeout_ms, enabled, strategy),
        strategy == "hold"@ ==> !watchdog_trips(elapsed_nanos, timeout_ms, enabled, strategy),
        elapsed_nanos <= timeout_ms as int * 1_000_000 ==> !watchdog_trips(
            elapsed_nanos,
            timeout_ms,
            enabled,
            strategy,
        ),
        (enabled && strategy != "hold"@ && elapsed_nanos > timeout_ms as int * 1_000_000)
            ==> watchdog_trips(elapsed_nanos, timeout_ms, enabled, strategy),
{
}

/// An event names its own joint, motor and feedback id (the motor id where
/// no feedback id is configured), and carries its level, kind, message and
/// time as given.
pub proof fn events_name_their_joint<M>(
    e: JointEvent,
    rt: JointRuntime<M>,
    level: Seq<char>,
    kind: Seq<char>,
    message: Seq<char>,
    ts_millis: i64,
)
    requires
        is_event(e, rt, level, kind, message, ts_millis),
    ensures
        e.level@ == level,
        e.kind@ == kind,
        e.message@ == message,
        e.joint_name@ == rt.cfg.joint_name@,
        e.motor_id == rt.cfg.motor_id,
        e.feedback_id == (match rt.cfg.feedback_id { Some(f) => f, None => rt.cfg.motor_id }),
        e.ts_millis == ts_millis,
{
}

/// A command report carries the command's op and request id, whether it was
/// carried out and its error, and the joint's name, enabled state and its
/// two counters, each in its own field.
pub proof fn command_reports_carry_the_command<M>(
    e: CommandEvent,
    rt: JointRuntime<M>,
    level: Seq<char>,
    kind: Seq<char>,
    cmd: MotorCommand,
    ok: bool,
    error: Option<Seq<char>>,
    ts_millis: i64,
)
    requires
        is_command_event(e, rt, level, kind, cmd, ok, error, ts_millis),
    ensures
        e.level@ == level,
        e.kind@ == kind,
        e.op@ == cmd.op@,
        e.request_id is Some == cmd.request_id is Some,
        e.request_id matches Some(r) ==> r@ == cmd.request_id->0@,
        e.ok == ok,
        e.error is Some == error is Some,
        e.error matches Some(m) ==> m@ == error->0,
        e.joint_name@ == rt.cfg.joint_name@,
        e.enabled == rt.enabled,
        e.command_count == rt.command_count,
        e.error_count == rt.error_count,
        e.ts_millis == ts_millis,
{
}

/// The plan for reaching a joint's motor: the vendor normalised (`damiao`
/// where none is configured), the controller keyed by vendor, transport and
/// bus joined with `:`, the bus as endpoint, and the joint's own motor id,
/// feedback id (its motor id where none is configured) and serial baud.
pub proof fn motor_plans_follow_the_joint(p: MotorPlan, cfg: JointConfig)
    requires
        is_motor_plan(p, cfg),
    ensures
        p.vendor@ == normalize_name(match cfg.vendor { Some(v) => v@, None => "damiao"@ }),
        p.transport@ == effective_transport_of(cfg),
        p.controller_key@ == p.vendor@ + ":"@ + p.transport@ + ":"@ + cfg.bus_interface@,
        p.endpoint@ == cfg.bus_interface@,
        p.motor_id == cfg.motor_id,
        p.feedback_id == (match cfg.feedback_id { Some(f) => f, None => cfg.motor_id }),
        p.serial_baud == cfg.serial_baud,
        p.model@ == effective_model_of(cfg, p.vendor@),
{
}

/// A joint without a motor opens a controller exactly when none is open
/// under its key (vendor, transport and bus joined with `:`); otherwise its
/// motor is added on the controller open under that key.
pub proof fn controllers_are_shared_by_key<C>(s: CommandStep, cfg: JointConfig, set: Seq<(Seq<char>, C)>)
    requires
        is_connect_step(s, cfg, set),
    ensures
        ({
            let key = vendor_key(cfg) + ":"@ + effective_transport_of(cfg) + ":"@ + cfg.bus_interface@;
            &&& s is OpenController || s is AddMotor
            &&& s is OpenController <==> !(exists|i: int| 0 <= i < set.len() && #[trigger] set[i].0 == key)
            &&& s matches CommandStep::AddMotor { controller, .. } ==> controller < set.len()
                && set[controller as int].0 == key
        }),
{
    let key = vendor_key(cfg) + ":"@ + effective_transport_of(cfg) + ":"@ + cfg.bus_interface@;
    if let CommandStep::AddMotor { plan, controller } = s {
        assert(set[controller as int].0 == key);
    }
}

/// What the step functions keep of a joint: `same_but_motor` leaves all but
/// the motor as it was, `same_but_drive` all but being enabled and the
/// running command.
pub proof fn kept_state_is_kept<M>(a: JointRuntime<M>, b: JointRuntime<M>)
    ensures
        same_but_motor(a, b) ==> a.cfg == b.cfg && a.profile == b.profile && a.enabled == b.enabled
            && a.active_cmd == b.active_cmd && a.command_count == b.command_count && a.error_count
            == b.error_count && a.last_error == b.last_error,
        same_but_drive(a, b) ==> a.cfg == b.cfg && a.profile == b.profile && a.motor == b.motor
            && a.command_count == b.command_count && a.error_count == b.error_count && a.last_error
            == b.last_error,
{
}

} // verus!
