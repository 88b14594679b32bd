//! Checking a manifest before the bridge starts, and the topic names that a
//! manifest gives rise to.

use vstd::prelude::*;
use crate::abi::{backend_from_normalized, backend_of, normalize_transport, normalize_vendor, vendor_from_normalized, vendor_of};
use crate::config::{JointConfig, Manifest};
use crate::text::{strip_ignores_added_ends, concat, normalize_name, push_char, str_eq, strip, trim, trim_char, trim_str};
use crate::types::IeeeSingle;

verus! {

/// Why a manifest is refused.
#[derive(Debug)]
pub enum ManifestError {
    NoJoints,
    NoControlProfiles,
    EmptyJointName,
    DuplicateJointName { joint: String },
    MissingProfile { joint: String, profile: String },
    /// `vendor` is the name as written, empty where the manifest gives none.
    UnsupportedVendor { joint: String, vendor: String },
    UnsupportedTransport { joint: String, transport: String },
    InvalidPosLimit { joint: String, min: IeeeSingle, max: IeeeSingle },
    InvalidDirection { joint: String },
}

/// `ManifestError` with its strings taken by their characters.
pub enum ManifestErrorView {
    NoJoints,
    NoControlProfiles,
    EmptyJointName,
    DuplicateJointName { joint: Seq<char> },
    MissingProfile { joint: Seq<char>, profile: Seq<char> },
    UnsupportedVendor { joint: Seq<char>, vendor: Seq<char> },
    UnsupportedTransport { joint: Seq<char>, transport: Seq<char> },
    InvalidPosLimit { joint: Seq<char>, min: IeeeSingle, max: IeeeSingle },
    InvalidDirection { joint: Seq<char> },
}

impl View for ManifestError {
    type V = ManifestErrorView;

    open spec fn view(&self) -> ManifestErrorView {
        match self {
            ManifestError::NoJoints => ManifestErrorView::NoJoints,
            ManifestError::NoControlProfiles => ManifestErrorView::NoControlProfiles,
            ManifestError::EmptyJointName => ManifestErrorView::EmptyJointName,
            ManifestError::DuplicateJointName { joint } => ManifestErrorView::DuplicateJointName {
                joint: joint@,
            },
            ManifestError::MissingProfile { joint, profile } => ManifestErrorView::MissingProfile {
                joint: joint@,
                profile: profile@,
            },
            ManifestError::UnsupportedVendor { joint, vendor } =>
                ManifestErrorView::UnsupportedVendor { joint: joint@, vendor: vendor@ },
            ManifestError::UnsupportedTransport { joint, transport } =>
                ManifestErrorView::UnsupportedTransport { joint: joint@, transport: transport@ },
            ManifestError::InvalidPosLimit { joint, min, max } =>
                ManifestErrorView::InvalidPosLimit { joint: joint@, min: *min, max: *max },
            ManifestError::InvalidDirection { joint } => ManifestErrorView::InvalidDirection {
                joint: joint@,
            },
        }
    }
}

/// The text of a manifest error. The two ends of an invalid position limit
/// are given as the caller renders them (`min_text`, `max_text`); the other
/// errors do not use them.
pub open spec fn manifest_error_text(e: ManifestErrorView, min_text: Seq<char>, max_text: Seq<char>) -> Seq<char> {
    match e {
        ManifestErrorView::NoJoints => "manifest must define at least one joint"@,
        ManifestErrorView::NoControlProfiles => "manifest must define at least one control profile"@,
        ManifestErrorView::EmptyJointName => "joint_name cannot be empty"@,
        ManifestErrorView::DuplicateJointName { joint } => "duplicate joint_name: "@ + joint,
        ManifestErrorView::MissingProfile { joint, profile } => "joint "@ + joint
            + " references missing default_profile "@ + profile,
        ManifestErrorView::UnsupportedVendor { joint, vendor } => "joint "@ + joint
            + " uses unsupported vendor "@ + vendor,
        ManifestErrorView::UnsupportedTransport { joint, transport } => "joint "@ + joint
            + " uses unsupported transport "@ + transport,
        ManifestErrorView::InvalidPosLimit { joint, .. } => "joint "@ + joint
            + " has invalid pos_limit ["@ + min_text + ", "@ + max_text + "]"@,
        ManifestErrorView::InvalidDirection { joint } => "joint "@ + joint
            + " direction must be 1 or -1"@,
    }
}

/// `"joint " + joint + rest`.
fn joint_says(joint: &str, rest: &str) -> (res: String)
    ensures
        res@ == "joint "@ + joint@ + rest@,
{
    let a = concat("joint ", joint);
    concat(a.as_str(), rest)
}

impl ManifestError {
    /// The text of the error (see `manifest_error_text`).
    pub fn message(&self, min_text: &str, max_text: &str) -> (res: String)
        ensures
            res@ == manifest_error_text(self@, min_text@, max_text@),
    {
        match self {
            ManifestError::NoJoints => "manifest must define at least one joint".to_owned(),
            ManifestError::NoControlProfiles => "manifest must define at least one control profile".to_owned(),
            ManifestError::EmptyJointName => "joint_name cannot be empty".to_owned(),
            ManifestError::DuplicateJointName { joint } => concat("duplicate joint_name: ", joint.as_str()),
            ManifestError::MissingProfile { joint, profile } => {
                let a = joint_says(joint.as_str(), " references missing default_profile ");
                concat(a.as_str(), profile.as_str())
            },
            ManifestError::UnsupportedVendor { joint, vendor } => {
                let a = joint_says(joint.as_str(), " uses unsupported vendor ");
                concat(a.as_str(), vendor.as_str())
            },
            ManifestError::UnsupportedTransport { joint, transport } => {
                let a = joint_says(joint.as_str(), " uses unsupported transport ");
                concat(a.as_str(), transport.as_str())
            },
            ManifestError::InvalidPosLimit { joint, .. } => {
                let a = joint_says(joint.as_str(), " has invalid pos_limit [");
                let b = concat(a.as_str(), min_text);
                let c = concat(b.as_str(), ", ");
                let d = concat(c.as_str(), max_text);
                let r = concat(d.as_str(), "]");
                assert(r@ =~= manifest_error_text(self@, min_text@, max_text@));
                r
            },
            ManifestError::InvalidDirection { joint } => joint_says(joint.as_str(), " direction must be 1 or -1"),
        }
    }
}

/// The vendor a joint names, `damiao` where it names none.
pub open spec fn joint_vendor(j: JointConfig) -> Seq<char> {
    match j.vendor {
        Some(v) => v@,
        None => "damiao"@,
    }
}

/// The direction a joint turns in, 1 where it gives none.
pub open spec fn joint_direction(j: JointConfig) -> i8 {
    match j.direction {
        Some(d) => d,
        None => 1,
    }
}

/// Whether the manifest has a control profile of this name.
pub open spec fn has_profile(m: Manifest, name: Seq<char>) -> bool {
    exists|p: int| 0 <= p < m.control_profiles@.len() && #[trigger] m.control_profiles@[p].profile_name@ == name
}

/// Whether an earlier joint than joint `i` has its name.
pub open spec fn name_taken_before(m: Manifest, i: int) -> bool {
    exists|k: int| 0 <= k < i && #[trigger] m.joints@[k].joint_name@ == m.joints@[i].joint_name@
}

/// Whether a position limit is refused: its lower end is not below its
/// upper end (NaN ends are not compared, so they pass).
pub open spec fn limit_inverted(l: [IeeeSingle; 2]) -> bool {
    l[1].spec_le(l[0])
}

/// The first problem of joint `i`, checks taken in this order: an empty
/// (blank) name, a name used by an earlier joint, a default profile that does
/// not exist, an unsupported vendor, an unsupported transport, an inverted
/// position limit, a direction other than 1 or -1.
pub open spec fn joint_problem(m: Manifest, i: int) -> Option<ManifestErrorView> {
    let j = m.joints@[i];
    if trim(j.joint_name@).len() == 0 {
        Some(ManifestErrorView::EmptyJointName)
    } else if name_taken_before(m, i) {
        Some(ManifestErrorView::DuplicateJointName { joint: j.joint_name@ })
    } else if !has_profile(m, j.default_profile@) {
        Some(ManifestErrorView::MissingProfile { joint: j.joint_name@, profile: j.default_profile@ })
    } else if vendor_of(normalize_name(joint_vendor(j))) is None {
        Some(
            ManifestErrorView::UnsupportedVendor {
                joint: j.joint_name@,
                vendor: match j.vendor {
                    Some(v) => v@,
                    None => Seq::empty(),
                },
            },
        )
    } else if j.transport matches Some(t) && backend_of(normalize_name(t@)) is None {
        Some(
            ManifestErrorView::UnsupportedTransport {
                joint: j.joint_name@,
                transport: j.transport->0@,
            },
        )
    } else if j.pos_limit matches Some(l) && limit_inverted(l) {
        Some(
            ManifestErrorView::InvalidPosLimit {
                joint: j.joint_name@,
                min: j.pos_limit->0[0],
                max: j.pos_limit->0[1],
            },
        )
    } else if !(joint_direction(j) == 1 || joint_direction(j) == -1) {
        Some(ManifestErrorView::InvalidDirection { joint: j.joint_name@ })
    } else {
        None
    }
}

/// The first problem among joints `i..`.
pub open spec fn first_joint_problem(m: Manifest, i: int) -> Option<ManifestErrorView>
    decreases m.joints@.len() - i,
{
    if i < 0 || i >= m.joints@.len() {
        None
    } else {
        match joint_problem(m, i) {
            Some(e) => Some(e),
            None => first_joint_problem(m, i + 1),
        }
    }
}

/// The problem a manifest is refused for, if any: no joints, then no
/// control profiles, then the first problem of a joint in order.
pub open spec fn manifest_problem(m: Manifest) -> Option<ManifestErrorView> {
    if m.joints@.len() == 0 {
        Some(ManifestErrorView::NoJoints)
    } else if m.control_profiles@.len() == 0 {
        Some(ManifestErrorView::NoControlProfiles)
    } else {
        first_joint_problem(m, 0)
    }
}

proof fn lemma_first_problem_skip(m: Manifest, i: int)
    requires
        0 <= i <= m.joints@.len(),
        forall|k: int| 0 <= k < i ==> joint_problem(m, k) is None,
    ensures
        first_joint_problem(m, 0) == first_joint_problem(m, i),
    decreases i,
{
    if i > 0 {
        lemma_first_problem_skip(m, i - 1);
        assert(joint_problem(m, i - 1) is None);
    }
}

/// Whether an earlier joint than joint `i` has its name.
fn name_taken_before_exec(m: &Manifest, i: usize) -> (res: bool)
    requires
        i < m.joints@.len(),
    ensures
        res == name_taken_before(*m, i as int),
{
    let mut k: usize = 0;
    while k < i
        invariant
            k <= i < m.joints@.len(),
            forall|q: int| 0 <= q < k ==> m.joints@[q].joint_name@ != m.joints@[i as int].joint_name@,
        decreases i - k,
    {
        if str_eq(m.joints[k].joint_name.as_str(), m.joints[i].joint_name.as_str()) {
            return true;
        }
        k = k + 1;
    }
    false
}

/// Whether the manifest has a control profile of this name.
fn has_profile_exec(m: &Manifest, name: &str) -> (res: bool)
    ensures
        res == has_profile(*m, name@),
{
    let mut p: usize = 0;
    while p < m.control_profiles.len()
        invariant
            p <= m.control_profiles@.len(),
            forall|q: int| 0 <= q < p ==> m.control_profiles@[q].profile_name@ != name@,
        decreases m.control_profiles@.len() - p,
    {
        if str_eq(m.control_profiles[p].profile_name.as_str(), name) {
            return true;
        }
        p = p + 1;
    }
    false
}

/// The first problem of joint `i`.
fn check_joint(m: &Manifest, i: usize) -> (res: Option<ManifestError>)
    requires
        i < m.joints@.len(),
    ensures
        match joint_problem(*m, i as int) {
            None => res is None,
            Some(e) => res matches Some(r) && r@ == e,
        },
{
    let j = &m.joints[i];
    let trimmed = trim_str(j.joint_name.as_str());
    if trimmed.as_str().is_empty() {
        return Some(ManifestError::EmptyJointName);
    }
    if name_taken_before_exec(m, i) {
        return Some(ManifestError::DuplicateJointName { joint: j.joint_name.clone() });
    }
    if !has_profile_exec(m, j.default_profile.as_str()) {
        return Some(
            ManifestError::MissingProfile {
                joint: j.joint_name.clone(),
                profile: j.default_profile.clone(),
            },
        );
    }
    let vendor = match &j.vendor {
        Some(v) => normalize_vendor(v.as_str()),
        None => normalize_vendor("damiao"),
    };
    if vendor_from_normalized(vendor.as_str()).is_none() {
        let raw = match &j.vendor {
            Some(v) => v.clone(),
            None => String::new(),
        };
        return Some(ManifestError::UnsupportedVendor { joint: j.joint_name.clone(), vendor: raw });
    }
    if let Some(t) = &j.transport {
        let transport = normalize_transport(t.as_str());
        if backend_from_normalized(transport.as_str()).is_none() {
            return Some(
                ManifestError::UnsupportedTransport { joint: j.joint_name.clone(), transport: t.clone() },
            );
        }
    }
    if let Some(l) = j.pos_limit {
        if l[1].le(l[0]) {
            return Some(
                ManifestError::InvalidPosLimit { joint: j.joint_name.clone(), min: l[0], max: l[1] },
            );
        }
    }
    let d: i8 = match j.direction {
        Some(d) => d,
        None => 1,
    };
    if !(d == 1 || d == -1) {
        return Some(ManifestError::InvalidDirection { joint: j.joint_name.clone() });
    }
    None
}

/// Checks a manifest before the bridge starts: it must define joints and
/// control profiles, and each joint, in order, must pass the checks that
/// `joint_problem` lists; the first problem found is the error.
pub fn validate_manifest(manifest: &Manifest) -> (res: Result<(), ManifestError>)
    ensures
        match manifest_problem(*manifest) {
            None => res is Ok,
            Some(e) => res matches Err(r) && r@ == e,
        },
{
    if manifest.joints.len() == 0 {
        return Err(ManifestError::NoJoints);
    }
    if manifest.control_profiles.len() == 0 {
        return Err(ManifestError::NoControlProfiles);
    }
    let mut i: usize = 0;
    while i < manifest.joints.len()
        invariant
            i <= manifest.joints@.len(),
            manifest.joints@.len() > 0,
            manifest.control_profiles@.len() > 0,
            forall|k: int| 0 <= k < i ==> joint_problem(*manifest, k) is None,
        decreases manifest.joints@.len() - i,
    {
        match check_joint(manifest, i) {
            Some(e) => {
                proof {
                    lemma_first_problem_skip(*manifest, i as int);
                    assert(first_joint_problem(*manifest, i as int) == joint_problem(
                        *manifest,
                        i as int,
                    ));
                }
                return Err(e);
            },
            None => {},
        }
        i = i + 1;
    }
    proof {
        lemma_first_problem_skip(*manifest, i as int);
    }
    Ok(())
}


proof fn lemma_no_problem_from(m: Manifest, i: int)
    requires
        0 <= i,
        first_joint_problem(m, i) is None,
    ensures
        forall|k: int| i <= k < m.joints@.len() ==> joint_problem(m, k) is None,
    decreases m.joints@.len() - i,
{
    if i < m.joints@.len() {
        lemma_no_problem_from(m, i + 1);
    }
}

/// What an accepted manifest guarantees: it has joints and control profiles;
/// every joint has a non-blank name that no other joint shares, a default
/// profile that exists, a supported vendor, a supported transport where it
/// names one, a position limit whose lower end is below its upper end
/// unless an end is NaN, and a direction of 1 or -1.
pub proof fn accepted_manifest_is_consistent(m: Manifest)
    requires
        manifest_problem(m) is None,
    ensures
        m.joints@.len() > 0,
        m.control_profiles@.len() > 0,
        forall|i: int|
            0 <= i < m.joints@.len() ==> trim(#[trigger] m.joints@[i].joint_name@).len() > 0,
        forall|i: int, k: int|
            0 <= i < k < m.joints@.len() ==> #[trigger] m.joints@[i].joint_name@
                != #[trigger] m.joints@[k].joint_name@,
        forall|i: int|
            0 <= i < m.joints@.len() ==> has_profile(m, #[trigger] m.joints@[i].default_profile@),
        forall|i: int|
            0 <= i < m.joints@.len() ==> vendor_of(normalize_name(joint_vendor(#[trigger] m.joints@[i])))
                is Some,
        forall|i: int|
            0 <= i < m.joints@.len() ==> ((#[trigger] m.joints@[i]).transport matches Some(t)
                ==> backend_of(normalize_name(t@)) is Some),
        forall|i: int|
            0 <= i < m.joints@.len() ==> ((#[trigger] m.joints@[i]).pos_limit matches Some(l)
                ==> !limit_inverted(l)),
        forall|i: int|
            0 <= i < m.joints@.len() ==> joint_direction(#[trigger] m.joints@[i]) == 1
                || joint_direction(m.joints@[i]) == -1,
{
    lemma_no_problem_from(m, 0);
    assert forall|i: int, k: int|
        0 <= i < k < m.joints@.len() implies #[trigger] m.joints@[i].joint_name@
        != #[trigger] m.joints@[k].joint_name@ by {
        assert(joint_problem(m, k) is None);
        assert(!name_taken_before(m, k));
    }
    assert forall|i: int| 0 <= i < m.joints@.len() implies trim(
        #[trigger] m.joints@[i].joint_name@,
    ).len() > 0 by {
        assert(joint_problem(m, i) is None);
    }
    assert forall|i: int| 0 <= i < m.joints@.len() implies has_profile(
        m,
        #[trigger] m.joints@[i].default_profile@,
    ) by {
        assert(joint_problem(m, i) is None);
    }
    assert forall|i: int| 0 <= i < m.joints@.len() implies vendor_of(
        normalize_name(joint_vendor(#[trigger] m.joints@[i])),
    ) is Some by {
        assert(joint_problem(m, i) is None);
    }
    assert forall|i: int| 0 <= i < m.joints@.len() implies ((#[trigger] m.joints@[i]).transport matches Some(t)
        ==> backend_of(normalize_name(t@)) is Some) by {
        assert(joint_problem(m, i) is None);
    }
    assert forall|i: int| 0 <= i < m.joints@.len() implies ((#[trigger] m.joints@[i]).pos_limit matches Some(l)
        ==> !limit_inverted(l)) by {
        assert(joint_problem(m, i) is None);
    }
    assert forall|i: int| 0 <= i < m.joints@.len() implies joint_direction(#[trigger] m.joints@[i]) == 1
        || joint_direction(m.joints@[i]) == -1 by {
        assert(joint_problem(m, i) is None);
    }
}


/// Dropping joints from an accepted manifest (keeping at least one, in their
/// order) and adding control profiles after its own keeps it accepted.
/// `idx` gives, for each joint kept, where it stood among the old joints.
pub proof fn acceptance_survives_dropped_joints_and_added_profiles(
    m: Manifest,
    kept: Manifest,
    idx: Seq<int>,
)
    requires
        manifest_problem(m) is None,
        kept.joints@.len() > 0,
        idx.len() == kept.joints@.len(),
        forall|k: int|
            0 <= k < idx.len() ==> 0 <= #[trigger] idx[k] < m.joints@.len() && kept.joints@[k]
                == m.joints@[idx[k]],
        forall|a: int, b: int| 0 <= a < b < idx.len() ==> #[trigger] idx[a] < #[trigger] idx[b],
        m.control_profiles@.len() <= kept.control_profiles@.len(),
        forall|p: int|
            0 <= p < m.control_profiles@.len() ==> #[trigger] kept.control_profiles@[p]
                == m.control_profiles@[p],
    ensures
        manifest_problem(kept) is None,
{
    accepted_manifest_is_consistent(m);
    assert forall|k: int| 0 <= k < kept.joints@.len() implies joint_problem(kept, k) is None by {
        let i = idx[k];
        assert(kept.joints@[k] == m.joints@[i]);
        assert(trim(m.joints@[i].joint_name@).len() > 0);
        if name_taken_before(kept, k) {
            let q = choose|q: int|
                0 <= q < k && #[trigger] kept.joints@[q].joint_name@ == kept.joints@[k].joint_name@;
            assert(idx[q] < idx[k]);
            assert(kept.joints@[q] == m.joints@[idx[q]]);
            assert(m.joints@[idx[q]].joint_name@ != m.joints@[i].joint_name@);
        }
        assert(has_profile(m, m.joints@[i].default_profile@));
        let p = choose|p: int|
            0 <= p < m.control_profiles@.len() && #[trigger] m.control_profiles@[p].profile_name@
                == m.joints@[i].default_profile@;
        assert(kept.control_profiles@[p] == m.control_profiles@[p]);
        assert(has_profile(kept, kept.joints@[k].default_profile@));
        assert(vendor_of(normalize_name(joint_vendor(m.joints@[i]))) is Some);
        assert(m.joints@[i].transport matches Some(t) ==> backend_of(normalize_name(t@)) is Some);
        assert(m.joints@[i].pos_limit matches Some(l) ==> !limit_inverted(l));
        assert(joint_direction(m.joints@[i]) == 1 || joint_direction(m.joints@[i]) == -1);
    }
    lemma_first_problem_skip(kept, kept.joints@.len() as int);
}

/// What a manifest is refused for, in the order the checks are made: no
/// joints; no control profiles; then, for the first joint, a blank name, a
/// default profile that no control profile is named, a vendor (`damiao`
/// where none is written) that is not supported, a transport, where one is
/// written, that is not supported, a position limit whose upper end is not
/// above its lower end, a direction other than 1 or -1. A second joint that
/// repeats a sound first joint's name is refused as a duplicate. A sound
/// single joint makes the manifest accepted.
pub proof fn refusal_names_the_first_problem(m: Manifest)
    ensures
        m.joints@.len() == 0 ==> manifest_problem(m) == Some(ManifestErrorView::NoJoints),
        m.joints@.len() > 0 && m.control_profiles@.len() == 0 ==> manifest_problem(m) == Some(
            ManifestErrorView::NoControlProfiles,
        ),
        m.joints@.len() > 0 && m.control_profiles@.len() > 0 ==> ({
            let j = m.joints@[0];
            let name = j.joint_name@;
            let blank = trim(name).len() == 0;
            let no_profile = forall|p: int|
                0 <= p < m.control_profiles@.len() ==> #[trigger] m.control_profiles@[p].profile_name@
                    != j.default_profile@;
            let raw_vendor = match j.vendor { Some(v) => v@, None => Seq::<char>::empty() };
            let bad_vendor = vendor_of(
                normalize_name(match j.vendor { Some(v) => v@, None => "damiao"@ }),
            ) is None;
            let bad_transport = j.transport matches Some(t) && backend_of(normalize_name(t@)) is None;
            let bad_limit = j.pos_limit matches Some(l) && l[1].spec_le(l[0]);
            let bad_direction = j.direction matches Some(d) && d != 1 && d != -1;
            &&& blank ==> manifest_problem(m) == Some(ManifestErrorView::EmptyJointName)
            &&& (!blank && no_profile) ==> manifest_problem(m) == Some(
                ManifestErrorView::MissingProfile { joint: name, profile: j.default_profile@ },
            )
            &&& (!blank && !no_profile && bad_vendor) ==> manifest_problem(m) == Some(
                ManifestErrorView::UnsupportedVendor { joint: name, vendor: raw_vendor },
            )
            &&& (!blank && !no_profile && !bad_vendor && bad_transport) ==> manifest_problem(m) == Some(
                ManifestErrorView::UnsupportedTransport { joint: name, transport: j.transport->0@ },
            )
            &&& (!blank && !no_profile && !bad_vendor && !bad_transport && bad_limit)
                ==> manifest_problem(m) == Some(
                ManifestErrorView::InvalidPosLimit {
                    joint: name,
                    min: j.pos_limit->0[0],
                    max: j.pos_limit->0[1],
                },
            )
            &&& (!blank && !no_profile && !bad_vendor && !bad_transport && !bad_limit && bad_direction)
                ==> manifest_problem(m) == Some(ManifestErrorView::InvalidDirection { joint: name })
            &&& (!blank && !no_profile && !bad_vendor && !bad_transport && !bad_limit && !bad_direction
                && m.joints@.len() == 1) ==> manifest_problem(m) is None
            &&& (!blank && !no_profile && !bad_vendor && !bad_transport && !bad_limit && !bad_direction
                && m.joints@.len() >= 2 && m.joints@[1].joint_name@ == name) ==> manifest_problem(m)
                == Some(ManifestErrorView::DuplicateJointName { joint: name })
        }),
{
    if m.joints@.len() > 0 && m.control_profiles@.len() > 0 {
        let j = m.joints@[0];
        assert(!name_taken_before(m, 0));
        if m.joints@.len() >= 2 && trim(m.joints@[1].joint_name@).len() > 0 {
            assert(m.joints@[0].joint_name@ == m.joints@[1].joint_name@ ==> name_taken_before(m, 1));
        }
        assert(first_joint_problem(m, 0) == match joint_problem(m, 0) {
            Some(e) => Some(e),
            None => first_joint_problem(m, 1),
        });
        if joint_problem(m, 0) is None && m.joints@.len() >= 2 {
            assert(first_joint_problem(m, 1) == match joint_problem(m, 1) {
                Some(e) => Some(e),
                None => first_joint_problem(m, 2),
            });
        }
    }
}

/// The absolute name of a topic: the namespace and the relative name with
/// their `/` stripped at both ends, joined under a leading `/`; an empty
/// namespace leaves `/` and the relative name.
pub open spec fn topic_path_of(namespace: Seq<char>, relative: Seq<char>) -> Seq<char> {
    let ns = strip(namespace, Some('/'));
    let rel = strip(relative, Some('/'));
    if ns.len() == 0 {
        seq!['/'] + rel
    } else {
        seq!['/'] + ns + seq!['/'] + rel
    }
}

/// The absolute name of `relative` under `namespace` (see `topic_path_of`).
pub fn topic_path(namespace: &str, relative: &str) -> (res: String)
    ensures
        res@ == topic_path_of(namespace@, relative@),
{
    let ns = trim_char(namespace, '/');
    let rel = trim_char(relative, '/');
    let mut out = String::new();
    push_char(&mut out, '/');
    if ns.as_str().is_empty() {
        let r = concat(out.as_str(), rel.as_str());
        assert(r@ =~= seq!['/'] + rel@);
        r
    } else {
        let with_ns = concat(out.as_str(), ns.as_str());
        let mut with_sep = with_ns;
        push_char(&mut with_sep, '/');
        let r = concat(with_sep.as_str(), rel.as_str());
        assert(r@ =~= seq!['/'] + ns@ + seq!['/'] + rel@);
        r
    }
}

/// Slashes written around the namespace or the relative name make no
/// difference to the topic named.
pub proof fn topic_path_ignores_outer_slashes(namespace: Seq<char>, relative: Seq<char>)
    ensures
        topic_path_of(seq!['/'] + namespace + seq!['/'], relative) == topic_path_of(namespace, relative),
        topic_path_of(namespace, seq!['/'] + relative + seq!['/']) == topic_path_of(namespace, relative),
        topic_path_of(namespace, relative)[0] == '/',
{
    strip_ignores_added_ends(namespace, '/');
    strip_ignores_added_ends(relative, '/');
}

/// A topic's absolute name is `/`, then the namespace (its outer slashes
/// stripped) and a `/` where the namespace is not empty, then the relative
/// name (its outer slashes stripped).
pub proof fn topic_path_joins_namespace_and_name(namespace: Seq<char>, relative: Seq<char>)
    ensures
        ({
            let n = strip(namespace, Some('/'));
            let r = strip(relative, Some('/'));
            let t = topic_path_of(namespace, relative);
            let pre = if n.len() == 0 { 1int } else { n.len() as int + 2 };
            &&& t.len() == pre + r.len()
            &&& t[0] == '/'
            &&& t.subrange(pre, t.len() as int) == r
            &&& n.len() > 0 ==> t.subrange(1, n.len() as int + 1) == n && t[n.len() as int + 1] == '/'
        }),
{
    let n = strip(namespace, Some('/'));
    let r = strip(relative, Some('/'));
    let t = topic_path_of(namespace, relative);
    if n.len() == 0 {
        assert(t.subrange(1, t.len() as int) =~= r);
    } else {
        assert(t.subrange(n.len() as int + 2, t.len() as int) =~= r);
        assert(t.subrange(1, n.len() as int + 1) =~= n);
    }
}

/// The opening lines of the topic plan: target and namespace, the status
/// topic, the diagnostic counter where it is enabled, and the two
/// emergency-stop topics.
pub open spec fn plan_header(m: Manifest) -> Seq<Seq<char>> {
    let ns = m.ros_bridge_options.namespace@;
    let head = seq![
        "ROS2/DDS topic plan for target="@ + m.target_name@ + " namespace="@ + ns,
        "  publish: "@ + topic_path_of(ns, m.ros_bridge_options.status_topic@),
    ];
    let counter = if m.ros_bridge_options.enable_easter_counter {
        seq!["  publish: "@ + topic_path_of(ns, "easter_counter"@)]
    } else {
        Seq::empty()
    };
    head + counter + seq![
        "  subscribe: "@ + m.global_safety.emergency_stop_topic@,
        "  subscribe: "@ + m.global_safety.emergency_stop_json_topic@,
    ]
}

/// The lines of the topic plan for one joint.
pub open spec fn joint_plan(ns: Seq<char>, name: Seq<char>) -> Seq<Seq<char>> {
    seq![
        "  joint "@ + name,
        "    subscribe: "@ + topic_path_of(ns, name + "/cmd_json"@),
        "    publish:   "@ + topic_path_of(ns, name + "/state_json"@),
        "    publish:   "@ + topic_path_of(ns, name + "/event_json"@),
        "    typed sub: "@ + topic_path_of(ns, name + "/cmd"@),
        "    typed pub: "@ + topic_path_of(ns, name + "/state"@),
    ]
}

/// The lines of the topic plan for the joints, in order.
pub open spec fn joints_plan(ns: Seq<char>, joints: Seq<JointConfig>) -> Seq<Seq<char>>
    decreases joints.len(),
{
    if joints.len() == 0 {
        Seq::empty()
    } else {
        joints_plan(ns, joints.drop_last()) + joint_plan(ns, joints.last().joint_name@)
    }
}

/// The whole topic plan of a manifest, line by line.
pub open spec fn topic_plan_of(m: Manifest) -> Seq<Seq<char>> {
    plan_header(m) + joints_plan(m.ros_bridge_options.namespace@, m.joints@)
}

proof fn lemma_joints_plan_lines(ns: Seq<char>, js: Seq<JointConfig>)
    ensures
        joints_plan(ns, js).len() == 6 * js.len(),
        forall|k: int, r: int|
            0 <= k < js.len() && 0 <= r < 6 ==> #[trigger] joints_plan(ns, js)[6 * k + r] == joint_plan(
                ns,
                js[k].joint_name@,
            )[r],
    decreases js.len(),
{
    if js.len() > 0 {
        let init = js.drop_last();
        lemma_joints_plan_lines(ns, init);
        let n = js.len() - 1;
        assert forall|k: int, r: int| 0 <= k < js.len() && 0 <= r < 6 implies #[trigger] joints_plan(
            ns,
            js,
        )[6 * k + r] == joint_plan(ns, js[k].joint_name@)[r] by {
            if k < n {
                assert(init[k] == js[k]);
                assert(joints_plan(ns, init)[6 * k + r] == joint_plan(ns, init[k].joint_name@)[r]);
            } else {
                assert(js.last() == js[k]);
            }
        }
    }
}

/// The topic plan lists every joint, in order, under its own name: after
/// the opening lines (four, or five with the diagnostic counter) come six
/// lines for joint `k`, naming the joint and then its JSON command, JSON
/// state, event, typed command and typed state topics under the namespace.
pub proof fn topic_plan_lists_each_joint(m: Manifest, k: int)
    requires
        0 <= k < m.joints@.len(),
    ensures
        ({
            let h = if m.ros_bridge_options.enable_easter_counter { 5int } else { 4int };
            let ns = m.ros_bridge_options.namespace@;
            let name = m.joints@[k].joint_name@;
            let plan = topic_plan_of(m);
            &&& plan.len() == h + 6 * m.joints@.len()
            &&& plan[h + 6 * k] == "  joint "@ + name
            &&& plan[h + 6 * k + 1] == "    subscribe: "@ + topic_path_of(ns, name + "/cmd_json"@)
            &&& plan[h + 6 * k + 2] == "    publish:   "@ + topic_path_of(ns, name + "/state_json"@)
            &&& plan[h + 6 * k + 3] == "    publish:   "@ + topic_path_of(ns, name + "/event_json"@)
            &&& plan[h + 6 * k + 4] == "    typed sub: "@ + topic_path_of(ns, name + "/cmd"@)
            &&& plan[h + 6 * k + 5] == "    typed pub: "@ + topic_path_of(ns, name + "/state"@)
        }),
{
    let ns = m.ros_bridge_options.namespace@;
    let h = plan_header(m).len();
    lemma_joints_plan_lines(ns, m.joints@);
    let jp = joints_plan(ns, m.joints@);
    let jl = joint_plan(ns, m.joints@[k].joint_name@);
    assert(jp[6 * k + 0] == jl[0]);
    assert(jp[6 * k + 1] == jl[1]);
    assert(jp[6 * k + 2] == jl[2]);
    assert(jp[6 * k + 3] == jl[3]);
    assert(jp[6 * k + 4] == jl[4]);
    assert(jp[6 * k + 5] == jl[5]);
    assert(h == if m.ros_bridge_options.enable_easter_counter { 5int } else { 4int });
}

/// The strings of a vector of strings.
pub open spec fn lines_view(v: Seq<String>) -> Seq<Seq<char>> {
    v.map_values(|s: String| s@)
}

fn push_line(lines: &mut Vec<String>, line: String)
    ensures
        lines_view(final(lines)@) == lines_view(old(lines)@).push(line@),
{
    lines.push(line);
    assert(lines_view(lines@) =~= lines_view(old(lines)@).push(line@));
}

/// The topic plan of a manifest: the lines that `--list-topics` prints.
pub fn print_topic_plan(manifest: &Manifest) -> (res: Vec<String>)
    ensures
        lines_view(res@) == topic_plan_of(*manifest),
{
    let opts = &manifest.ros_bridge_options;
    let ns = opts.namespace.as_str();
    let mut lines: Vec<String> = Vec::new();
    let a = concat("ROS2/DDS topic plan for target=", manifest.target_name.as_str());
    let b = concat(a.as_str(), " namespace=");
    push_line(&mut lines, concat(b.as_str(), ns));
    let status = topic_path(ns, opts.status_topic.as_str());
    push_line(&mut lines, concat("  publish: ", status.as_str()));
    if opts.enable_easter_counter {
        let counter = topic_path(ns, "easter_counter");
        push_line(&mut lines, concat("  publish: ", counter.as_str()));
    }
    push_line(
        &mut lines,
        concat("  subscribe: ", manifest.global_safety.emergency_stop_topic.as_str()),
    );
    push_line(
        &mut lines,
        concat("  subscribe: ", manifest.global_safety.emergency_stop_json_topic.as_str()),
    );
    assert(lines_view(lines@) =~= plan_header(*manifest));
    let mut i: usize = 0;
    while i < manifest.joints.len()
        invariant
            i <= manifest.joints@.len(),
            ns@ == manifest.ros_bridge_options.namespace@,
            lines_view(lines@) == plan_header(*manifest) + joints_plan(
                ns@,
                manifest.joints@.subrange(0, i as int),
            ),
        decreases manifest.joints@.len() - i,
    {
        let name = manifest.joints[i].joint_name.as_str();
        let ghost before = lines_view(lines@);
        push_line(&mut lines, concat("  joint ", name));
        let t1 = concat(name, "/cmd_json");
        let p1 = topic_path(ns, t1.as_str());
        push_line(&mut lines, concat("    subscribe: ", p1.as_str()));
        let t2 = concat(name, "/state_json");
        let p2 = topic_path(ns, t2.as_str());
        push_line(&mut lines, concat("    publish:   ", p2.as_str()));
        let t3 = concat(name, "/event_json");
        let p3 = topic_path(ns, t3.as_str());
        push_line(&mut lines, concat("    publish:   ", p3.as_str()));
        let t4 = concat(name, "/cmd");
        let p4 = topic_path(ns, t4.as_str());
        push_line(&mut lines, concat("    typed sub: ", p4.as_str()));
        let t5 = concat(name, "/state");
        let p5 = topic_path(ns, t5.as_str());
        push_line(&mut lines, concat("    typed pub: ", p5.as_str()));
        proof {
            let js = manifest.joints@.subrange(0, i + 1);
            assert(js.drop_last() =~= manifest.joints@.subrange(0, i as int));
            assert(lines_view(lines@) =~= before + joint_plan(ns@, name@));
        }
        i = i + 1;
    }
    assert(manifest.joints@.subrange(0, i as int) =~= manifest.joints@);
    lines
}

} // verus!
