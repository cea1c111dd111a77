//! Plain-value snapshots of the remote store's entities.
//!
//! Each type holds what the controller reads of a remote entity as plain
//! values; the remote wire types never enter the verified core. Snapshots are
//! immutable: a reload replaces them wholesale.

use vstd::prelude::*;

verus! {

/// Replication policy of a secret.
#[derive(Debug)]
pub enum ReplicationPolicy {
    /// The store manages replication automatically.
    Automatic,
    /// Replication pinned to specific locations by the user.
    UserManaged(Vec<String>),
}

/// Mathematical model of a [`ReplicationPolicy`].
pub ghost enum ReplicationPolicyView {
    Automatic,
    UserManaged(Seq<Seq<char>>),
}

impl View for ReplicationPolicy {
    type V = ReplicationPolicyView;

    open spec fn view(&self) -> ReplicationPolicyView {
        match self {
            ReplicationPolicy::Automatic => ReplicationPolicyView::Automatic,
            ReplicationPolicy::UserManaged(locs) => ReplicationPolicyView::UserManaged(
                locs.deep_view(),
            ),
        }
    }
}

/// Rotation settings of a secret, already rendered to display text.
#[derive(Debug)]
pub struct RotationConfig {
    /// Rotation period, e.g. `"86400s"` for one day.
    pub rotation_period: Option<String>,
    /// Next scheduled rotation, as a date string.
    pub next_rotation_time: Option<String>,
}

/// Mathematical model of a [`RotationConfig`].
pub ghost struct RotationConfigView {
    pub rotation_period: Option<Seq<char>>,
    pub next_rotation_time: Option<Seq<char>>,
}

impl View for RotationConfig {
    type V = RotationConfigView;

    open spec fn view(&self) -> RotationConfigView {
        RotationConfigView {
            rotation_period: self.rotation_period.deep_view(),
            next_rotation_time: self.next_rotation_time.deep_view(),
        }
    }
}

/// Snapshot of one secret.
#[derive(Debug)]
pub struct SecretInfo {
    /// Short name: the last segment of the full resource name.
    pub short_name: String,
    /// Creation time as a date string.
    pub create_time: String,
    /// Labels on the secret, as ordered key/value pairs.
    pub labels: Vec<(String, String)>,
    /// Annotations (free-form metadata), as ordered key/value pairs.
    pub annotations: Vec<(String, String)>,
    /// Replication policy.
    pub replication: ReplicationPolicy,
    /// Notification topics.
    pub topics: Vec<String>,
    /// Version aliases: alias name to version number.
    pub version_aliases: Vec<(String, i64)>,
    /// Rotation settings, if configured.
    pub rotation: Option<RotationConfig>,
    /// Delay before a destroyed version's payload is wiped, as display text.
    pub version_destroy_ttl: Option<String>,
}

/// Mathematical model of a [`SecretInfo`].
pub ghost struct SecretInfoView {
    pub short_name: Seq<char>,
    pub create_time: Seq<char>,
    pub labels: Seq<(Seq<char>, Seq<char>)>,
    pub annotations: Seq<(Seq<char>, Seq<char>)>,
    pub replication: ReplicationPolicyView,
    pub topics: Seq<Seq<char>>,
    pub version_aliases: Seq<(Seq<char>, i64)>,
    pub rotation: Option<RotationConfigView>,
    pub version_destroy_ttl: Option<Seq<char>>,
}

impl View for SecretInfo {
    type V = SecretInfoView;

    open spec fn view(&self) -> SecretInfoView {
        SecretInfoView {
            short_name: self.short_name@,
            create_time: self.create_time@,
            labels: self.labels.deep_view(),
            annotations: self.annotations.deep_view(),
            replication: self.replication@,
            topics: self.topics.deep_view(),
            version_aliases: self.version_aliases.deep_view(),
            rotation: match self.rotation {
                Some(r) => Some(r@),
                None => None,
            },
            version_destroy_ttl: self.version_destroy_ttl.deep_view(),
        }
    }
}

/// Lifecycle state of a secret version.
#[derive(Clone, Copy, Debug, PartialEq, Eq, Structural)]
pub enum VersionState {
    /// The version is active and its payload can be accessed.
    Enabled,
    /// The version is disabled but can be re-enabled.
    Disabled,
    /// The version's payload is permanently destroyed.
    Destroyed,
    /// The remote reported a state this controller does not know.
    Unknown,
}

impl VersionState {
    /// Display label of the state.
    pub fn label(&self) -> (r: &'static str)
        ensures
            *self is Enabled ==> r@ == "Enabled"@,
            *self is Disabled ==> r@ == "Disabled"@,
            *self is Destroyed ==> r@ == "Destroyed"@,
            *self is Unknown ==> r@ == "Unknown"@,
    {
        match self {
            VersionState::Enabled => "Enabled",
            VersionState::Disabled => "Disabled",
            VersionState::Destroyed => "Destroyed",
            VersionState::Unknown => "Unknown",
        }
    }
}

/// Snapshot of one secret version.
#[derive(Debug)]
pub struct VersionInfo {
    /// Version identifier, e.g. `"1"` or `"latest"`.
    pub version: String,
    /// Lifecycle state.
    pub state: VersionState,
    /// Creation time as a date string.
    pub create_time: String,
    /// Time the version was destroyed, if it was.
    pub destroy_time: Option<String>,
    /// Scheduled destruction time, for a delayed destroy.
    pub scheduled_destroy_time: Option<String>,
    /// Whether the payload carried a client-specified checksum.
    pub has_checksum: bool,
}

/// Mathematical model of a [`VersionInfo`].
pub ghost struct VersionInfoView {
    pub version: Seq<char>,
    pub state: VersionState,
    pub create_time: Seq<char>,
    pub destroy_time: Option<Seq<char>>,
    pub scheduled_destroy_time: Option<Seq<char>>,
    pub has_checksum: bool,
}

impl View for VersionInfo {
    type V = VersionInfoView;

    open spec fn view(&self) -> VersionInfoView {
        VersionInfoView {
            version: self.version@,
            state: self.state,
            create_time: self.create_time@,
            destroy_time: self.destroy_time.deep_view(),
            scheduled_destroy_time: self.scheduled_destroy_time.deep_view(),
            has_checksum: self.has_checksum,
        }
    }
}

/// One project the user can work in.
#[derive(Debug)]
pub struct ProjectInfo {
    /// Identifier of the project.
    pub project_id: String,
    /// Human-readable name; equals the identifier when none was given.
    pub display_name: String,
}

/// Mathematical model of a [`ProjectInfo`].
pub ghost struct ProjectInfoView {
    pub project_id: Seq<char>,
    pub display_name: Seq<char>,
}

impl View for ProjectInfo {
    type V = ProjectInfoView;

    open spec fn view(&self) -> ProjectInfoView {
        ProjectInfoView { project_id: self.project_id@, display_name: self.display_name@ }
    }
}

impl ProjectInfo {
    /// Builds a project entry; an empty display name falls back to the
    /// identifier.
    pub fn new(project_id: String, display_name: String) -> (r: ProjectInfo)
        ensures
            r.project_id@ == project_id@,
            display_name@.len() > 0 ==> r.display_name@ == display_name@,
            display_name@.len() == 0 ==> r.display_name@ == project_id@,
    {
        if display_name.as_str().is_empty() {
            let display = project_id.clone();
            ProjectInfo { project_id, display_name: display }
        } else {
            ProjectInfo { project_id, display_name }
        }
    }
}

/// Copies a vector of strings; the copy models the same sequence.
pub fn clone_strings(v: &Vec<String>) -> (r: Vec<String>)
    ensures
        r.deep_view() == v.deep_view(),
{
    let mut out: Vec<String> = Vec::new();
    let mut i: usize = 0;
    while i < v.len()
        invariant
            i <= v.len(),
            out@.len() == i,
            out.deep_view() =~= v.deep_view().subrange(0, i as int),
        decreases v.len() - i,
    {
        let x = v[i].clone();
        proof {
            assert(x == v@[i as int]);
        }
        let ghost prev_deep = out.deep_view();
        let ghost prev_seq = out@;
        out.push(x);
        i = i + 1;
        proof {
            assert forall|j: int| 0 <= j < i implies out.deep_view()[j]
                == v.deep_view().subrange(0, i as int)[j] by {
                assert(v.deep_view().subrange(0, i as int)[j] == v@[j].deep_view());
                if j < prev_seq.len() {
                    assert(out@[j] == prev_seq[j]);
                    assert(prev_deep[j] == prev_seq[j].deep_view());
                    assert(prev_deep[j] == v.deep_view().subrange(0, i - 1)[j]);
                } else {
                    assert(out@[j] == x);
                }
            }
            assert(out.deep_view() =~= v.deep_view().subrange(0, i as int));
        }
    }
    proof {
        assert(out.deep_view() =~= v.deep_view());
    }
    out
}

/// Copies a vector of string pairs; the copy models the same sequence.
pub fn clone_string_pairs(v: &Vec<(String, String)>) -> (r: Vec<(String, String)>)
    ensures
        r.deep_view() == v.deep_view(),
{
    let mut out: Vec<(String, String)> = Vec::new();
    let mut i: usize = 0;
    while i < v.len()
        invariant
            i <= v.len(),
            out@.len() == i,
            out.deep_view() =~= v.deep_view().subrange(0, i as int),
        decreases v.len() - i,
    {
        let pair = &v[i];
        let x = (pair.0.clone(), pair.1.clone());
        proof {
            assert(x == v@[i as int]);
        }
        let ghost prev_deep = out.deep_view();
        let ghost prev_seq = out@;
        out.push(x);
        i = i + 1;
        proof {
            assert forall|j: int| 0 <= j < i implies out.deep_view()[j]
                == v.deep_view().subrange(0, i as int)[j] by {
                assert(v.deep_view().subrange(0, i as int)[j] == v@[j].deep_view());
                if j < prev_seq.len() {
                    assert(out@[j] == prev_seq[j]);
                    assert(prev_deep[j] == prev_seq[j].deep_view());
                    assert(prev_deep[j] == v.deep_view().subrange(0, i - 1)[j]);
                } else {
                    assert(out@[j] == x);
                }
            }
            assert(out.deep_view() =~= v.deep_view().subrange(0, i as int));
        }
    }
    proof {
        assert(out.deep_view() =~= v.deep_view());
    }
    out
}

/// Copies a vector of alias/version pairs; the copy models the same sequence.
pub fn clone_alias_pairs(v: &Vec<(String, i64)>) -> (r: Vec<(String, i64)>)
    ensures
        r.deep_view() == v.deep_view(),
{
    let mut out: Vec<(String, i64)> = Vec::new();
    let mut i: usize = 0;
    while i < v.len()
        invariant
            i <= v.len(),
            out@.len() == i,
            out.deep_view() =~= v.deep_view().subrange(0, i as int),
        decreases v.len() - i,
    {
        let pair = &v[i];
        let x = (pair.0.clone(), pair.1);
        proof {
            assert(x == v@[i as int]);
        }
        let ghost prev_deep = out.deep_view();
        let ghost prev_seq = out@;
        out.push(x);
        i = i + 1;
        proof {
            assert forall|j: int| 0 <= j < i implies out.deep_view()[j]
                == v.deep_view().subrange(0, i as int)[j] by {
                assert(v.deep_view().subrange(0, i as int)[j] == v@[j].deep_view());
                if j < prev_seq.len() {
                    assert(out@[j] == prev_seq[j]);
                    assert(prev_deep[j] == prev_seq[j].deep_view());
                    assert(prev_deep[j] == v.deep_view().subrange(0, i - 1)[j]);
                } else {
                    assert(out@[j] == x);
                }
            }
            assert(out.deep_view() =~= v.deep_view().subrange(0, i as int));
        }
    }
    proof {
        assert(out.deep_view() =~= v.deep_view());
    }
    out
}

impl Clone for ReplicationPolicy {
    /// The copy models the same policy.
    fn clone(&self) -> (r: Self)
        ensures
            r@ == self@,
    {
        match self {
            ReplicationPolicy::Automatic => ReplicationPolicy::Automatic,
            ReplicationPolicy::UserManaged(locs) => ReplicationPolicy::UserManaged(
                clone_strings(locs),
            ),
        }
    }
}

impl Clone for RotationConfig {
    /// The copy equals the original.
    fn clone(&self) -> (r: Self)
        ensures
            r == *self,
    {
        RotationConfig {
            rotation_period: match &self.rotation_period {
                Some(s) => Some(s.clone()),
                None => None,
            },
            next_rotation_time: match &self.next_rotation_time {
                Some(s) => Some(s.clone()),
                None => None,
            },
        }
    }
}

impl Clone for SecretInfo {
    /// The copy models the same secret.
    fn clone(&self) -> (r: Self)
        ensures
            r@ == self@,
    {
        SecretInfo {
            short_name: self.short_name.clone(),
            create_time: self.create_time.clone(),
            labels: clone_string_pairs(&self.labels),
            annotations: clone_string_pairs(&self.annotations),
            replication: self.replication.clone(),
            topics: clone_strings(&self.topics),
            version_aliases: clone_alias_pairs(&self.version_aliases),
            rotation: match &self.rotation {
                Some(r) => Some(r.clone()),
                None => None,
            },
            version_destroy_ttl: match &self.version_destroy_ttl {
                Some(s) => Some(s.clone()),
                None => None,
            },
        }
    }
}

impl Clone for VersionInfo {
    /// The copy equals the original.
    fn clone(&self) -> (r: Self)
        ensures
            r == *self,
    {
        VersionInfo {
            version: self.version.clone(),
            state: self.state,
            create_time: self.create_time.clone(),
            destroy_time: match &self.destroy_time {
                Some(s) => Some(s.clone()),
                None => None,
            },
            scheduled_destroy_time: match &self.scheduled_destroy_time {
                Some(s) => Some(s.clone()),
                None => None,
            },
            has_checksum: self.has_checksum,
        }
    }
}

impl Clone for ProjectInfo {
    /// The copy equals the original.
    fn clone(&self) -> (r: Self)
        ensures
            r == *self,
    {
        ProjectInfo {
            project_id: self.project_id.clone(),
            display_name: self.display_name.clone(),
        }
    }
}

} // verus!
