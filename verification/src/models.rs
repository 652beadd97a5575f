//! Data model for agent sessions.

use vstd::prelude::*;
use vstd::string::StringExecFns;
use crate::external;
use crate::text;

verus! {

/// Type of agent a session hosts. The built-in set is closed; any other
/// tag is carried verbatim in `Custom`.
#[derive(Debug)]
pub enum AgentType {
    Feature,
    Bugfix,
    Review,
    Research,
    Refactor,
    Test,
    Docs,
    Shepherd,
    Custom(String),
}

/// Specification-level mirror of [`AgentType`].
pub ghost enum AgentTypeV {
    Feature,
    Bugfix,
    Review,
    Research,
    Refactor,
    Test,
    Docs,
    Shepherd,
    Custom(Seq<char>),
}

impl View for AgentType {
    type V = AgentTypeV;

    open spec fn view(&self) -> AgentTypeV {
        match self {
            AgentType::Feature => AgentTypeV::Feature,
            AgentType::Bugfix => AgentTypeV::Bugfix,
            AgentType::Review => AgentTypeV::Review,
            AgentType::Research => AgentTypeV::Research,
            AgentType::Refactor => AgentTypeV::Refactor,
            AgentType::Test => AgentTypeV::Test,
            AgentType::Docs => AgentTypeV::Docs,
            AgentType::Shepherd => AgentTypeV::Shepherd,
            AgentType::Custom(name) => AgentTypeV::Custom(name@),
        }
    }
}

impl DeepView for AgentType {
    type V = AgentTypeV;

    open spec fn deep_view(&self) -> AgentTypeV {
        self.view()
    }
}

impl AgentTypeV {
    /// The canonical tag of an agent type.
    pub open spec fn tag(&self) -> Seq<char> {
        match self {
            AgentTypeV::Feature => "feature"@,
            AgentTypeV::Bugfix => "bugfix"@,
            AgentTypeV::Review => "review"@,
            AgentTypeV::Research => "research"@,
            AgentTypeV::Refactor => "refactor"@,
            AgentTypeV::Test => "test"@,
            AgentTypeV::Docs => "docs"@,
            AgentTypeV::Shepherd => "shepherd"@,
            AgentTypeV::Custom(name) => *name,
        }
    }
}

/// True for the tags that name a built-in agent type.
pub open spec fn is_builtin_tag(tag: Seq<char>) -> bool {
    ||| tag == "feature"@
    ||| tag == "bugfix"@
    ||| tag == "review"@
    ||| tag == "research"@
    ||| tag == "refactor"@
    ||| tag == "test"@
    ||| tag == "docs"@
    ||| tag == "shepherd"@
}

impl AgentType {
    /// Parse an agent type from a string. Matching is case-insensitive; an
    /// unrecognised tag becomes `Custom`, carrying the folded string.
    #[allow(clippy::should_implement_trait)]
    pub fn from_str(s: &str) -> (r: Result<Self, String>)
        ensures
            r is Ok,
            (r->Ok_0)@.tag() == external::lower_of(s@),
            (r->Ok_0)@ is Custom <==> !is_builtin_tag(external::lower_of(s@)),
    {
        let low = external::to_lowercase(s);
        if text::str_eq(low.as_str(), "feature") {
            Ok(AgentType::Feature)
        } else if text::str_eq(low.as_str(), "bugfix") {
            Ok(AgentType::Bugfix)
        } else if text::str_eq(low.as_str(), "review") {
            Ok(AgentType::Review)
        } else if text::str_eq(low.as_str(), "research") {
            Ok(AgentType::Research)
        } else if text::str_eq(low.as_str(), "refactor") {
            Ok(AgentType::Refactor)
        } else if text::str_eq(low.as_str(), "test") {
            Ok(AgentType::Test)
        } else if text::str_eq(low.as_str(), "docs") {
            Ok(AgentType::Docs)
        } else if text::str_eq(low.as_str(), "shepherd") {
            Ok(AgentType::Shepherd)
        } else {
            Ok(AgentType::Custom(low))
        }
    }

    /// Convert to string.
    pub fn as_str(&self) -> (r: &str)
        ensures
            r@ == self@.tag(),
    {
        match self {
            AgentType::Feature => "feature",
            AgentType::Bugfix => "bugfix",
            AgentType::Review => "review",
            AgentType::Research => "research",
            AgentType::Refactor => "refactor",
            AgentType::Test => "test",
            AgentType::Docs => "docs",
            AgentType::Shepherd => "shepherd",
            AgentType::Custom(name) => name.as_str(),
        }
    }

    /// Get the default context template name for this agent type.
    pub fn default_template(&self) -> (r: &str)
        ensures
            r@ == self@.tag(),
    {
        self.as_str()
    }
}

impl Clone for AgentType {
    fn clone(&self) -> (r: Self)
        ensures
            r@ == self@,
    {
        match self {
            AgentType::Feature => AgentType::Feature,
            AgentType::Bugfix => AgentType::Bugfix,
            AgentType::Review => AgentType::Review,
            AgentType::Research => AgentType::Research,
            AgentType::Refactor => AgentType::Refactor,
            AgentType::Test => AgentType::Test,
            AgentType::Docs => AgentType::Docs,
            AgentType::Shepherd => AgentType::Shepherd,
            AgentType::Custom(name) => AgentType::Custom(name.clone()),
        }
    }
}

impl PartialEq for AgentType {
    fn eq(&self, other: &AgentType) -> (r: bool) {
        proof {
            lemma_agent_type_view_variants(self);
            lemma_agent_type_view_variants(other);
        }
        match self {
            AgentType::Feature => match other {
                AgentType::Feature => true,
                _ => false,
            },
            AgentType::Bugfix => match other {
                AgentType::Bugfix => true,
                _ => false,
            },
            AgentType::Review => match other {
                AgentType::Review => true,
                _ => false,
            },
            AgentType::Research => match other {
                AgentType::Research => true,
                _ => false,
            },
            AgentType::Refactor => match other {
                AgentType::Refactor => true,
                _ => false,
            },
            AgentType::Test => match other {
                AgentType::Test => true,
                _ => false,
            },
            AgentType::Docs => match other {
                AgentType::Docs => true,
                _ => false,
            },
            AgentType::Shepherd => match other {
                AgentType::Shepherd => true,
                _ => false,
            },
            AgentType::Custom(a) => match other {
                AgentType::Custom(b) => text::str_eq(a.as_str(), b.as_str()),
                _ => false,
            },
        }
    }
}

/// The view of an agent type lands in the variant that mirrors its own.
pub proof fn lemma_agent_type_view_variants(a: &AgentType)
    ensures
        a is Feature <==> a@ is Feature,
        a is Bugfix <==> a@ is Bugfix,
        a is Review <==> a@ is Review,
        a is Research <==> a@ is Research,
        a is Refactor <==> a@ is Refactor,
        a is Test <==> a@ is Test,
        a is Docs <==> a@ is Docs,
        a is Shepherd <==> a@ is Shepherd,
        a is Custom <==> a@ is Custom,
        a is Custom ==> a@->Custom_0 == a->Custom_0@,
{
}

impl vstd::std_specs::cmp::PartialEqSpecImpl for AgentType {
    open spec fn obeys_eq_spec() -> bool {
        true
    }

    open spec fn eq_spec(&self, other: &AgentType) -> bool {
        self@ == other@
    }
}

/// Lifecycle status of a session.
#[derive(Debug, Clone, Copy, PartialEq, Eq, Structural)]
pub enum SessionStatus {
    Active,
    Paused,
    Integrated,
    Archived,
    Abandoned,
}

/// The label of a session status, as it appears in activity entries and
/// reports.
pub open spec fn status_label(s: SessionStatus) -> Seq<char> {
    match s {
        SessionStatus::Active => "Active"@,
        SessionStatus::Paused => "Paused"@,
        SessionStatus::Integrated => "Integrated"@,
        SessionStatus::Archived => "Archived"@,
        SessionStatus::Abandoned => "Abandoned"@,
    }
}

impl SessionStatus {
    /// The label for the status, used in activity entries and reports.
    pub fn as_str(&self) -> (r: &str)
        ensures
            r@ == status_label(*self),
    {
        match self {
            SessionStatus::Active => "Active",
            SessionStatus::Paused => "Paused",
            SessionStatus::Integrated => "Integrated",
            SessionStatus::Archived => "Archived",
            SessionStatus::Abandoned => "Abandoned",
        }
    }
}

/// Kind of an activity-log entry. The set is closed.
#[derive(Debug, Clone, Copy, PartialEq, Eq, Structural)]
pub enum ActivityType {
    SessionCreated,
    ContextEdited,
    AiLaunched,
    CommitMade,
    PrCreated,
    PrSynced,
    PrCommentReceived,
    ShepherdRun,
    Cascaded,
    Gathered,
    Integrated,
    StatusChanged,
    ParentLinked,
    ChildAdded,
}

/// An immutable, append-only activity record.
#[derive(Debug)]
pub struct ActivityEvent {
    /// When the event occurred, in milliseconds since the Unix epoch.
    pub timestamp: i64,
    /// Type of event.
    pub event_type: ActivityType,
    /// Event details.
    pub details: String,
}

/// Specification-level mirror of [`ActivityEvent`].
pub ghost struct ActivityEventV {
    pub timestamp: i64,
    pub event_type: ActivityType,
    pub details: Seq<char>,
}

impl View for ActivityEvent {
    type V = ActivityEventV;

    open spec fn view(&self) -> ActivityEventV {
        ActivityEventV { timestamp: self.timestamp, event_type: self.event_type, details: self.details@ }
    }
}

impl DeepView for ActivityEvent {
    type V = ActivityEventV;

    open spec fn deep_view(&self) -> ActivityEventV {
        self.view()
    }
}

impl Clone for ActivityEvent {
    fn clone(&self) -> (r: Self)
        ensures
            r@ == self@,
    {
        ActivityEvent {
            timestamp: self.timestamp,
            event_type: self.event_type,
            details: self.details.clone(),
        }
    }
}

/// What caused a context snapshot.
#[derive(Debug, Clone, Copy, PartialEq, Eq, Structural)]
pub enum SnapshotTrigger {
    Manual,
    BeforeCascade,
    BeforeGather,
    AfterPrReview,
    OnPause,
}

/// Snapshot metadata.
#[derive(Debug)]
pub struct SnapshotInfo {
    /// Snapshot name.
    pub name: String,
    /// When the snapshot was taken, in milliseconds since the Unix epoch.
    pub timestamp: i64,
    /// File path.
    pub path: String,
    /// Description.
    pub description: Option<String>,
    /// Trigger that created this snapshot.
    pub trigger: SnapshotTrigger,
}

/// Specification-level mirror of [`SnapshotInfo`].
pub ghost struct SnapshotInfoV {
    pub name: Seq<char>,
    pub timestamp: i64,
    pub path: Seq<char>,
    pub description: Option<Seq<char>>,
    pub trigger: SnapshotTrigger,
}

impl View for SnapshotInfo {
    type V = SnapshotInfoV;

    open spec fn view(&self) -> SnapshotInfoV {
        SnapshotInfoV {
            name: self.name@,
            timestamp: self.timestamp,
            path: self.path@,
            description: self.description.deep_view(),
            trigger: self.trigger,
        }
    }
}

impl DeepView for SnapshotInfo {
    type V = SnapshotInfoV;

    open spec fn deep_view(&self) -> SnapshotInfoV {
        self.view()
    }
}

impl Clone for SnapshotInfo {
    fn clone(&self) -> (r: Self)
        ensures
            r@ == self@,
    {
        SnapshotInfo {
            name: self.name.clone(),
            timestamp: self.timestamp,
            path: self.path.clone(),
            description: match &self.description {
                Some(d) => Some(d.clone()),
                None => None,
            },
            trigger: self.trigger,
        }
    }
}

/// Status of an associated pull request.
#[derive(Debug, Clone, Copy, PartialEq, Eq, Structural)]
pub enum PrStatus {
    Open,
    Draft,
    Merged,
    Closed,
}

/// A review comment pulled from an associated pull request.
#[derive(Debug)]
pub struct ReviewComment {
    /// Comment identifier.
    pub id: u64,
    /// File path the comment refers to.
    pub path: String,
    /// Line number, where the comment is attached to one.
    pub line: Option<u32>,
    /// Comment body.
    pub body: String,
    /// Author.
    pub author: String,
    /// When the comment was created, in milliseconds since the Unix epoch.
    pub created_at: i64,
    /// Whether the comment counts as resolved.
    pub resolved: bool,
    /// Diff hunk the comment refers to.
    pub diff_hunk: Option<String>,
}

/// Specification-level mirror of [`ReviewComment`].
pub ghost struct ReviewCommentV {
    pub id: u64,
    pub path: Seq<char>,
    pub line: Option<u32>,
    pub body: Seq<char>,
    pub author: Seq<char>,
    pub created_at: i64,
    pub resolved: bool,
    pub diff_hunk: Option<Seq<char>>,
}

impl View for ReviewComment {
    type V = ReviewCommentV;

    open spec fn view(&self) -> ReviewCommentV {
        ReviewCommentV {
            id: self.id,
            path: self.path@,
            line: self.line,
            body: self.body@,
            author: self.author@,
            created_at: self.created_at,
            resolved: self.resolved,
            diff_hunk: self.diff_hunk.deep_view(),
        }
    }
}

impl DeepView for ReviewComment {
    type V = ReviewCommentV;

    open spec fn deep_view(&self) -> ReviewCommentV {
        self.view()
    }
}

impl Clone for ReviewComment {
    fn clone(&self) -> (r: Self)
        ensures
            r@ == self@,
    {
        ReviewComment {
            id: self.id,
            path: self.path.clone(),
            line: self.line,
            body: self.body.clone(),
            author: self.author.clone(),
            created_at: self.created_at,
            resolved: self.resolved,
            diff_hunk: match &self.diff_hunk {
                Some(d) => Some(d.clone()),
                None => None,
            },
        }
    }
}

/// Counters a session accumulates over its lifetime. Updated only through
/// the increment operations below.
#[derive(Debug, Clone, Copy, PartialEq, Eq, Structural)]
pub struct SessionMetrics {
    /// Total active time in seconds.
    pub total_time_secs: i64,
    /// Number of commits.
    pub commits: u32,
    /// Lines added.
    pub lines_added: u32,
    /// Lines removed.
    pub lines_removed: u32,
    /// Files changed.
    pub files_changed: u32,
    /// Number of AI interactions.
    pub ai_interactions: u32,
    /// Total tokens used.
    pub tokens_used: u64,
}

impl Default for SessionMetrics {
    fn default() -> (r: Self)
        ensures
            r == (SessionMetrics {
                total_time_secs: 0,
                commits: 0,
                lines_added: 0,
                lines_removed: 0,
                files_changed: 0,
                ai_interactions: 0,
                tokens_used: 0,
            }),
    {
        SessionMetrics {
            total_time_secs: 0,
            commits: 0,
            lines_added: 0,
            lines_removed: 0,
            files_changed: 0,
            ai_interactions: 0,
            tokens_used: 0,
        }
    }
}

impl SessionMetrics {
    /// Update metrics from diff statistics: line counters accumulate, the
    /// files-changed count is replaced.
    pub fn update_from_git_stats(&mut self, added: u32, removed: u32, files: u32)
        requires
            old(self).lines_added + added <= u32::MAX,
            old(self).lines_removed + removed <= u32::MAX,
        ensures
            *final(self) == (SessionMetrics {
                lines_added: (old(self).lines_added + added) as u32,
                lines_removed: (old(self).lines_removed + removed) as u32,
                files_changed: files,
                ..*old(self)
            }),
    {
        self.lines_added = self.lines_added + added;
        self.lines_removed = self.lines_removed + removed;
        self.files_changed = files;
    }

    /// Record one AI interaction and the tokens it used.
    pub fn record_ai_interaction(&mut self, tokens: u64)
        requires
            old(self).ai_interactions + 1 <= u32::MAX,
            old(self).tokens_used + tokens <= u64::MAX,
        ensures
            *final(self) == (SessionMetrics {
                ai_interactions: (old(self).ai_interactions + 1) as u32,
                tokens_used: (old(self).tokens_used + tokens) as u64,
                ..*old(self)
            }),
    {
        self.ai_interactions = self.ai_interactions + 1;
        self.tokens_used = self.tokens_used + tokens;
    }

    /// Add active time.
    pub fn add_time(&mut self, duration_secs: i64)
        requires
            i64::MIN <= old(self).total_time_secs + duration_secs <= i64::MAX,
        ensures
            *final(self) == (SessionMetrics {
                total_time_secs: (old(self).total_time_secs + duration_secs) as i64,
                ..*old(self)
            }),
    {
        self.total_time_secs = self.total_time_secs + duration_secs;
    }

    /// Increment the commit count.
    pub fn increment_commits(&mut self)
        requires
            old(self).commits + 1 <= u32::MAX,
        ensures
            *final(self) == (SessionMetrics { commits: (old(self).commits + 1) as u32, ..*old(self) }),
    {
        self.commits = self.commits + 1;
    }
}

/// Session metadata: the central entity, one persisted record per name.
#[derive(Debug)]
pub struct Session {
    /// Unique session identifier.
    pub id: String,
    /// Human-readable session name; also the record key.
    pub name: String,
    /// When the session was created, in milliseconds since the Unix epoch.
    pub created: i64,
    /// When the session was last active, in milliseconds since the Unix epoch.
    pub last_active: i64,
    /// Type of agent.
    pub agent_type: AgentType,
    /// Current status.
    pub status: SessionStatus,
    /// Workbox name, used for workspace-client commands.
    pub workbox_name: String,
    /// Cached workbox path.
    pub workbox_path: String,
    /// Branch name.
    pub branch: String,
    /// Base branch.
    pub base_branch: String,
    /// Repository name.
    pub repo_name: String,
    /// Version-control-system tag: "git", "hg", or "jj".
    pub vcs_type: String,
    /// Parent session name, for a child session.
    pub parent: Option<String>,
    /// Child session names, in insertion order, without duplicates.
    pub children: Vec<String>,
    /// Context directory path.
    pub context_dir: String,
    /// Context snapshots.
    pub context_snapshots: Vec<SnapshotInfo>,
    /// Associated PR number.
    pub pr_number: Option<u64>,
    /// PR URL.
    pub pr_url: Option<String>,
    /// PR status.
    pub pr_status: Option<PrStatus>,
    /// Unresolved PR review comments.
    pub unresolved_comments: Vec<ReviewComment>,
    /// Append-only activity log.
    pub activity_log: Vec<ActivityEvent>,
    /// Session metrics.
    pub metrics: SessionMetrics,
    /// User-defined tags.
    pub tags: Vec<String>,
    /// User notes.
    pub notes: String,
    /// Advisory lock owner, as `user@host`; never enforced.
    pub locked_by: Option<String>,
}

/// Specification-level mirror of [`Session`].
pub ghost struct SessionV {
    pub id: Seq<char>,
    pub name: Seq<char>,
    pub created: i64,
    pub last_active: i64,
    pub agent_type: AgentTypeV,
    pub status: SessionStatus,
    pub workbox_name: Seq<char>,
    pub workbox_path: Seq<char>,
    pub branch: Seq<char>,
    pub base_branch: Seq<char>,
    pub repo_name: Seq<char>,
    pub vcs_type: Seq<char>,
    pub parent: Option<Seq<char>>,
    pub children: Seq<Seq<char>>,
    pub context_dir: Seq<char>,
    pub context_snapshots: Seq<SnapshotInfoV>,
    pub pr_number: Option<u64>,
    pub pr_url: Option<Seq<char>>,
    pub pr_status: Option<PrStatus>,
    pub unresolved_comments: Seq<ReviewCommentV>,
    pub activity_log: Seq<ActivityEventV>,
    pub metrics: SessionMetrics,
    pub tags: Seq<Seq<char>>,
    pub notes: Seq<char>,
    pub locked_by: Option<Seq<char>>,
}

impl View for Session {
    type V = SessionV;

    open spec fn view(&self) -> SessionV {
        SessionV {
            id: self.id@,
            name: self.name@,
            created: self.created,
            last_active: self.last_active,
            agent_type: self.agent_type@,
            status: self.status,
            workbox_name: self.workbox_name@,
            workbox_path: self.workbox_path@,
            branch: self.branch@,
            base_branch: self.base_branch@,
            repo_name: self.repo_name@,
            vcs_type: self.vcs_type@,
            parent: self.parent.deep_view(),
            children: self.children.deep_view(),
            context_dir: self.context_dir@,
            context_snapshots: self.context_snapshots.deep_view(),
            pr_number: self.pr_number,
            pr_url: self.pr_url.deep_view(),
            pr_status: self.pr_status,
            unresolved_comments: self.unresolved_comments.deep_view(),
            activity_log: self.activity_log.deep_view(),
            metrics: self.metrics,
            tags: self.tags.deep_view(),
            notes: self.notes@,
            locked_by: self.locked_by.deep_view(),
        }
    }
}

impl DeepView for Session {
    type V = SessionV;

    open spec fn deep_view(&self) -> SessionV {
        self.view()
    }
}

/// The spec-level predicate used by child-list removal: keep every name
/// other than the removed one.
pub open spec fn keeps_other(name: Seq<char>) -> spec_fn(Seq<char>) -> bool {
    |c: Seq<char>| c != name
}

impl Session {
    /// Create a new session record. The identifier is freshly generated and
    /// both timestamps are set to the current time.
    #[allow(clippy::too_many_arguments)]
    pub fn new(
        name: String,
        agent_type: AgentType,
        workbox_name: String,
        workbox_path: String,
        branch: String,
        base_branch: String,
        repo_name: String,
        vcs_type: String,
    ) -> (r: Session)
        ensures
            r@ == (SessionV {
                id: r@.id,
                name: name@,
                created: r@.created,
                last_active: r@.created,
                agent_type: agent_type@,
                status: SessionStatus::Active,
                workbox_name: workbox_name@,
                workbox_path: workbox_path@,
                branch: branch@,
                base_branch: base_branch@,
                repo_name: repo_name@,
                vcs_type: vcs_type@,
                parent: None,
                children: Seq::empty(),
                context_dir: ".hp/contexts/"@ + repo_name@ + "/"@ + name@,
                context_snapshots: Seq::empty(),
                pr_number: None,
                pr_url: None,
                pr_status: None,
                unresolved_comments: Seq::empty(),
                activity_log: Seq::empty(),
                metrics: SessionMetrics {
                    total_time_secs: 0,
                    commits: 0,
                    lines_added: 0,
                    lines_removed: 0,
                    files_changed: 0,
                    ai_interactions: 0,
                    tokens_used: 0,
                },
                tags: Seq::empty(),
                notes: Seq::empty(),
                locked_by: None,
            }),
            r@.id.len() == 36,
    {
        let now = external::now_millis();
        let ghost name_v = name@;
        let ghost repo_v = repo_name@;
        let mut context_dir = ".hp/contexts/".to_owned();
        context_dir.append(repo_name.as_str());
        context_dir.append("/");
        context_dir.append(name.as_str());
        proof {
            assert(context_dir@ =~= ".hp/contexts/"@ + repo_v + "/"@ + name_v);
        }
        let r = Session {
            id: external::fresh_uuid(),
            name,
            created: now,
            last_active: now,
            agent_type,
            status: SessionStatus::Active,
            workbox_name,
            workbox_path,
            branch,
            base_branch,
            repo_name,
            vcs_type,
            parent: None,
            children: Vec::new(),
            context_dir,
            context_snapshots: Vec::new(),
            pr_number: None,
            pr_url: None,
            pr_status: None,
            unresolved_comments: Vec::new(),
            activity_log: Vec::new(),
            metrics: SessionMetrics::default(),
            tags: Vec::new(),
            notes: String::new(),
            locked_by: None,
        };
        proof {
            assert(r@.children =~= Seq::<Seq<char>>::empty());
            assert(r@.context_snapshots =~= Seq::<SnapshotInfoV>::empty());
            assert(r@.unresolved_comments =~= Seq::<ReviewCommentV>::empty());
            assert(r@.activity_log =~= Seq::<ActivityEventV>::empty());
            assert(r@.tags =~= Seq::<Seq<char>>::empty());
            assert(r@.notes =~= Seq::<char>::empty());
        }
        r
    }

    /// Append an activity event and refresh the last-active timestamp.
    pub fn log_activity(&mut self, event_type: ActivityType, details: String)
        ensures
            final(self)@ == (SessionV {
                last_active: final(self)@.last_active,
                activity_log: old(self)@.activity_log.push(ActivityEventV {
                    timestamp: final(self)@.last_active,
                    event_type: event_type,
                    details: details@,
                }),
                ..old(self)@
            }),
    {
        let now = external::now_millis();
        let ghost details_v = details@;
        self.activity_log.push(ActivityEvent { timestamp: now, event_type, details });
        self.last_active = now;
        proof {
            assert(self@.activity_log =~= old(self)@.activity_log.push(ActivityEventV {
                timestamp: now,
                event_type: event_type,
                details: details_v,
            }));
        }
    }

    /// Refresh the last-active timestamp.
    pub fn touch(&mut self)
        ensures
            final(self)@ == (SessionV { last_active: final(self)@.last_active, ..old(self)@ }),
    {
        self.last_active = external::now_millis();
    }

    /// Whether the session carries an advisory lock owner.
    pub fn is_locked(&self) -> (r: bool)
        ensures
            r == (self@.locked_by is Some),
    {
        self.locked_by.is_some()
    }

    /// Add a child session name; a name already present is not added again.
    pub fn add_child(&mut self, child_name: String)
        ensures
            final(self)@ == (SessionV {
                children: if old(self)@.children.contains(child_name@) {
                    old(self)@.children
                } else {
                    old(self)@.children.push(child_name@)
                },
                ..old(self)@
            }),
    {
        let n = self.children.len();
        let mut i: usize = 0;
        while i < n
            invariant
                i <= n,
                n == self.children@.len(),
                forall|k: int| 0 <= k < i ==> self.children.deep_view()[k] != child_name@,
            decreases n - i,
        {
            if text::str_eq(self.children[i].as_str(), child_name.as_str()) {
                proof {
                    assert(self.children.deep_view()[i as int] == child_name@);
                    assert(old(self)@.children.contains(child_name@));
                }
                return ;
            }
            i = i + 1;
        }
        proof {
            assert(!old(self)@.children.contains(child_name@));
        }
        self.children.push(child_name);
        proof {
            assert(self.children.deep_view() =~= old(self)@.children.push(child_name@));
        }
    }

    /// Remove every occurrence of a child session name, keeping the order of
    /// the rest.
    pub fn remove_child(&mut self, child_name: &str)
        ensures
            final(self)@ == (SessionV {
                children: old(self)@.children.filter(keeps_other(child_name@)),
                ..old(self)@
            }),
    {
        let n = self.children.len();
        let mut kept: Vec<String> = Vec::new();
        let mut i: usize = 0;
        while i < n
            invariant
                i <= n,
                n == self.children@.len(),
                kept.deep_view() =~= self.children.deep_view().subrange(0, i as int).filter(
                    keeps_other(child_name@),
                ),
            decreases n - i,
        {
            let ghost prefix = self.children.deep_view().subrange(0, i as int);
            if !text::str_eq(self.children[i].as_str(), child_name) {
                kept.push(self.children[i].clone());
            }
            proof {
                assert(self.children.deep_view().subrange(0, i + 1 as int) =~= prefix.push(
                    self.children.deep_view()[i as int],
                ));
                lemma_filter_push(prefix, keeps_other(child_name@), self.children.deep_view()[i as int]);
            }
            i = i + 1;
        }
        proof {
            assert(self.children.deep_view().subrange(0, n as int) =~= self.children.deep_view());
        }
        self.children = kept;
    }
}

/// `filter` over a sequence extended by one element keeps the old result and
/// appends the element exactly when the predicate holds of it.
pub proof fn lemma_filter_push<A>(s: Seq<A>, pred: spec_fn(A) -> bool, x: A)
    ensures
        s.push(x).filter(pred) == if pred(x) {
            s.filter(pred).push(x)
        } else {
            s.filter(pred)
        },
{
    reveal(Seq::filter);
    assert(s.push(x).drop_last() =~= s);
    assert(s.push(x).last() == x);
}

impl Clone for Session {
    fn clone(&self) -> (r: Self)
        ensures
            r@ == self@,
    {
        let r = Session {
            id: self.id.clone(),
            name: self.name.clone(),
            created: self.created,
            last_active: self.last_active,
            agent_type: self.agent_type.clone(),
            status: self.status,
            workbox_name: self.workbox_name.clone(),
            workbox_path: self.workbox_path.clone(),
            branch: self.branch.clone(),
            base_branch: self.base_branch.clone(),
            repo_name: self.repo_name.clone(),
            vcs_type: self.vcs_type.clone(),
            parent: match &self.parent {
                Some(p) => Some(p.clone()),
                None => None,
            },
            children: clone_string_vec(&self.children),
            context_dir: self.context_dir.clone(),
            context_snapshots: clone_snapshot_vec(&self.context_snapshots),
            pr_number: self.pr_number,
            pr_url: match &self.pr_url {
                Some(u) => Some(u.clone()),
                None => None,
            },
            pr_status: self.pr_status,
            unresolved_comments: clone_comment_vec(&self.unresolved_comments),
            activity_log: clone_event_vec(&self.activity_log),
            metrics: self.metrics,
            tags: clone_string_vec(&self.tags),
            notes: self.notes.clone(),
            locked_by: match &self.locked_by {
                Some(l) => Some(l.clone()),
                None => None,
            },
        };
        proof {
            assert(r@ =~= self@);
        }
        r
    }
}

fn clone_string_vec(v: &Vec<String>) -> (r: Vec<String>)
    ensures
        r.deep_view() == v.deep_view(),
{
    let mut r: Vec<String> = Vec::new();
    let mut i: usize = 0;
    let n = v.len();
    while i < n
        invariant
            i <= n,
            n == v@.len(),
            r.deep_view() =~= v.deep_view().subrange(0, i as int),
        decreases n - i,
    {
        r.push(v[i].clone());
        proof {
            assert(v.deep_view().subrange(0, i + 1 as int) =~= v.deep_view().subrange(
                0,
                i as int,
            ).push(v.deep_view()[i as int]));
        }
        i = i + 1;
    }
    proof {
        assert(r.deep_view() =~= v.deep_view());
    }
    r
}

fn clone_event_vec(v: &Vec<ActivityEvent>) -> (r: Vec<ActivityEvent>)
    ensures
        r.deep_view() == v.deep_view(),
{
    let mut r: Vec<ActivityEvent> = Vec::new();
    let mut i: usize = 0;
    let n = v.len();
    while i < n
        invariant
            i <= n,
            n == v@.len(),
            r.deep_view() =~= v.deep_view().subrange(0, i as int),
        decreases n - i,
    {
        r.push(v[i].clone());
        proof {
            assert(v.deep_view().subrange(0, i + 1 as int) =~= v.deep_view().subrange(
                0,
                i as int,
            ).push(v.deep_view()[i as int]));
        }
        i = i + 1;
    }
    proof {
        assert(r.deep_view() =~= v.deep_view());
    }
    r
}

fn clone_snapshot_vec(v: &Vec<SnapshotInfo>) -> (r: Vec<SnapshotInfo>)
    ensures
        r.deep_view() == v.deep_view(),
{
    let mut r: Vec<SnapshotInfo> = Vec::new();
    let mut i: usize = 0;
    let n = v.len();
    while i < n
        invariant
            i <= n,
            n == v@.len(),
            r.deep_view() =~= v.deep_view().subrange(0, i as int),
        decreases n - i,
    {
        r.push(v[i].clone());
        proof {
            assert(v.deep_view().subrange(0, i + 1 as int) =~= v.deep_view().subrange(
                0,
                i as int,
            ).push(v.deep_view()[i as int]));
        }
        i = i + 1;
    }
    proof {
        assert(r.deep_view() =~= v.deep_view());
    }
    r
}

fn clone_comment_vec(v: &Vec<ReviewComment>) -> (r: Vec<ReviewComment>)
    ensures
        r.deep_view() == v.deep_view(),
{
    let mut r: Vec<ReviewComment> = Vec::new();
    let mut i: usize = 0;
    let n = v.len();
    while i < n
        invariant
            i <= n,
            n == v@.len(),
            r.deep_view() =~= v.deep_view().subrange(0, i as int),
        decreases n - i,
    {
        r.push(v[i].clone());
        proof {
            assert(v.deep_view().subrange(0, i + 1 as int) =~= v.deep_view().subrange(
                0,
                i as int,
            ).push(v.deep_view()[i as int]));
        }
        i = i + 1;
    }
    proof {
        assert(r.deep_view() =~= v.deep_view());
    }
    r
}

/// Information about a workbox, as the workspace client reports it.
#[derive(Debug)]
pub struct WorkboxInfo {
    /// Workbox name.
    pub name: String,
    /// Path to the workbox.
    pub path: String,
    /// Current branch.
    pub branch: String,
    /// Base branch.
    pub base_branch: String,
    /// Version-control-system tag.
    pub vcs_type: String,
    /// Current commit.
    pub commit: String,
}

/// Specification-level mirror of [`WorkboxInfo`].
pub ghost struct WorkboxInfoV {
    pub name: Seq<char>,
    pub path: Seq<char>,
    pub branch: Seq<char>,
    pub base_branch: Seq<char>,
    pub vcs_type: Seq<char>,
    pub commit: Seq<char>,
}

impl View for WorkboxInfo {
    type V = WorkboxInfoV;

    open spec fn view(&self) -> WorkboxInfoV {
        WorkboxInfoV {
            name: self.name@,
            path: self.path@,
            branch: self.branch@,
            base_branch: self.base_branch@,
            vcs_type: self.vcs_type@,
            commit: self.commit@,
        }
    }
}

impl Clone for WorkboxInfo {
    fn clone(&self) -> (r: Self)
        ensures
            r@ == self@,
    {
        WorkboxInfo {
            name: self.name.clone(),
            path: self.path.clone(),
            branch: self.branch.clone(),
            base_branch: self.base_branch.clone(),
            vcs_type: self.vcs_type.clone(),
            commit: self.commit.clone(),
        }
    }
}

/// Options for creating a workbox.
#[derive(Debug)]
pub struct WorkboxOptions {
    /// Base branch to create from.
    pub from: Option<String>,
    /// Version-control-system tag to use.
    pub vcs: Option<String>,
    /// Create on the current branch, without a new branch.
    pub no_branch: bool,
    /// Sparse checkout pattern.
    pub sparse: Option<String>,
    /// Additional options handed through to the workspace client.
    pub extra_options: Vec<(String, String)>,
}

impl Default for WorkboxOptions {
    fn default() -> (r: Self)
        ensures
            r.from is None,
            r.vcs is None,
            r.no_branch == false,
            r.sparse is None,
            r.extra_options@.len() == 0,
    {
        WorkboxOptions {
            from: None,
            vcs: None,
            no_branch: false,
            sparse: None,
            extra_options: Vec::new(),
        }
    }
}

/// The recommended handling of a review comment.
#[derive(Debug, Clone, Copy, PartialEq, Eq, Structural)]
pub enum ShepherdAction {
    /// Fix the issue with code changes.
    Fix,
    /// Ask for clarification.
    Clarify,
    /// Accept the feedback without changes.
    Acknowledge,
    /// Address later.
    Defer,
    /// Respectfully disagree.
    Disagree,
}

/// Confidence in a recommended action.
#[derive(Debug, Clone, Copy, PartialEq, Eq, Structural)]
pub enum ConfidenceLevel {
    High,
    Medium,
    Low,
}

impl ConfidenceLevel {
    /// A short label for the confidence level.
    pub fn as_str(&self) -> (r: &str) {
        match self {
            ConfidenceLevel::High => "high",
            ConfidenceLevel::Medium => "medium",
            ConfidenceLevel::Low => "low",
        }
    }
}

/// Analysis of one review comment.
#[derive(Debug)]
pub struct ShepherdAnalysis {
    /// Comment identifier.
    pub comment_id: u64,
    /// Recommended action.
    pub action: ShepherdAction,
    /// Confidence level.
    pub confidence: ConfidenceLevel,
    /// Summary.
    pub summary: String,
    /// Assessment.
    pub assessment: String,
    /// Code changes, where the action asks for a fix.
    pub changes: Option<String>,
    /// Response to post.
    pub response: String,
}

/// A context template.
#[derive(Debug)]
pub struct Template {
    /// Template name.
    pub name: String,
    /// Template content.
    pub content: String,
    /// Template variables.
    pub variables: Vec<String>,
    /// Template metadata.
    pub metadata: TemplateMetadata,
}

/// Metadata attached to a context template.
#[derive(Debug)]
pub struct TemplateMetadata {
    /// Author.
    pub author: String,
    /// Version.
    pub version: String,
    /// Description.
    pub description: String,
    /// Agent types this template is for.
    pub agent_types: Vec<AgentType>,
    /// Tags.
    pub tags: Vec<String>,
}

} // verus!
