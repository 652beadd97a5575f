//! Configuration model.
//!
//! Loading and merging of configuration files is performed by the embedding
//! program; this module holds the configuration data itself, its defaults,
//! and profile selection.

use vstd::prelude::*;
use crate::models::AgentType;
use crate::models::AgentTypeV;
use crate::text;

verus! {

/// Main configuration structure.
#[derive(Debug, Clone)]
pub struct Config {
    pub hp: HpConfig,
}

/// Top-level configuration.
#[derive(Debug, Clone)]
pub struct HpConfig {
    /// Default agent type.
    pub default_agent: AgentType,
    /// Workspace-client settings.
    pub hn: HnConfig,
    /// Session management settings.
    pub sessions: SessionConfig,
    /// AI tool integration settings.
    pub ai_tool: AiToolConfig,
    /// Multi-agent orchestration settings.
    pub orchestration: OrchestrationConfig,
    /// PR integration settings.
    pub pr: Option<PrConfig>,
    /// Template settings.
    pub templates: TemplateConfig,
    /// Configuration profiles, keyed by name.
    pub profiles: Vec<(String, ProfileConfig)>,
    /// Name of the active profile.
    pub active_profile: String,
}

/// Workspace-client configuration.
#[derive(Debug, Clone)]
pub struct HnConfig {
    /// Name or path of the workspace-client executable.
    pub command: String,
    /// Default options to pass to workspace-client commands.
    pub default_options: Vec<(String, String)>,
    /// Output format to request from the workspace client.
    pub output_format: String,
}

/// Session management configuration.
#[derive(Debug, Clone)]
pub struct SessionConfig {
    /// Where session metadata is stored.
    pub metadata_dir: String,
    /// Where contexts are stored.
    pub context_dir: String,
    /// Synchronize with the parent on commit.
    pub auto_sync: bool,
    /// Snapshot the context before major operations.
    pub auto_snapshot: bool,
}

/// AI tool configuration.
#[derive(Debug, Clone)]
pub struct AiToolConfig {
    /// AI tool command.
    pub command: String,
    /// Launch method.
    pub launch_method: LaunchMethod,
    /// Context strategy.
    pub context_strategy: ContextStrategy,
    /// Extra arguments.
    pub extra_args: Vec<String>,
    /// Environment variables.
    pub env: Vec<(String, String)>,
}

/// How the AI tool is launched.
#[derive(Debug, Clone, Copy, PartialEq, Eq, Structural)]
pub enum LaunchMethod {
    Exec,
    ShellFunction,
    Tmux,
    Screen,
}

/// How session context reaches the AI tool.
#[derive(Debug, Clone, Copy, PartialEq, Eq, Structural)]
pub enum ContextStrategy {
    SlashCommand,
    Flag,
    Env,
    File,
}

/// Orchestration configuration.
#[derive(Debug, Clone)]
pub struct OrchestrationConfig {
    pub enabled: bool,
    pub cascade_on_commit: bool,
    pub gather_strategy: GatherStrategy,
    pub conflict_strategy: ConflictStrategy,
}

/// When gathering happens.
#[derive(Debug, Clone, Copy, PartialEq, Eq, Structural)]
pub enum GatherStrategy {
    Manual,
    Auto,
    PrReady,
}

/// How merge conflicts are handled.
#[derive(Debug, Clone, Copy, PartialEq, Eq, Structural)]
pub enum ConflictStrategy {
    Prompt,
    ParentWins,
    ChildWins,
    Abort,
}

/// PR integration configuration.
#[derive(Debug, Clone)]
pub struct PrConfig {
    pub github: GitHubConfig,
    pub auto_create: bool,
    pub shepherd: ShepherdConfig,
}

/// GitHub settings.
#[derive(Debug, Clone)]
pub struct GitHubConfig {
    pub org: String,
    pub default_reviewers: Vec<String>,
    pub labels: Vec<String>,
}

/// Shepherd workflow settings.
#[derive(Debug, Clone)]
pub struct ShepherdConfig {
    pub auto_apply_safe: bool,
    pub confidence_threshold: ConfidenceLevel,
    pub auto_post_responses: bool,
    pub analysis_model: String,
}

/// Confidence threshold for automatic shepherd actions.
#[derive(Debug, Clone, Copy, PartialEq, Eq, Structural)]
pub enum ConfidenceLevel {
    High,
    Medium,
    Low,
}

/// Template configuration.
#[derive(Debug, Clone)]
pub struct TemplateConfig {
    /// Local template files, keyed by name.
    pub local: Vec<(String, String)>,
    /// Marketplace settings.
    pub marketplace: MarketplaceConfig,
}

/// Template marketplace settings.
#[derive(Debug, Clone)]
pub struct MarketplaceConfig {
    pub enabled: bool,
    pub registry_url: String,
    pub auto_update: bool,
    pub cache_dir: String,
}

/// One configuration profile; absent parts fall back to the main settings.
#[derive(Debug, Clone)]
pub struct ProfileConfig {
    pub hn: Option<HnConfig>,
    pub ai_tool: Option<AiToolConfig>,
    pub pr: Option<PrConfig>,
    pub orchestration: Option<OrchestrationConfig>,
}

/// The default workspace-client settings.
pub open spec fn is_default_hn(c: HnConfig) -> bool {
    &&& c.command@ == "hn"@
    &&& c.default_options@.len() == 0
    &&& c.output_format@ == "json"@
}

/// The default session settings.
pub open spec fn is_default_sessions(c: SessionConfig) -> bool {
    &&& c.metadata_dir@ == ".hp/sessions"@
    &&& c.context_dir@ == ".hp/contexts"@
    &&& c.auto_sync == false
    &&& c.auto_snapshot == false
}

/// The default AI tool settings.
pub open spec fn is_default_ai_tool(c: AiToolConfig) -> bool {
    &&& c.command@ == "ai-tool"@
    &&& c.launch_method == LaunchMethod::Exec
    &&& c.context_strategy == ContextStrategy::SlashCommand
    &&& c.extra_args@.len() == 0
    &&& c.env@.len() == 0
}

/// The default orchestration settings.
pub open spec fn is_default_orchestration(c: OrchestrationConfig) -> bool {
    &&& c.enabled == true
    &&& c.cascade_on_commit == false
    &&& c.gather_strategy == GatherStrategy::Manual
    &&& c.conflict_strategy == ConflictStrategy::Prompt
}

/// The default marketplace settings.
pub open spec fn is_default_marketplace(c: MarketplaceConfig) -> bool {
    &&& c.enabled == true
    &&& c.registry_url@ == "https://hp-templates.dev"@
    &&& c.auto_update == false
    &&& c.cache_dir@ == ".hp/cache/templates"@
}

/// The default template settings.
pub open spec fn is_default_templates(c: TemplateConfig) -> bool {
    &&& c.local@.len() == 0
    &&& is_default_marketplace(c.marketplace)
}

/// The default top-level settings.
pub open spec fn is_default_hp(c: HpConfig) -> bool {
    &&& c.default_agent@ == AgentTypeV::Feature
    &&& is_default_hn(c.hn)
    &&& is_default_sessions(c.sessions)
    &&& is_default_ai_tool(c.ai_tool)
    &&& is_default_orchestration(c.orchestration)
    &&& c.pr is None
    &&& is_default_templates(c.templates)
    &&& c.profiles@.len() == 0
    &&& c.active_profile@ == "default"@
}

impl Default for HnConfig {
    fn default() -> (r: Self)
        ensures
            is_default_hn(r),
    {
        HnConfig {
            command: "hn".to_owned(),
            default_options: Vec::new(),
            output_format: "json".to_owned(),
        }
    }
}

impl Default for SessionConfig {
    fn default() -> (r: Self)
        ensures
            is_default_sessions(r),
    {
        SessionConfig {
            metadata_dir: ".hp/sessions".to_owned(),
            context_dir: ".hp/contexts".to_owned(),
            auto_sync: false,
            auto_snapshot: false,
        }
    }
}

impl Default for AiToolConfig {
    fn default() -> (r: Self)
        ensures
            is_default_ai_tool(r),
    {
        AiToolConfig {
            command: "ai-tool".to_owned(),
            launch_method: LaunchMethod::Exec,
            context_strategy: ContextStrategy::SlashCommand,
            extra_args: Vec::new(),
            env: Vec::new(),
        }
    }
}

impl Default for OrchestrationConfig {
    fn default() -> (r: Self)
        ensures
            is_default_orchestration(r),
    {
        OrchestrationConfig {
            enabled: true,
            cascade_on_commit: false,
            gather_strategy: GatherStrategy::Manual,
            conflict_strategy: ConflictStrategy::Prompt,
        }
    }
}

impl Default for MarketplaceConfig {
    fn default() -> (r: Self)
        ensures
            is_default_marketplace(r),
    {
        MarketplaceConfig {
            enabled: true,
            registry_url: "https://hp-templates.dev".to_owned(),
            auto_update: false,
            cache_dir: ".hp/cache/templates".to_owned(),
        }
    }
}

impl Default for TemplateConfig {
    fn default() -> (r: Self)
        ensures
            is_default_templates(r),
    {
        TemplateConfig { local: Vec::new(), marketplace: MarketplaceConfig::default() }
    }
}

impl Default for ShepherdConfig {
    fn default() -> (r: Self)
        ensures
            r.auto_apply_safe == false,
            r.confidence_threshold == ConfidenceLevel::High,
            r.auto_post_responses == false,
            r.analysis_model@ == "gpt-4"@,
    {
        ShepherdConfig {
            auto_apply_safe: false,
            confidence_threshold: ConfidenceLevel::High,
            auto_post_responses: false,
            analysis_model: "gpt-4".to_owned(),
        }
    }
}

impl Default for HpConfig {
    fn default() -> (r: Self)
        ensures
            is_default_hp(r),
    {
        HpConfig {
            default_agent: AgentType::Feature,
            hn: HnConfig::default(),
            sessions: SessionConfig::default(),
            ai_tool: AiToolConfig::default(),
            orchestration: OrchestrationConfig::default(),
            pr: None,
            templates: TemplateConfig::default(),
            profiles: Vec::new(),
            active_profile: "default".to_owned(),
        }
    }
}

impl Default for Config {
    fn default() -> (r: Self)
        ensures
            is_default_hp(r.hp),
    {
        Config { hp: HpConfig::default() }
    }
}

impl Config {
    /// Merge two configurations; `other` takes precedence wholesale.
    pub fn merge(base: Self, other: Self) -> (r: Self)
        ensures
            r.hp == other.hp,
    {
        let mut base = base;
        base.hp = other.hp;
        base
    }

    /// The profile selected by `active_profile`: the first entry carrying
    /// that name, or nothing when none does.
    pub fn get_active_profile(&self) -> (r: Option<&ProfileConfig>)
        ensures
            r is Some <==> exists|i: int|
                0 <= i < self.hp.profiles@.len() && #[trigger] self.hp.profiles@[i].0@
                    == self.hp.active_profile@,
            r matches Some(p) ==> exists|i: int|
                {
                    &&& 0 <= i < self.hp.profiles@.len()
                    &&& #[trigger] self.hp.profiles@[i].0@ == self.hp.active_profile@
                    &&& *p == self.hp.profiles@[i].1
                    &&& forall|j: int|
                        0 <= j < i ==> #[trigger] self.hp.profiles@[j].0@
                            != self.hp.active_profile@
                },
    {
        let n = self.hp.profiles.len();
        let mut i: usize = 0;
        while i < n
            invariant
                i <= n,
                n == self.hp.profiles@.len(),
                forall|j: int|
                    0 <= j < i ==> #[trigger] self.hp.profiles@[j].0@
                        != self.hp.active_profile@,
            decreases n - i,
        {
            if text::str_eq(self.hp.profiles[i].0.as_str(), self.hp.active_profile.as_str()) {
                return Some(&self.hp.profiles[i].1);
            }
            i = i + 1;
        }
        None
    }
}

} // verus!
