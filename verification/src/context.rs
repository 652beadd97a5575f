//! Per-session context artifacts: path layout and the built-in templates.
//! Reading, writing and snapshotting the files themselves is the embedding
//! program's step.

use vstd::prelude::*;
use vstd::string::StringExecFns;
use crate::config::Config;
use crate::error::Error;
use crate::external;
use crate::models::AgentType;
use crate::models::Session;
use crate::models::SessionV;
use crate::text;

verus! {

/// Context manager.
pub struct ContextManager {
    /// The configuration the manager was created with.
    pub config: Config,
    /// The directory all context directories live under.
    pub context_base_dir: String,
}

impl ContextManager {
    /// Create a new context manager rooted at the configured context
    /// directory.
    pub fn new(config: Config) -> (r: Result<Self, Error>)
        ensures
            r matches Ok(m) && m.context_base_dir@ == config.hp.sessions.context_dir@,
    {
        let context_base_dir = config.hp.sessions.context_dir.clone();
        Ok(ContextManager { config, context_base_dir })
    }

    /// The path of a session's primary context file.
    pub fn get_context_path(&self, session: &Session) -> (r: String)
        ensures
            r@ == session@.context_dir + "/context.md"@,
    {
        let mut p = session.context_dir.clone();
        p.append("/context.md");
        p
    }
}

/// A template with each session placeholder replaced by the session's
/// value, applied in a fixed order.
pub open spec fn spec_substituted(template: Seq<char>, s: SessionV) -> Seq<char> {
    let r1 = text::spec_replaced(template, "{{session_name}}"@, s.name);
    let r2 = text::spec_replaced(r1, "{{session_type}}"@, s.agent_type.tag());
    let r3 = text::spec_replaced(r2, "{{repo_name}}"@, s.repo_name);
    let r4 = text::spec_replaced(r3, "{{branch}}"@, s.branch);
    let r5 = text::spec_replaced(r4, "{{base_branch}}"@, s.base_branch);
    let r6 = text::spec_replaced(r5, "{{vcs_type}}"@, s.vcs_type);
    text::spec_replaced(r6, "{{created_at}}"@, external::rfc3339_of(s.created))
}

impl ContextManager {
    /// Fill a context template with a session's values.
    pub fn substitute_variables(&self, template: &str, session: &Session) -> (r: String)
        ensures
            r@ == spec_substituted(template@, session@),
    {
        let r = text::replace_all(template, "{{session_name}}", session.name.as_str());
        let r = text::replace_all(r.as_str(), "{{session_type}}", session.agent_type.as_str());
        let r = text::replace_all(r.as_str(), "{{repo_name}}", session.repo_name.as_str());
        let r = text::replace_all(r.as_str(), "{{branch}}", session.branch.as_str());
        let r = text::replace_all(r.as_str(), "{{base_branch}}", session.base_branch.as_str());
        let r = text::replace_all(r.as_str(), "{{vcs_type}}", session.vcs_type.as_str());
        let created = external::format_rfc3339(session.created);
        let r = text::replace_all(r.as_str(), "{{created_at}}", created.as_str());
        r
    }
}

/// Get the built-in context template for an agent type; a custom type uses
/// the feature template.
pub fn get_builtin_template(agent_type: &AgentType) -> (r: String) {
    match agent_type {
        AgentType::Feature => TEMPLATE_FEATURE.to_owned(),
        AgentType::Bugfix => TEMPLATE_BUGFIX.to_owned(),
        AgentType::Test => TEMPLATE_TEST.to_owned(),
        AgentType::Docs => TEMPLATE_DOCS.to_owned(),
        AgentType::Review => TEMPLATE_REVIEW.to_owned(),
        AgentType::Research => TEMPLATE_RESEARCH.to_owned(),
        AgentType::Refactor => TEMPLATE_REFACTOR.to_owned(),
        AgentType::Shepherd => TEMPLATE_SHEPHERD.to_owned(),
        AgentType::Custom(_) => TEMPLATE_FEATURE.to_owned(),
    }
}

pub const TEMPLATE_FEATURE: &'static str = "# Feature Session: {{session_name}}\n\n**Type:** Feature Development\n**Repository:** {{repo_name}}\n**Branch:** {{branch}} (from {{base_branch}})\n**VCS:** {{vcs_type}}\n**Created:** {{created_at}}\n\n## Objective\n\n[Describe what feature you want to build]\n\n## Requirements\n\n- [ ] Requirement 1\n- [ ] Requirement 2\n\n## Implementation Plan\n\n1. Step 1\n2. Step 2\n\n## Testing Strategy\n\n- Unit tests for...\n- Integration tests for...\n\n## Notes\n\n";

pub const TEMPLATE_BUGFIX: &'static str = "# Bugfix Session: {{session_name}}\n\n**Type:** Bug Fix\n**Repository:** {{repo_name}}\n**Branch:** {{branch}} (from {{base_branch}})\n**VCS:** {{vcs_type}}\n**Created:** {{created_at}}\n\n## Bug Description\n\n[Describe the bug]\n\n## Reproduction Steps\n\n1. Step 1\n2. Step 2\n\n## Expected Behavior\n\n[What should happen]\n\n## Actual Behavior\n\n[What actually happens]\n\n## Root Cause Analysis\n\n[Your analysis]\n\n## Fix Plan\n\n1. Change 1\n2. Change 2\n\n## Testing\n\n- Test case 1\n- Test case 2\n\n## Notes\n\n";

pub const TEMPLATE_TEST: &'static str = "# Test Session: {{session_name}}\n\n**Type:** Test Development\n**Repository:** {{repo_name}}\n**Branch:** {{branch}} (from {{base_branch}})\n**VCS:** {{vcs_type}}\n**Created:** {{created_at}}\n\n## Objective\n\nWrite tests for...\n\n## Test Categories\n\n### Unit Tests\n- Test 1\n- Test 2\n\n### Integration Tests\n- Test 1\n- Test 2\n\n### E2E Tests\n- Test 1\n- Test 2\n\n## Coverage Goals\n\n- Target: XX%\n- Current: XX%\n\n## Notes\n\n";

pub const TEMPLATE_DOCS: &'static str = "# Documentation Session: {{session_name}}\n\n**Type:** Documentation\n**Repository:** {{repo_name}}\n**Branch:** {{branch}} (from {{base_branch}})\n**VCS:** {{vcs_type}}\n**Created:** {{created_at}}\n\n## Documentation Goals\n\n[What needs to be documented]\n\n## Audience\n\n[Who is this documentation for]\n\n## Outline\n\n1. Section 1\n2. Section 2\n\n## Notes\n\n";

pub const TEMPLATE_REVIEW: &'static str = "# Review Session: {{session_name}}\n\n**Type:** Code Review\n**Repository:** {{repo_name}}\n**Branch:** {{branch}} (from {{base_branch}})\n**VCS:** {{vcs_type}}\n**Created:** {{created_at}}\n\n## Review Focus\n\n[What to review]\n\n## Checklist\n\n- [ ] Code quality\n- [ ] Test coverage\n- [ ] Documentation\n- [ ] Performance\n- [ ] Security\n\n## Findings\n\n### Issues\n-\n\n### Suggestions\n-\n\n## Notes\n\n";

pub const TEMPLATE_RESEARCH: &'static str = "# Research Session: {{session_name}}\n\n**Type:** Research/Spike\n**Repository:** {{repo_name}}\n**Branch:** {{branch}} (from {{base_branch}})\n**VCS:** {{vcs_type}}\n**Created:** {{created_at}}\n\n## Research Question\n\n[What are we investigating]\n\n## Approach\n\n1. Step 1\n2. Step 2\n\n## Findings\n\n### Discovery 1\n-\n\n### Discovery 2\n-\n\n## Recommendations\n\n## Notes\n\n";

pub const TEMPLATE_REFACTOR: &'static str = "# Refactor Session: {{session_name}}\n\n**Type:** Refactoring\n**Repository:** {{repo_name}}\n**Branch:** {{branch}} (from {{base_branch}})\n**VCS:** {{vcs_type}}\n**Created:** {{created_at}}\n\n## Refactoring Goals\n\n[What needs to be refactored]\n\n## Current State\n\n[Describe current implementation]\n\n## Target State\n\n[Describe desired implementation]\n\n## Refactoring Plan\n\n1. Step 1\n2. Step 2\n\n## Safety Checks\n\n- [ ] All tests passing before refactor\n- [ ] Tests still passing after refactor\n- [ ] No behavior changes\n\n## Notes\n\n";

pub const TEMPLATE_SHEPHERD: &'static str = "# Shepherd Session: {{session_name}}\n\n**Type:** PR Comment Resolution\n**Repository:** {{repo_name}}\n**Branch:** {{branch}} (from {{base_branch}})\n**VCS:** {{vcs_type}}\n**Created:** {{created_at}}\n\n## PR Details\n\n**PR Number:**\n**PR Title:**\n\n## Unresolved Comments\n\n### Comment 1\n**File:**\n**Line:**\n**Author:**\n**Comment:**\n\n**Analysis:**\n- Action: [FIX/CLARIFY/ACKNOWLEDGE/DEFER/DISAGREE]\n- Confidence: [HIGH/MEDIUM/LOW]\n\n**Response:**\n\n---\n\n## Notes\n\n";

} // verus!
