//! Project configuration, as read from `forger.toml`.
//!
//! Loading the file is the application's business; this module holds the
//! values, their defaults, and what the generator derives from them.

use vstd::prelude::*;
use crate::text::owned;

verus! {

/// Models used for the different kinds of work.
#[derive(Debug, Clone)]
pub struct ModelsConfig {
    pub default: String,
    pub autonomous: String,
    pub reasoning: String,
    pub enhancement: String,
    pub fixer: String,
}

/// Settings of the autonomous loop.
#[derive(Debug, Clone)]
pub struct AutonomousConfig {
    pub max_iterations: u32,
    pub delay_between_sessions: u32,
    pub session_timeout_minutes: u32,
    pub auto_commit: bool,
    pub log_level: String,
}

/// Settings of the coding agent.
#[derive(Debug, Clone)]
pub struct AgentConfig {
    pub max_retry_attempts: u32,
    pub max_research_attempts: u32,
    pub single_feature_focus: bool,
    pub verification_sample_size: u32,
}

/// Settings of alternative-approach generation.
#[derive(Debug, Clone)]
pub struct AlternativeApproachesConfig {
    pub enabled: bool,
    pub num_approaches: u32,
    pub retry_threshold: u32,
    pub cache_results: bool,
    pub cache_dir: String,
}

/// MCP tool settings.
#[derive(Debug, Clone)]
pub struct McpConfig {
    pub prefer_osgrep: bool,
    pub use_sequential_thinking: bool,
    pub required_tools: Vec<String>,
}

/// Minimum content a generated specification must have.
#[derive(Debug, Clone, Copy, PartialEq, Eq)]
pub struct GenerationRequirements {
    pub min_features: u32,
    pub min_database_tables: u32,
    pub min_api_endpoints: u32,
    pub min_implementation_steps: u32,
}

/// Settings of spec generation.
#[derive(Debug, Clone)]
pub struct GenerationConfig {
    /// "comprehensive" or "minimal".
    pub complexity: String,
    pub enable_subagents: bool,
    pub include_security_section: bool,
    pub include_testing_strategy: bool,
    pub include_devops_section: bool,
    pub include_accessibility: bool,
    pub include_future_enhancements: bool,
}

/// Security settings.
#[derive(Debug, Clone)]
pub struct SecurityConfig {
    pub allowlist_file: String,
    pub enforce_allowlist: bool,
}

/// Terminal UI settings.
#[derive(Debug, Clone)]
pub struct UiConfig {
    pub spec_preview_lines: u32,
    pub verbose: bool,
    pub colored_output: bool,
    pub show_progress: bool,
}

/// Notification settings.
#[derive(Debug, Clone)]
pub struct NotificationsConfig {
    pub webhook_enabled: bool,
    pub webhook_url: Option<String>,
}

/// Conductor (planning) settings.
#[derive(Debug, Clone)]
pub struct ConductorConfig {
    pub context_dir: String,
    pub tracks_dir: String,
    pub auto_setup: bool,
    pub planning_mode: String,
    pub checkpoint_frequency: u32,
}

/// File locations.
#[derive(Debug, Clone)]
pub struct PathsConfig {
    pub app_spec_file: String,
    pub database_file: String,
    pub log_dir: String,
    pub vs_cache_dir: String,
    pub opencode_paths: Vec<String>,
}

/// Feature list settings.
#[derive(Debug, Clone)]
pub struct FeaturesConfig {
    pub categories: Vec<String>,
    pub priorities: Vec<String>,
    pub require_verification_command: bool,
    pub narrow_test_min_steps: u32,
    pub narrow_test_max_steps: u32,
    pub comprehensive_test_min_steps: u32,
}

/// What scaffolding creates.
#[derive(Debug, Clone)]
pub struct ScaffoldingConfig {
    pub git_init: bool,
    pub output_dir: String,
    pub create_opencode_dir: bool,
    pub create_scripts_dir: bool,
}

/// The whole configuration.
#[derive(Debug, Clone)]
pub struct Config {
    pub models: ModelsConfig,
    pub autonomous: AutonomousConfig,
    pub agent: AgentConfig,
    pub alternative_approaches: AlternativeApproachesConfig,
    pub mcp: McpConfig,
    pub generation: GenerationConfig,
    pub security: SecurityConfig,
    pub ui: UiConfig,
    pub notifications: NotificationsConfig,
    pub conductor: ConductorConfig,
    pub paths: PathsConfig,
    pub features: FeaturesConfig,
    pub scaffolding: ScaffoldingConfig,
}

/// The complexity level that asks for a minimal specification.
pub open spec fn is_minimal(complexity: Seq<char>) -> bool {
    complexity == "minimal"@
}

/// The minimum content asked of a specification at a complexity level.
pub open spec fn requirements_for(minimal: bool) -> GenerationRequirements {
    if minimal {
        GenerationRequirements {
            min_features: 5,
            min_database_tables: 2,
            min_api_endpoints: 5,
            min_implementation_steps: 3,
        }
    } else {
        GenerationRequirements {
            min_features: 15,
            min_database_tables: 5,
            min_api_endpoints: 15,
            min_implementation_steps: 6,
        }
    }
}

impl GenerationConfig {
    /// Whether the configured complexity is "minimal".
    pub fn is_minimal(&self) -> (b: bool)
        ensures
            b == is_minimal(self.complexity@),
    {
        let c = crate::text::to_chars(self.complexity.as_str());
        let m = crate::text::to_chars("minimal");
        crate::template_xml::chars_eq(c.as_slice(), m.as_slice())
    }

    /// The minimum requirements that follow from the complexity level.
    pub fn requirements(&self) -> (r: GenerationRequirements)
        ensures
            r == requirements_for(is_minimal(self.complexity@)),
    {
        if self.is_minimal() {
            GenerationRequirements {
                min_features: 5,
                min_database_tables: 2,
                min_api_endpoints: 5,
                min_implementation_steps: 3,
            }
        } else {
            GenerationRequirements {
                min_features: 15,
                min_database_tables: 5,
                min_api_endpoints: 15,
                min_implementation_steps: 6,
            }
        }
    }
}

/// A vector of owned copies of string slices.
fn owned_list(items: &[&str]) -> (v: Vec<String>)
    ensures
        v@.len() == items@.len(),
        forall|i: int| 0 <= i < items@.len() ==> #[trigger] v@[i]@ == items@[i]@,
{
    let mut v: Vec<String> = Vec::new();
    let mut i: usize = 0;
    while i < items.len()
        invariant
            i <= items@.len(),
            v@.len() == i,
            forall|k: int| 0 <= k < i ==> #[trigger] v@[k]@ == items@[k]@,
        decreases items.len() - i,
    {
        v.push(owned(items[i]));
        i = i + 1;
    }
    v
}

/// What the default configuration holds that the library relies on.
pub open spec fn is_default_config(c: Config) -> bool {
    &&& c.generation.complexity@ == "comprehensive"@
    &&& c.generation.enable_subagents
    &&& c.generation.include_security_section
    &&& c.generation.include_testing_strategy
    &&& !c.generation.include_devops_section
    &&& !c.generation.include_accessibility
    &&& !c.generation.include_future_enhancements
    &&& c.paths.app_spec_file@ == ".forger/app_brief.md"@
    &&& c.paths.database_file@ == ".forger/progress.db"@
    &&& c.paths.log_dir@ == ".forger/logs"@
    &&& c.paths.vs_cache_dir@ == ".vs-cache"@
    &&& c.security.allowlist_file@ == ".forger/security-allowlist.json"@
    &&& c.alternative_approaches.cache_dir@ == ".approach-cache"@
    &&& c.conductor.context_dir@ == ".conductor"@
    &&& c.features.priorities@.len() == 4
    &&& c.features.categories@.len() == 4
    &&& c.mcp.use_sequential_thinking
    &&& c.mcp.required_tools@.len() == 0
    &&& c.scaffolding.create_opencode_dir
    &&& !c.scaffolding.create_scripts_dir
    &&& !c.scaffolding.git_init
}

impl Config {
    /// The default configuration.
    pub fn default_config() -> (c: Config)
        ensures
            is_default_config(c),
    {
        Config {
            models: ModelsConfig {
                default: owned("opencode/big-pickle"),
                autonomous: owned("opencode/big-pickle"),
                reasoning: owned("opencode/big-pickle"),
                enhancement: owned("opencode/big-pickle"),
                fixer: owned("opencode/big-pickle"),
            },
            autonomous: AutonomousConfig {
                max_iterations: 0,
                delay_between_sessions: 5,
                session_timeout_minutes: 60,
                auto_commit: true,
                log_level: owned("info"),
            },
            agent: AgentConfig {
                max_retry_attempts: 3,
                max_research_attempts: 3,
                single_feature_focus: true,
                verification_sample_size: 3,
            },
            alternative_approaches: AlternativeApproachesConfig {
                enabled: false,
                num_approaches: 7,
                retry_threshold: 3,
                cache_results: true,
                cache_dir: owned(".approach-cache"),
            },
            mcp: McpConfig {
                prefer_osgrep: true,
                use_sequential_thinking: true,
                required_tools: Vec::new(),
            },
            generation: GenerationConfig {
                complexity: owned("comprehensive"),
                enable_subagents: true,
                include_security_section: true,
                include_testing_strategy: true,
                include_devops_section: false,
                include_accessibility: false,
                include_future_enhancements: false,
            },
            security: SecurityConfig {
                allowlist_file: owned(".forger/security-allowlist.json"),
                enforce_allowlist: true,
            },
            ui: UiConfig {
                spec_preview_lines: 25,
                verbose: false,
                colored_output: true,
                show_progress: true,
            },
            notifications: NotificationsConfig { webhook_enabled: false, webhook_url: None },
            conductor: ConductorConfig {
                context_dir: owned(".conductor"),
                tracks_dir: owned(".conductor/tracks"),
                auto_setup: true,
                planning_mode: owned("auto"),
                checkpoint_frequency: 5,
            },
            paths: PathsConfig {
                app_spec_file: owned(".forger/app_brief.md"),
                database_file: owned(".forger/progress.db"),
                log_dir: owned(".forger/logs"),
                vs_cache_dir: owned(".vs-cache"),
                opencode_paths: owned_list(&["opencode"]),
            },
            features: FeaturesConfig {
                categories: owned_list(&["functional", "style", "integration", "performance"]),
                priorities: owned_list(&["critical", "high", "medium", "low"]),
                require_verification_command: true,
                narrow_test_min_steps: 2,
                narrow_test_max_steps: 5,
                comprehensive_test_min_steps: 10,
            },
            scaffolding: ScaffoldingConfig {
                git_init: false,
                output_dir: owned("."),
                create_opencode_dir: true,
                create_scripts_dir: false,
            },
        }
    }
}

impl Default for Config {
    /// The default configuration.
    fn default() -> (c: Config)
        ensures
            is_default_config(c),
    {
        Config::default_config()
    }
}

} // verus!
