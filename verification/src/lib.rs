//! Decision core of a configurable CLI coding-agent executor.
//!
//! A single configuration value describes how an arbitrary command-line tool
//! is invoked as a coding agent: the base command, how the prompt reaches the
//! tool (standard input, a named argument pair, or the last positional
//! argument), whether the tool speaks the agent-client protocol, and a set of
//! overrides (replacement base command, extra parameters, extra environment
//! variables).
//!
//! Everything that can be decided without touching the operating system is
//! decided here, with verified contracts: configuration validation, command
//! tokenization and override merging, prompt combination, and the exact spawn
//! plan (program tokens, stdin payload, environment additions, protocol
//! session namespace).  Actually resolving the program on the search path,
//! creating the process group, and driving the protocol session are I/O and
//! live outside this crate; they consume the plans produced here.

pub mod command;
pub mod config;
pub mod laws;
pub mod spawn;
pub mod text;

pub use command::CommandBuilder;
pub use command::CommandParts;
pub use command::PlanError;
pub use command::apply_overrides;
pub use config::AppendPrompt;
pub use config::AvailabilityInfo;
pub use config::CmdOverrides;
pub use config::Custom;
pub use config::EnvVar;
pub use config::LogNormalization;
pub use config::PromptMode;
pub use config::ValidationError;
pub use spawn::AcpAgentHarness;
pub use spawn::AcpSpawnPlan;
pub use spawn::SimpleSpawnPlan;
pub use spawn::SpawnDispatch;
pub use text::tokenize;
