//! The executor configuration and its validation.
//!
//! One [`Custom`] value describes how an arbitrary command-line tool is run
//! as a coding agent.  Two invariants must hold before any spawn: the base
//! command must not be empty or all-whitespace, and the `Arg` prompt mode
//! requires a `prompt_arg` flag to pair the prompt with.  [`Custom::validate`]
//! decides exactly these two conditions and is re-run at the start of every
//! spawn entry point, because configurations can be built directly in process
//! and must never reach spawning invalid.

use vstd::prelude::*;
use vstd::string::StringExecFns;

use crate::text::blank;
use crate::text::is_blank;

verus! {

/// How the prompt text reaches the spawned tool.
#[derive(Clone, Copy, Debug, PartialEq, Eq, Structural)]
pub enum PromptMode {
    /// Written to the child's standard input after spawn, then the stream is
    /// closed to signal end of input.
    Stdin,
    /// Appended to the argument list as a named pair: the configured
    /// `prompt_arg` flag, then the prompt text.
    Arg,
    /// Appended to the argument list as the final positional argument.
    LastPositional,
}

impl Default for PromptMode {
    /// Standard input is the default delivery mode.
    fn default() -> (r: Self)
        ensures
            r == PromptMode::Stdin,
    {
        PromptMode::Stdin
    }
}

/// A fixed suffix combined with every prompt before delivery; absent by
/// default, in which case prompts pass through unchanged.
#[derive(Clone, Debug)]
pub struct AppendPrompt(pub Option<String>);

/// The prompt as delivered: the prompt text followed by the configured
/// suffix, if any.
pub open spec fn combined_prompt(append: AppendPrompt, prompt: Seq<char>) -> Seq<char> {
    match append.0 {
        Some(suffix) => prompt + suffix@,
        None => prompt,
    }
}

impl AppendPrompt {
    /// Combine `prompt` with the configured suffix.
    pub fn combine_prompt(&self, prompt: &str) -> (r: String)
        ensures
            r@ == combined_prompt(*self, prompt@),
    {
        match &self.0 {
            Some(suffix) => {
                let mut out = prompt.to_owned();
                out.append(suffix.as_str());
                out
            },
            None => prompt.to_owned(),
        }
    }
}

impl Default for AppendPrompt {
    /// No suffix is configured by default.
    fn default() -> (r: Self)
        ensures
            r.0 is None,
    {
        AppendPrompt(None)
    }
}

/// One extra environment variable to set on the spawned process.
#[derive(Clone, Debug)]
pub struct EnvVar {
    pub key: String,
    pub value: String,
}

/// Copy a vector of environment variables; the copy holds the same entries.
pub fn clone_env_vars(v: &Vec<EnvVar>) -> (r: Vec<EnvVar>)
    ensures
        r@ == v@,
{
    let mut r: Vec<EnvVar> = Vec::new();
    let mut i: usize = 0;
    while i < v.len()
        invariant
            i <= v.len(),
            r@ == v@.take(i as int),
        decreases v.len() - i,
    {
        let entry = EnvVar { key: v[i].key.clone(), value: v[i].value.clone() };
        proof {
            assert(entry == v@[i as int]);
            assert(v@.take(i as int).push(v@[i as int]) =~= v@.take(i as int + 1));
        }
        r.push(entry);
        i = i + 1;
    }
    proof {
        assert(v@.take(v@.len() as int) =~= v@);
    }
    r
}

/// Structured overrides merged into command building: an optional
/// replacement for the base command (which takes precedence over it, not
/// merged with it), extra parameters appended in list order, and extra
/// environment variables applied after the execution environment's own.
#[derive(Clone, Debug)]
pub struct CmdOverrides {
    pub base_command_override: Option<String>,
    pub additional_params: Option<Vec<String>>,
    pub env: Option<Vec<EnvVar>>,
}

impl Default for CmdOverrides {
    /// No overrides.
    fn default() -> (r: Self)
        ensures
            r.base_command_override is None,
            r.additional_params is None,
            r.env is None,
    {
        CmdOverrides { base_command_override: None, additional_params: None, env: None }
    }
}

/// Why a configuration is rejected.
#[derive(Clone, Copy, Debug, PartialEq, Eq, Structural)]
pub enum ValidationError {
    /// The base command is empty or all-whitespace.
    EmptyCommand,
    /// `prompt_mode` is `Arg` but no `prompt_arg` flag is configured.
    MissingPromptArg,
}

/// What the executor reports about tool availability.  An arbitrary
/// user-supplied command cannot be probed ahead of time, so the custom
/// executor always reports the installation as found; absence only shows up
/// as a spawn failure.
#[derive(Clone, Copy, Debug, PartialEq, Eq, Structural)]
pub enum AvailabilityInfo {
    InstallationFound,
    InstallationNotFound,
}

/// How raw output of the child is turned into log entries.
#[derive(Clone, Copy, Debug, PartialEq, Eq, Structural)]
pub enum LogNormalization {
    /// Raw output is passed through untouched.
    PassThrough,
    /// Protocol messages are converted by the protocol log normalizer.
    Protocol,
}

/// Configuration of one custom command-line coding agent.
///
/// `A` is the approval capability: an opaque, shared authorization hook that
/// the protocol harness may call back into during a session.  This core never
/// invokes it; it only stores and forwards it, so the capability type is a
/// parameter.
#[derive(Clone, Debug)]
pub struct Custom<A> {
    /// Base invocation, e.g. `npx -y @cline/cli`; must not be blank.
    pub command: String,
    /// How the prompt reaches the tool.
    pub prompt_mode: PromptMode,
    /// Flag paired with the prompt when `prompt_mode` is `Arg`.
    pub prompt_arg: Option<String>,
    /// Whether the tool speaks the agent-client protocol.
    pub acp: bool,
    /// Namespace under which protocol session state is organized; a fixed
    /// default applies when absent.
    pub session_namespace: Option<String>,
    /// Suffix combined with every prompt before delivery.
    pub append_prompt: AppendPrompt,
    /// Command overrides merged into command building.
    pub cmd: CmdOverrides,
    /// Approval capability; absent until installed via [`Custom::use_approvals`].
    pub approvals: Option<A>,
}

impl<A> Custom<A> {
    /// The two configuration invariants: a non-blank command, and a
    /// `prompt_arg` whenever the prompt mode is `Arg`.
    pub open spec fn spec_valid(self) -> bool {
        &&& !blank(self.command@)
        &&& !(self.prompt_mode is Arg && self.prompt_arg is None)
    }

    /// The exact outcome of validation: a blank command is reported first,
    /// then a missing prompt flag; every other configuration is accepted.
    pub open spec fn spec_validate(self) -> Result<(), ValidationError> {
        if blank(self.command@) {
            Err(ValidationError::EmptyCommand)
        } else if self.prompt_mode is Arg && self.prompt_arg is None {
            Err(ValidationError::MissingPromptArg)
        } else {
            Ok(())
        }
    }

    /// Validate the configuration.
    ///
    /// Fails with `EmptyCommand` exactly when the trimmed command is empty,
    /// and with `MissingPromptArg` exactly when the prompt mode is `Arg` and
    /// no `prompt_arg` is configured; succeeds on every other configuration,
    /// whatever its remaining fields.
    pub fn validate(&self) -> (r: Result<(), ValidationError>)
        ensures
            r == self.spec_validate(),
            r is Ok <==> self.spec_valid(),
    {
        if is_blank(self.command.as_str()) {
            return Err(ValidationError::EmptyCommand);
        }
        if self.prompt_mode == PromptMode::Arg && self.prompt_arg.is_none() {
            return Err(ValidationError::MissingPromptArg);
        }
        Ok(())
    }

    /// Install or replace the approval capability; every other field is left
    /// untouched.  Callable at any time before a spawn.
    pub fn use_approvals(&mut self, approvals: A)
        ensures
            final(self).approvals == Some(approvals),
            final(self).command == old(self).command,
            final(self).prompt_mode == old(self).prompt_mode,
            final(self).prompt_arg == old(self).prompt_arg,
            final(self).acp == old(self).acp,
            final(self).session_namespace == old(self).session_namespace,
            final(self).append_prompt == old(self).append_prompt,
            final(self).cmd == old(self).cmd,
    {
        self.approvals = Some(approvals);
    }

    /// A custom command cannot be probed for presence ahead of time, so the
    /// installation is always reported as found.
    pub fn get_availability_info(&self) -> (r: AvailabilityInfo)
        ensures
            r == AvailabilityInfo::InstallationFound,
    {
        AvailabilityInfo::InstallationFound
    }

    /// There is no fixed configuration-file convention for an arbitrary
    /// external tool, so no default path exists.
    pub fn default_mcp_config_path(&self) -> (r: Option<String>)
        ensures
            r is None,
    {
        None
    }

    /// Which log treatment applies: protocol normalization for protocol
    /// tools, pass-through for everything else.
    pub fn log_normalization(&self) -> (r: LogNormalization)
        ensures
            r == (if self.acp {
                LogNormalization::Protocol
            } else {
                LogNormalization::PassThrough
            }),
    {
        if self.acp {
            LogNormalization::Protocol
        } else {
            LogNormalization::PassThrough
        }
    }
}

} // verus!
