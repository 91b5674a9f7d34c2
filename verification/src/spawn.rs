//! Spawn planning: from a validated configuration and a prompt to the exact
//! plan a process runner executes.
//!
//! A plan fixes everything that can be decided without touching the
//! operating system: the resolved token list (program first), whether a
//! stdin pipe is opened and what is written to it, the extra environment
//! variables, and — on the protocol path — the session namespace, the
//! combined prompt handed to the harness, and the session to resume.  The
//! runner only resolves the program on the search path, creates the process
//! group (kill-on-drop, stdout and stderr captured), writes and closes stdin
//! when a payload is present, or hands the plan to the protocol harness.

use vstd::prelude::*;
use vstd::pervasive::unreached;

use crate::command::CommandBuilder;
use crate::command::CommandParts;
use crate::command::PlanError;
use crate::command::apply_overrides;
use crate::command::spec_effective_base;
use crate::command::spec_extra_params;
use crate::command::views_of;
use crate::config::Custom;
use crate::config::EnvVar;
use crate::config::PromptMode;
use crate::config::ValidationError;
use crate::config::clone_env_vars;
use crate::config::combined_prompt;
use crate::text::blank;
use crate::text::tokens_of;

verus! {

/// Handle on the external agent-client-protocol harness, identified by the
/// namespace under which it persists session state.  The harness itself —
/// protocol framing, message correlation, session persistence — lives
/// outside this crate; this type fixes what this core decides about it.
#[derive(Debug)]
pub struct AcpAgentHarness {
    pub session_namespace: String,
}

impl AcpAgentHarness {
    /// A harness persisting its sessions under `session_namespace`.
    pub fn with_session_namespace(session_namespace: String) -> (r: Self)
        ensures
            r.session_namespace == session_namespace,
    {
        AcpAgentHarness { session_namespace }
    }
}

/// Plan of a one-shot, non-protocol spawn.
#[derive(Debug)]
pub struct SimpleSpawnPlan {
    /// Resolved token list, prompt-mode arguments trailing; the first token
    /// names the program.
    pub parts: CommandParts,
    /// Combined prompt to write to the child's stdin, then close the
    /// stream; the stdin pipe is opened exactly when this is present.
    pub stdin_payload: Option<String>,
    /// Extra environment variables, applied after the execution
    /// environment's own so they take precedence.
    pub env_overrides: Vec<EnvVar>,
}

/// Plan of a protocol-session spawn, executed by the harness.
#[derive(Debug)]
pub struct AcpSpawnPlan {
    /// The harness to hand the session to, with its resolved namespace.
    pub harness: AcpAgentHarness,
    /// Combined prompt; the protocol itself carries it to the tool.
    pub prompt: String,
    /// Resolved token list with no prompt injected.
    pub parts: CommandParts,
    /// Session to resume; absent for a fresh session.
    pub session_id: Option<String>,
}

/// Where a spawn request is dispatched.
#[derive(Debug)]
pub enum SpawnDispatch {
    /// One-shot process via the simple spawner.
    Simple(SimpleSpawnPlan),
    /// Protocol session via the harness.
    Acp(AcpSpawnPlan),
}

impl SimpleSpawnPlan {
    /// The plan a one-shot spawn of `c` with `prompt` must produce.
    pub open spec fn matches<A>(self, c: Custom<A>, prompt: Seq<char>) -> bool {
        &&& self.parts.tokens.deep_view() == c.spec_simple_args(prompt)
        &&& self.parts.tokens@.len() > 0
        &&& self.stdin_payload.deep_view() == c.spec_stdin_payload(prompt)
        &&& self.env_overrides@ == c.spec_env_overrides()
    }
}

impl AcpSpawnPlan {
    /// What both protocol plans fix: namespace, combined prompt, tokens.
    pub open spec fn matches_common<A>(self, c: Custom<A>, prompt: Seq<char>) -> bool {
        &&& self.harness.session_namespace@ == c.spec_session_namespace()
        &&& self.prompt@ == combined_prompt(c.append_prompt, prompt)
        &&& self.parts.tokens.deep_view() == c.spec_builder_tokens()
        &&& self.parts.tokens@.len() > 0
    }

    /// The plan a fresh protocol session of `c` with `prompt` must produce.
    pub open spec fn matches_new<A>(self, c: Custom<A>, prompt: Seq<char>) -> bool {
        &&& self.matches_common(c, prompt)
        &&& self.session_id is None
    }

    /// The plan a protocol follow-up against `session_id` must produce.
    pub open spec fn matches_follow_up<A>(
        self,
        c: Custom<A>,
        prompt: Seq<char>,
        session_id: Seq<char>,
    ) -> bool {
        &&& self.matches_common(c, prompt)
        &&& self.session_id is Some
        &&& self.session_id.unwrap()@ == session_id
    }
}

impl<A> Custom<A> {
    /// Namespace under which the harness persists this agent's sessions:
    /// the configured one, or the fixed default.
    pub open spec fn spec_session_namespace(self) -> Seq<char> {
        match self.session_namespace {
            Some(ns) => ns@,
            None => "custom_sessions"@,
        }
    }

    /// Token list of the resolved command before any prompt injection:
    /// the whitespace split of the effective base command, then the
    /// overrides' extra parameters in list order.
    pub open spec fn spec_builder_tokens(self) -> Seq<Seq<char>> {
        tokens_of(spec_effective_base(self.command@, self.cmd)) + views_of(
            spec_extra_params(self.cmd),
        )
    }

    /// Tokens the prompt-delivery mode appends after everything else:
    /// nothing for stdin delivery, the flag/prompt pair for `Arg`, the
    /// combined prompt alone for `LastPositional`.
    pub open spec fn spec_mode_args(self, prompt: Seq<char>) -> Seq<Seq<char>> {
        match self.prompt_mode {
            PromptMode::Stdin => Seq::empty(),
            PromptMode::Arg => seq![
                self.prompt_arg.unwrap()@,
                combined_prompt(self.append_prompt, prompt),
            ],
            PromptMode::LastPositional => seq![combined_prompt(self.append_prompt, prompt)],
        }
    }

    /// Full argument token list of a one-shot spawn.
    pub open spec fn spec_simple_args(self, prompt: Seq<char>) -> Seq<Seq<char>> {
        self.spec_builder_tokens() + self.spec_mode_args(prompt)
    }

    /// What is written to the child's stdin: the combined prompt for stdin
    /// delivery, nothing otherwise.
    pub open spec fn spec_stdin_payload(self, prompt: Seq<char>) -> Option<Seq<char>> {
        if self.prompt_mode is Stdin {
            Some(combined_prompt(self.append_prompt, prompt))
        } else {
            None
        }
    }

    /// The overrides' extra environment variables, empty when absent.
    pub open spec fn spec_env_overrides(self) -> Seq<EnvVar> {
        match self.cmd.env {
            Some(env) => env@,
            None => Seq::empty(),
        }
    }

    /// The error a spawn entry point must report, if any: validation
    /// failures first, then an effective base command with no tokens.
    pub open spec fn spec_plan_error(self) -> Option<PlanError> {
        if blank(self.command@) {
            Some(PlanError::Invalid(ValidationError::EmptyCommand))
        } else if self.prompt_mode is Arg && self.prompt_arg is None {
            Some(PlanError::Invalid(ValidationError::MissingPromptArg))
        } else if blank(spec_effective_base(self.command@, self.cmd)) {
            Some(PlanError::EmptyCommandLine)
        } else {
            None
        }
    }

    /// Everything `spawn_plan` promises of its result.
    pub open spec fn spawn_plan_post(
        self,
        prompt: Seq<char>,
        r: Result<SpawnDispatch, PlanError>,
    ) -> bool {
        &&& (match self.spec_plan_error() {
            Some(e) => r == Err::<SpawnDispatch, PlanError>(e),
            None => r is Ok,
        })
        &&& (r matches Ok(d) ==> match d {
            SpawnDispatch::Simple(p) => !self.acp && p.matches(self, prompt),
            SpawnDispatch::Acp(p) => self.acp && p.matches_new(self, prompt),
        })
    }

    /// Everything `spawn_follow_up_plan` promises of its result.
    pub open spec fn spawn_follow_up_post(
        self,
        prompt: Seq<char>,
        session_id: Seq<char>,
        r: Result<SpawnDispatch, PlanError>,
    ) -> bool {
        &&& (match self.spec_plan_error() {
            Some(e) => r == Err::<SpawnDispatch, PlanError>(e),
            None => r is Ok,
        })
        &&& (r matches Ok(d) ==> match d {
            SpawnDispatch::Simple(p) => !self.acp && p.matches(self, prompt),
            SpawnDispatch::Acp(p) => self.acp && p.matches_follow_up(self, prompt, session_id),
        })
    }

    /// The command builder for this configuration: the base command with
    /// the overrides merged in.
    pub fn build_command_builder(&self) -> (r: CommandBuilder)
        ensures
            r.base@ == spec_effective_base(self.command@, self.cmd),
            r.params@ == spec_extra_params(self.cmd),
    {
        let builder = CommandBuilder::new(self.command.as_str());
        let r = apply_overrides(builder, &self.cmd);
        proof {
            assert(Seq::<String>::empty() + spec_extra_params(self.cmd) =~= spec_extra_params(
                self.cmd,
            ));
        }
        r
    }

    /// The harness this configuration's protocol sessions go through.
    pub fn harness(&self) -> (r: AcpAgentHarness)
        ensures
            r.session_namespace@ == self.spec_session_namespace(),
    {
        let namespace = match &self.session_namespace {
            Some(ns) => ns.clone(),
            None => "custom_sessions".to_owned(),
        };
        AcpAgentHarness::with_session_namespace(namespace)
    }

    /// Plan a one-shot, non-protocol spawn: combine the prompt, append the
    /// prompt-mode arguments, and resolve the token list.  Fails exactly
    /// when the effective base command is blank.
    pub fn simple_spawn_plan(&self, prompt: &str) -> (r: Result<SimpleSpawnPlan, PlanError>)
        requires
            self.spec_valid(),
        ensures
            r is Ok <==> !blank(spec_effective_base(self.command@, self.cmd)),
            r is Err ==> r == Err::<SimpleSpawnPlan, PlanError>(PlanError::EmptyCommandLine),
            r matches Ok(p) ==> p.matches(*self, prompt@),
    {
        let combined = self.append_prompt.combine_prompt(prompt);
        let mut builder = self.build_command_builder();
        let ghost base_params = builder.params@;
        match self.prompt_mode {
            PromptMode::Stdin => {},
            PromptMode::Arg => {
                match &self.prompt_arg {
                    Some(arg) => {
                        let mut mode_args: Vec<String> = Vec::new();
                        mode_args.push(arg.clone());
                        mode_args.push(combined.clone());
                        builder = builder.extend_params(mode_args);
                    },
                    None => {
                        return unreached();
                    },
                }
            },
            PromptMode::LastPositional => {
                let mut mode_args: Vec<String> = Vec::new();
                mode_args.push(combined.clone());
                builder = builder.extend_params(mode_args);
            },
        }
        proof {
            assert(views_of(builder.params@) =~= views_of(base_params) + self.spec_mode_args(
                prompt@,
            ));
        }
        let parts = match builder.build_initial() {
            Ok(parts) => parts,
            Err(e) => {
                return Err(e);
            },
        };
        let stdin_payload: Option<String> = match self.prompt_mode {
            PromptMode::Stdin => Some(combined),
            PromptMode::Arg => None,
            PromptMode::LastPositional => None,
        };
        let env_overrides = match &self.cmd.env {
            Some(env) => clone_env_vars(env),
            None => Vec::new(),
        };
        proof {
            assert(parts.tokens.deep_view() =~= self.spec_simple_args(prompt@));
            if self.cmd.env is None {
                assert(env_overrides@ =~= self.spec_env_overrides());
            }
        }
        Ok(SimpleSpawnPlan { parts, stdin_payload, env_overrides })
    }

    /// Plan a fresh protocol session: combine the prompt, resolve the token
    /// list with no prompt injected, and name the harness namespace.  Fails
    /// exactly when the effective base command is blank.
    pub fn acp_spawn_plan(&self, prompt: &str) -> (r: Result<AcpSpawnPlan, PlanError>)
        requires
            self.spec_valid(),
        ensures
            r is Ok <==> !blank(spec_effective_base(self.command@, self.cmd)),
            r is Err ==> r == Err::<AcpSpawnPlan, PlanError>(PlanError::EmptyCommandLine),
            r matches Ok(p) ==> p.matches_new(*self, prompt@),
    {
        let combined = self.append_prompt.combine_prompt(prompt);
        let harness = self.harness();
        let parts = match self.build_command_builder().build_initial() {
            Ok(parts) => parts,
            Err(e) => {
                return Err(e);
            },
        };
        Ok(AcpSpawnPlan { harness, prompt: combined, parts, session_id: None })
    }

    /// Plan a protocol follow-up: the same preparation as a fresh session,
    /// but against an existing session identifier, and with the command
    /// built via the follow-up path, which injects no prompt argument.
    pub fn acp_follow_up_plan(&self, prompt: &str, session_id: &str) -> (r: Result<
        AcpSpawnPlan,
        PlanError,
    >)
        requires
            self.spec_valid(),
        ensures
            r is Ok <==> !blank(spec_effective_base(self.command@, self.cmd)),
            r is Err ==> r == Err::<AcpSpawnPlan, PlanError>(PlanError::EmptyCommandLine),
            r matches Ok(p) ==> p.matches_follow_up(*self, prompt@, session_id@),
    {
        let combined = self.append_prompt.combine_prompt(prompt);
        let harness = self.harness();
        let parts = match self.build_command_builder().build_follow_up() {
            Ok(parts) => parts,
            Err(e) => {
                return Err(e);
            },
        };
        Ok(AcpSpawnPlan { harness, prompt: combined, parts, session_id: Some(
            session_id.to_owned(),
        ) })
    }

    /// Plan a spawn: validate, then dispatch on the protocol flag.  The
    /// result is fully determined by the configuration and the prompt.
    pub fn spawn_plan(&self, prompt: &str) -> (r: Result<SpawnDispatch, PlanError>)
        ensures
            self.spawn_plan_post(prompt@, r),
    {
        match self.validate() {
            Ok(()) => {},
            Err(e) => {
                return Err(PlanError::Invalid(e));
            },
        }
        if self.acp {
            match self.acp_spawn_plan(prompt) {
                Ok(p) => Ok(SpawnDispatch::Acp(p)),
                Err(e) => Err(e),
            }
        } else {
            match self.simple_spawn_plan(prompt) {
                Ok(p) => Ok(SpawnDispatch::Simple(p)),
                Err(e) => Err(e),
            }
        }
    }

    /// Plan a follow-up spawn: validate, then resume the protocol session —
    /// or, for non-protocol tools, plan a fresh one-shot spawn, since plain
    /// command-line invocations carry no state across runs.
    pub fn spawn_follow_up_plan(&self, prompt: &str, session_id: &str) -> (r: Result<
        SpawnDispatch,
        PlanError,
    >)
        ensures
            self.spawn_follow_up_post(prompt@, session_id@, r),
    {
        match self.validate() {
            Ok(()) => {},
            Err(e) => {
                return Err(PlanError::Invalid(e));
            },
        }
        if self.acp {
            match self.acp_follow_up_plan(prompt, session_id) {
                Ok(p) => Ok(SpawnDispatch::Acp(p)),
                Err(e) => Err(e),
            }
        } else {
            match self.simple_spawn_plan(prompt) {
                Ok(p) => Ok(SpawnDispatch::Simple(p)),
                Err(e) => Err(e),
            }
        }
    }
}

} // verus!
