//! Command building: from a configured base command and its overrides to the
//! resolved token list of one spawn attempt.
//!
//! Building starts from the base command string, or from its replacement when
//! an override is present; extra parameters from the overrides are appended
//! in list order, and prompt-mode arguments are appended after them, so the
//! prompt-delivery tokens are always the trailing elements.  The final token
//! list is the whitespace split of the base followed by the accumulated
//! parameters; its first token names the program, which a caller resolves on
//! the search path before spawning.

use vstd::prelude::*;

use crate::config::CmdOverrides;
use crate::config::ValidationError;
use crate::text::blank;
use crate::text::lemma_tokens_of_blank;
use crate::text::tokenize;
use crate::text::tokens_of;

verus! {

/// The views of a sequence of strings.
pub open spec fn views_of(strs: Seq<String>) -> Seq<Seq<char>> {
    Seq::new(strs.len(), |i: int| strs[i]@)
}

/// Copy a vector of strings; the copy holds the same strings.
pub fn clone_strings(v: &Vec<String>) -> (r: Vec<String>)
    ensures
        r@ == v@,
{
    let mut r: Vec<String> = Vec::new();
    let mut i: usize = 0;
    while i < v.len()
        invariant
            i <= v.len(),
            r@ == v@.take(i as int),
        decreases v.len() - i,
    {
        r.push(v[i].clone());
        proof {
            assert(v@.take(i as int).push(v@[i as int]) =~= v@.take(i as int + 1));
        }
        i = i + 1;
    }
    proof {
        assert(v@.take(v@.len() as int) =~= v@);
    }
    r
}

/// Why a spawn plan cannot be produced.
#[derive(Clone, Copy, Debug, PartialEq, Eq, Structural)]
pub enum PlanError {
    /// The configuration failed validation; spawning was never attempted.
    Invalid(ValidationError),
    /// The effective base command splits into no tokens, so there is no
    /// program to resolve.
    EmptyCommandLine,
}

/// The base command actually built: the override replaces the configured
/// command outright when present.
pub open spec fn spec_effective_base(command: Seq<char>, overrides: CmdOverrides) -> Seq<char> {
    match overrides.base_command_override {
        Some(replacement) => replacement@,
        None => command,
    }
}

/// The extra parameters contributed by the overrides, in list order.
pub open spec fn spec_extra_params(overrides: CmdOverrides) -> Seq<String> {
    match overrides.additional_params {
        Some(params) => params@,
        None => Seq::empty(),
    }
}

/// Accumulates a base command string and an ordered parameter list.
#[derive(Debug)]
pub struct CommandBuilder {
    pub base: String,
    pub params: Vec<String>,
}

impl CommandBuilder {
    /// Start from a base command with no parameters.
    pub fn new(command: &str) -> (r: Self)
        ensures
            r.base@ == command@,
            r.params@ == Seq::<String>::empty(),
    {
        CommandBuilder { base: command.to_owned(), params: Vec::new() }
    }

    /// Append parameters, keeping earlier ones in place.
    pub fn extend_params(self, extra: Vec<String>) -> (r: Self)
        ensures
            r.base == self.base,
            r.params@ == self.params@ + extra@,
    {
        let mut params = self.params;
        let mut extra = extra;
        params.append(&mut extra);
        CommandBuilder { base: self.base, params }
    }

    /// The full token list: the whitespace split of the base command
    /// followed by the accumulated parameters.
    pub open spec fn spec_tokens(self) -> Seq<Seq<char>> {
        tokens_of(self.base@) + views_of(self.params@)
    }

    /// Split the base command and append the parameters, producing the
    /// resolved token list of a fresh spawn.  Fails exactly when the base
    /// command is blank and thus names no program.
    pub fn build_initial(&self) -> (r: Result<CommandParts, PlanError>)
        ensures
            r is Ok <==> !blank(self.base@),
            r is Err ==> r == Err::<CommandParts, PlanError>(PlanError::EmptyCommandLine),
            r matches Ok(parts) ==> {
                &&& parts.tokens.deep_view() == self.spec_tokens()
                &&& parts.tokens@.len() > 0
            },
    {
        let mut tokens = tokenize(self.base.as_str());
        proof {
            lemma_tokens_of_blank(self.base@);
            assert(tokens.deep_view().len() == tokens@.len());
        }
        if tokens.is_empty() {
            return Err(PlanError::EmptyCommandLine);
        }
        let mut params = clone_strings(&self.params);
        let ghost head = tokens.deep_view();
        tokens.append(&mut params);
        proof {
            assert(tokens.deep_view() =~= head + views_of(self.params@));
        }
        Ok(CommandParts { tokens })
    }

    /// The token list of a follow-up spawn: the protocol carries the prompt
    /// itself, so no prompt argument is ever injected and the tokens are
    /// those of a fresh build.
    pub fn build_follow_up(&self) -> (r: Result<CommandParts, PlanError>)
        ensures
            r is Ok <==> !blank(self.base@),
            r is Err ==> r == Err::<CommandParts, PlanError>(PlanError::EmptyCommandLine),
            r matches Ok(parts) ==> {
                &&& parts.tokens.deep_view() == self.spec_tokens()
                &&& parts.tokens@.len() > 0
            },
    {
        self.build_initial()
    }
}

/// Merge the overrides into a builder: replace the base command when a
/// replacement is configured, and append the extra parameters in list order.
pub fn apply_overrides(builder: CommandBuilder, overrides: &CmdOverrides) -> (r: CommandBuilder)
    ensures
        r.base@ == spec_effective_base(builder.base@, *overrides),
        r.params@ == builder.params@ + spec_extra_params(*overrides),
{
    let base = match &overrides.base_command_override {
        Some(replacement) => replacement.clone(),
        None => builder.base,
    };
    let extra = match &overrides.additional_params {
        Some(params) => clone_strings(params),
        None => Vec::new(),
    };
    let with_base = CommandBuilder { base, params: builder.params };
    let r = with_base.extend_params(extra);
    proof {
        if overrides.additional_params is None {
            assert(builder.params@ + Seq::<String>::empty() =~= builder.params@
                + spec_extra_params(*overrides));
        }
    }
    r
}

/// An ordered, resolved command: the first token names the program, the rest
/// are its arguments.  Produced once per spawn attempt and never mutated.
#[derive(Debug)]
pub struct CommandParts {
    pub tokens: Vec<String>,
}

} // verus!
