//! Laws relating the spawn entry points to each other and to the prompt
//! delivery modes, proved once and for all configurations.

use vstd::prelude::*;

use crate::command::PlanError;
use crate::config::Custom;
use crate::config::PromptMode;
use crate::spawn::AcpSpawnPlan;
use crate::spawn::SimpleSpawnPlan;
use crate::spawn::SpawnDispatch;

verus! {

/// Prompt delivery shapes the argument list and nothing else: with stdin
/// delivery the argument list is exactly the builder's tokens and carries no
/// prompt text; with `Arg` delivery the configured flag and the combined
/// prompt are exactly the two trailing arguments; with last-positional
/// delivery the combined prompt is exactly the single trailing argument.
pub proof fn lemma_prompt_delivery<A>(c: Custom<A>, prompt: Seq<char>)
    requires
        c.prompt_mode is Arg ==> c.prompt_arg is Some,
    ensures
        c.prompt_mode is Stdin ==> c.spec_simple_args(prompt) == c.spec_builder_tokens(),
        c.prompt_mode is Arg ==> {
            let args = c.spec_simple_args(prompt);
            &&& args.len() == c.spec_builder_tokens().len() + 2
            &&& args[args.len() - 2] == c.prompt_arg.unwrap()@
            &&& args[args.len() - 1] == crate::config::combined_prompt(c.append_prompt, prompt)
            &&& args.take(args.len() - 2) == c.spec_builder_tokens()
        },
        c.prompt_mode is LastPositional ==> {
            let args = c.spec_simple_args(prompt);
            &&& args.len() == c.spec_builder_tokens().len() + 1
            &&& args[args.len() - 1] == crate::config::combined_prompt(c.append_prompt, prompt)
            &&& args.take(args.len() - 1) == c.spec_builder_tokens()
        },
{
    let bt = c.spec_builder_tokens();
    let ma = c.spec_mode_args(prompt);
    assert(c.spec_simple_args(prompt) == bt + ma);
    match c.prompt_mode {
        PromptMode::Stdin => {
            assert(bt + ma =~= bt);
        },
        PromptMode::Arg => {
            assert((bt + ma).take(bt.len() as int) =~= bt);
        },
        PromptMode::LastPositional => {
            assert((bt + ma).take(bt.len() as int) =~= bt);
        },
    }
}

/// With stdin delivery the prompt never reaches the argument list: the
/// arguments of a one-shot spawn are the same whatever the prompt.
pub proof fn lemma_stdin_args_ignore_prompt<A>(c: Custom<A>, prompt1: Seq<char>, prompt2: Seq<char>)
    requires
        c.prompt_mode is Stdin,
    ensures
        c.spec_simple_args(prompt1) == c.spec_simple_args(prompt2),
{
    assert(c.spec_simple_args(prompt1) =~= c.spec_simple_args(prompt2));
}

/// When two spawn dispatches agree on every observable component: same
/// path, same tokens, same stdin payload, same environment additions — or,
/// on the protocol path, same namespace, prompt, tokens and session.
pub open spec fn dispatches_agree(d1: SpawnDispatch, d2: SpawnDispatch) -> bool {
    match (d1, d2) {
        (SpawnDispatch::Simple(p1), SpawnDispatch::Simple(p2)) => {
            &&& p1.parts.tokens.deep_view() == p2.parts.tokens.deep_view()
            &&& p1.stdin_payload.deep_view() == p2.stdin_payload.deep_view()
            &&& p1.env_overrides@ == p2.env_overrides@
        },
        (SpawnDispatch::Acp(p1), SpawnDispatch::Acp(p2)) => {
            &&& p1.harness.session_namespace@ == p2.harness.session_namespace@
            &&& p1.prompt@ == p2.prompt@
            &&& p1.parts.tokens.deep_view() == p2.parts.tokens.deep_view()
            &&& p1.session_id.deep_view() == p2.session_id.deep_view()
        },
        _ => false,
    }
}

/// Spawning is repeatable: two spawn plans built from the same
/// configuration and prompt fail identically or agree on every observable
/// component, so repeated spawns share no state beyond the configuration.
pub proof fn lemma_spawn_plan_deterministic<A>(
    c: Custom<A>,
    prompt: Seq<char>,
    r1: Result<SpawnDispatch, PlanError>,
    r2: Result<SpawnDispatch, PlanError>,
)
    requires
        c.spawn_plan_post(prompt, r1),
        c.spawn_plan_post(prompt, r2),
    ensures
        r1 is Ok <==> r2 is Ok,
        r1 matches Err(e1) ==> r2 == Err::<SpawnDispatch, PlanError>(e1),
        r1 matches Ok(d1) ==> r2 matches Ok(d2) ==> dispatches_agree(d1, d2),
{
    if r1 is Ok && r2 is Ok {
        let d1 = r1.unwrap();
        let d2 = r2.unwrap();
        assert(r1 == Ok::<SpawnDispatch, PlanError>(d1));
        assert(r2 == Ok::<SpawnDispatch, PlanError>(d2));
        match (d1, d2) {
            (SpawnDispatch::Simple(p1), SpawnDispatch::Simple(p2)) => {
                assert(p1.matches(c, prompt) && p2.matches(c, prompt));
                assert(dispatches_agree(d1, d2));
            },
            (SpawnDispatch::Acp(p1), SpawnDispatch::Acp(p2)) => {
                assert(p1.matches_new(c, prompt) && p2.matches_new(c, prompt));
                assert(p1.session_id.deep_view() == None::<Seq<char>>);
                assert(p2.session_id.deep_view() == None::<Seq<char>>);
                assert(dispatches_agree(d1, d2));
            },
            (SpawnDispatch::Simple(p1), SpawnDispatch::Acp(p2)) => {
                assert(!c.acp && c.acp);
            },
            (SpawnDispatch::Acp(p1), SpawnDispatch::Simple(p2)) => {
                assert(c.acp && !c.acp);
            },
        }
    }
}

/// A follow-up without the protocol is a fresh spawn: when `acp` is off,
/// the follow-up entry point promises exactly what the spawn entry point
/// promises, the unused session identifier notwithstanding.
pub proof fn lemma_follow_up_without_acp<A>(
    c: Custom<A>,
    prompt: Seq<char>,
    session_id: Seq<char>,
    r: Result<SpawnDispatch, PlanError>,
)
    requires
        !c.acp,
    ensures
        c.spawn_follow_up_post(prompt, session_id, r) <==> c.spawn_plan_post(prompt, r),
{
}

} // verus!
