//! What a call of the spawn tools does with what it was asked for.
//!
//! The laws here hold the steps, the order, the report and the answer of a call against its
//! arguments and against what the host answered on the way.
use vstd::prelude::*;

use crate::spawn_agent::{
    after_spawn_event, after_spawn_events, calls_keep_their_request, is_action_of, is_begun,
    is_call, requested_fork_mode, spawn_steps, stated, steps_of, AgentSnapshot, CallView,
    SpawnAction, SpawnAgentArgs, SpawnAgentForkMode, SpawnAgentResult, SpawnEvent, SpawnMessage,
    SpawnOrder, SpawnReport, SpawnToolKind, SpawnedAgent, StageView, StepView,
};
use crate::text::{
    ascii_lowercase, decimal, digit_char, digits_value, is_digit, is_white_space, trim_end,
    trim_start, trimmed, usize_value, without_plus,
};

verus! {

/// The place of a step among the steps of any call.
pub open spec fn rank(step: StepView) -> int {
    match step {
        StepView::ReadMessage { .. } => 0,
        StepView::BuildConfig => 1,
        StepView::RequireExternalRuntime => 2,
        StepView::SetServiceTier { .. } => 3,
        StepView::RejectFullForkOverrides { .. } => 4,
        StepView::ApplyModelOverrides { .. } => 5,
        StepView::ApplyRole { .. } => 6,
        StepView::ApplyServiceTier { .. } => 7,
        StepView::ApplyRuntimeOverrides => 8,
        StepView::BuildSource { .. } => 9,
    }
}

/// The steps of a call are in order, and none is done twice: the message is read, the
/// configuration built, the role looked at, the tier set, model and effort applied before the
/// role, the tier settled, and the place of the agent made last.
pub proof fn steps_are_in_order(
    args: SpawnAgentArgs,
    kind: SpawnToolKind,
    fork_mode: Option<SpawnAgentForkMode>,
    earlier: int,
    later: int,
)
    requires
        0 <= earlier < later < spawn_steps(args, kind, fork_mode).len(),
    ensures
        rank(spawn_steps(args, kind, fork_mode)[earlier]) < rank(
            spawn_steps(args, kind, fork_mode)[later],
        ),
{
}

/// Every step carries what the arguments say: the message, the tier and the task as they were
/// given, the model and the effort as they were given, the role without the white space around
/// it.
pub proof fn steps_carry_the_request(
    args: SpawnAgentArgs,
    kind: SpawnToolKind,
    fork_mode: Option<SpawnAgentForkMode>,
    index: int,
)
    requires
        0 <= index < spawn_steps(args, kind, fork_mode).len(),
    ensures
        match spawn_steps(args, kind, fork_mode)[index] {
            StepView::ReadMessage { message } => message == args.message@,
            StepView::SetServiceTier { tier } => args.service_tier matches Some(asked) && tier
                == asked@,
            StepView::RejectFullForkOverrides { role, model, reasoning_effort } => {
                is_trimmed_text(role, args.agent_type) && is_text(model, args.model) && is_text(
                    reasoning_effort,
                    args.reasoning_effort,
                )
            },
            StepView::ApplyModelOverrides { model, reasoning_effort } => is_text(model, args.model)
                && is_text(reasoning_effort, args.reasoning_effort),
            StepView::ApplyRole { role } => is_trimmed_text(role, args.agent_type),
            StepView::ApplyServiceTier { requested } => is_text(requested, args.service_tier),
            StepView::BuildSource { role, task_name } => is_trimmed_text(role, args.agent_type)
                && task_name == args.task_name@,
            StepView::BuildConfig | StepView::RequireExternalRuntime
            | StepView::ApplyRuntimeOverrides => true,
        },
{
}

/// Whether characters are those of an optional text.
pub open spec fn is_text(characters: Option<Seq<char>>, text: Option<String>) -> bool {
    match (characters, text) {
        (Some(found), Some(given)) => found == given@,
        (None, None) => true,
        _ => false,
    }
}

/// Whether characters are those of an optional text without the white space around them; a text
/// of white space says nothing.
pub open spec fn is_trimmed_text(characters: Option<Seq<char>>, text: Option<String>) -> bool {
    match (characters, text) {
        (Some(found), Some(given)) => found == trimmed(given@) && found.len() > 0,
        (None, Some(given)) => trimmed(given@).len() == 0,
        (None, None) => true,
        _ => false,
    }
}

/// Every call reads its message, builds a configuration, settles the tier, takes over from the
/// caller's turn and makes the place of the agent. It looks at the role exactly for the external
/// tool, and sets a tier exactly where one was asked for. With the whole history of the caller
/// it refuses model, effort and role; else it applies them, whichever tool is called.
pub proof fn steps_follow_from_the_request(
    args: SpawnAgentArgs,
    kind: SpawnToolKind,
    fork_mode: Option<SpawnAgentForkMode>,
)
    ensures
        ({
            let steps = spawn_steps(args, kind, fork_mode);
            let full = fork_mode == Some(SpawnAgentForkMode::FullHistory);
            &&& has_rank(steps, 0) && has_rank(steps, 1)
            &&& has_rank(steps, 2) <==> kind == SpawnToolKind::ExternalRuntime
            &&& has_rank(steps, 3) <==> args.service_tier is Some
            &&& has_rank(steps, 4) <==> full
            &&& has_rank(steps, 5) <==> !full
            &&& has_rank(steps, 6) <==> !full
            &&& has_rank(steps, 7) && has_rank(steps, 8) && has_rank(steps, 9)
        }),
{
    let steps = spawn_steps(args, kind, fork_mode);
    assert(rank(steps[0]) == 0 && rank(steps[1]) == 1);
    assert(rank(steps[steps.len() - 1]) == 9 && rank(steps[steps.len() - 2]) == 8 && rank(
        steps[steps.len() - 3],
    ) == 7);
    if kind == SpawnToolKind::ExternalRuntime {
        assert(rank(steps[2]) == 2);
        if args.service_tier is Some {
            assert(rank(steps[3]) == 3);
        }
    } else if args.service_tier is Some {
        assert(rank(steps[2]) == 3);
    }
    if fork_mode == Some(SpawnAgentForkMode::FullHistory) {
        assert(rank(steps[steps.len() - 4]) == 4);
    } else {
        assert(rank(steps[steps.len() - 4]) == 6);
        assert(rank(steps[steps.len() - 5]) == 5);
    }
}

/// Whether there is a step of a rank.
pub open spec fn has_rank(steps: Seq<StepView>, wanted: int) -> bool {
    exists|i: int| 0 <= i < steps.len() && rank(#[trigger] steps[i]) == wanted
}

/// A request that is accepted and does not ask for the whole history of the caller has its model
/// and its effort applied in one step, as they were given, and in a later one its role. This
/// holds of both tools.
pub proof fn overrides_are_applied_as_asked(args: SpawnAgentArgs, kind: SpawnToolKind)
    requires
        requested_fork_mode(args, kind) is Ok,
        requested_fork_mode(args, kind)->Ok_0 != Some(SpawnAgentForkMode::FullHistory),
    ensures
        ({
            let steps = spawn_steps(args, kind, requested_fork_mode(args, kind)->Ok_0);
            exists|overrides: int, role: int|
                {
                    &&& 0 <= overrides < role < steps.len()
                    &&& #[trigger] steps[overrides] matches StepView::ApplyModelOverrides {
                        model,
                        reasoning_effort,
                    }
                    &&& is_text(model, args.model)
                    &&& is_text(reasoning_effort, args.reasoning_effort)
                    &&& #[trigger] steps[role] matches StepView::ApplyRole { role: applied }
                    &&& is_trimmed_text(applied, args.agent_type)
                    &&& forall|i: int|
                        0 <= i < steps.len() && i != overrides ==> !(#[trigger] steps[i]
                            is ApplyModelOverrides)
                    &&& forall|i: int|
                        0 <= i < steps.len() && i != role ==> !(#[trigger] steps[i] is ApplyRole)
                }
        }),
{
    let mode = requested_fork_mode(args, kind)->Ok_0;
    let steps = spawn_steps(args, kind, mode);
    let overrides = steps.len() - 5;
    let role = steps.len() - 4;
    steps_carry_the_request(args, kind, mode, overrides);
    steps_carry_the_request(args, kind, mode, role);
    assert(steps[overrides] is ApplyModelOverrides && steps[role] is ApplyRole);
    assert forall|i: int| 0 <= i < steps.len() && i != overrides implies !(#[trigger] steps[i]
        is ApplyModelOverrides) by {
        if i < overrides {
            steps_are_in_order(args, kind, mode, i, overrides);
        } else {
            steps_are_in_order(args, kind, mode, overrides, i);
        }
    }
    assert forall|i: int| 0 <= i < steps.len() && i != role implies !(#[trigger] steps[i]
        is ApplyRole) by {
        if i < role {
            steps_are_in_order(args, kind, mode, i, role);
        } else {
            steps_are_in_order(args, kind, mode, role, i);
        }
    }
}

/// Which of the two tools is called makes no difference to the steps but for the look at the
/// role, which comes third.
pub proof fn both_tools_take_the_same_steps(
    args: SpawnAgentArgs,
    fork_mode: Option<SpawnAgentForkMode>,
)
    ensures
        spawn_steps(args, SpawnToolKind::Reserved, fork_mode) == spawn_steps(
            args,
            SpawnToolKind::ExternalRuntime,
            fork_mode,
        ).remove(2),
{
    let native = spawn_steps(args, SpawnToolKind::Reserved, fork_mode);
    let external = spawn_steps(args, SpawnToolKind::ExternalRuntime, fork_mode);
    assert(native =~= external.remove(2));
}

/// Whether a text stands at a place of another, and all around it is white space.
pub open spec fn stands_in_white_space(inner: Seq<char>, text: Seq<char>, start: int) -> bool {
    &&& 0 <= start <= start + inner.len() <= text.len()
    &&& inner == text.subrange(start, start + inner.len())
    &&& forall|i: int|
        0 <= i < text.len() && !(start <= i < start + inner.len()) ==> is_white_space(
            #[trigger] text[i],
        )
}

/// White space around a text is no part of what it says: what is left begins and ends with
/// something else, and all that was taken away is white space.
pub proof fn trimmed_text_has_no_white_space_around(text: Seq<char>)
    ensures
        ({
            let inner = trimmed(text);
            &&& inner.len() > 0 ==> !is_white_space(inner.first()) && !is_white_space(
                inner.last(),
            )
            &&& exists|start: int| #[trigger] stands_in_white_space(inner, text, start)
        }),
{
    lemma_trim_start(text);
    let rest = trim_start(text);
    lemma_trim_end(rest);
    let inner = trim_end(rest);
    let start = text.len() - rest.len();
    assert(inner =~= text.subrange(start, start + inner.len()));
    assert forall|i: int|
        0 <= i < text.len() && !(start <= i < start + inner.len()) implies is_white_space(
        #[trigger] text[i],
    ) by {
        if i >= start {
            assert(text[i] == rest[i - start]);
        }
    }
    assert(stands_in_white_space(inner, text, start));
    if inner.len() > 0 {
        assert(inner.first() == rest.first());
    }
}

proof fn lemma_trim_start(text: Seq<char>)
    ensures
        ({
            let rest = trim_start(text);
            let start = text.len() - rest.len();
            &&& rest.len() <= text.len()
            &&& rest == text.skip(start)
            &&& forall|i: int| 0 <= i < start ==> is_white_space(#[trigger] text[i])
            &&& rest.len() > 0 ==> !is_white_space(rest.first())
        }),
    decreases text.len(),
{
    if text.len() > 0 && is_white_space(text.first()) {
        lemma_trim_start(text.drop_first());
        let rest = trim_start(text);
        let start = text.len() - rest.len();
        assert(rest =~= text.skip(start));
        assert forall|i: int| 0 <= i < start implies is_white_space(#[trigger] text[i]) by {
            if i > 0 {
                assert(text[i] == text.drop_first()[i - 1]);
            }
        }
    } else {
        assert(text.skip(0) =~= text);
    }
}

proof fn lemma_trim_end(text: Seq<char>)
    ensures
        ({
            let rest = trim_end(text);
            &&& rest.len() <= text.len()
            &&& rest == text.take(rest.len() as int)
            &&& forall|i: int| rest.len() <= i < text.len() ==> is_white_space(#[trigger] text[i])
            &&& rest.len() > 0 ==> !is_white_space(rest.last())
        }),
    decreases text.len(),
{
    if text.len() > 0 && is_white_space(text.last()) {
        lemma_trim_end(text.drop_last());
        let rest = trim_end(text);
        assert(rest =~= text.take(rest.len() as int));
        assert forall|i: int| rest.len() <= i < text.len() implies is_white_space(
            #[trigger] text[i],
        ) by {
            if i < text.len() - 1 {
                assert(text[i] == text.drop_last()[i]);
            }
        }
    } else {
        assert(text.take(text.len() as int) =~= text);
    }
}

/// A role, a fork mode or any other stated text is what was given without the white space around
/// it, and nothing where nothing else is left.
pub proof fn stated_text_is_trimmed(text: Option<String>)
    ensures
        is_trimmed_text(stated(text), text),
{
}

/// The history that an agent starts from depends on what `fork_turns` states and on whether
/// `fork_context` is given, and on nothing else of the request.
pub proof fn only_fork_arguments_decide_the_fork(
    first: SpawnAgentArgs,
    second: SpawnAgentArgs,
    kind: SpawnToolKind,
)
    requires
        stated(first.fork_turns) == stated(second.fork_turns),
        first.fork_context is Some == second.fork_context is Some,
    ensures
        requested_fork_mode(first, kind) == requested_fork_mode(second, kind),
{
}

/// `fork_context` is refused by both tools, whatever it says.
pub proof fn fork_context_is_refused(args: SpawnAgentArgs, kind: SpawnToolKind)
    requires
        args.fork_context is Some,
    ensures
        requested_fork_mode(args, kind) == Err::<Option<SpawnAgentForkMode>, Seq<char>>(
            "fork_context is not supported in MultiAgentV2; use fork_turns instead"@,
        ),
{
}

/// `none`, in capital or small letters, asks both tools for no history; `all` asks the native
/// one for the whole history and is refused by the other. Nothing at all asks the native tool
/// for the whole history and the other for none.
pub proof fn fork_words_mean_what_they_say(args: SpawnAgentArgs)
    requires
        args.fork_context is None,
    ensures
        ({
            let native = requested_fork_mode(args, SpawnToolKind::Reserved);
            let external = requested_fork_mode(args, SpawnToolKind::ExternalRuntime);
            match stated(args.fork_turns) {
                None => native == Ok::<Option<SpawnAgentForkMode>, Seq<char>>(
                    Some(SpawnAgentForkMode::FullHistory),
                ) && external == Ok::<Option<SpawnAgentForkMode>, Seq<char>>(None),
                Some(turns) => {
                    let word = ascii_lowercase(turns);
                    &&& word == "none"@ <==> native == Ok::<Option<SpawnAgentForkMode>, Seq<char>>(
                        None,
                    )
                    &&& word == "none"@ <==> external is Ok
                    &&& external is Ok ==> external->Ok_0 is None
                    &&& external matches Err(message) ==> message
                        == "runtime_agents.spawn_agent cannot fork Codex history; omit `fork_turns` or pass `none`"@
                    &&& word == "all"@ <==> native == Ok::<Option<SpawnAgentForkMode>, Seq<char>>(
                        Some(SpawnAgentForkMode::FullHistory),
                    )
                    &&& native matches Err(message) ==> message
                        == "fork_turns must be `none`, `all`, or a positive integer string"@
                }
            }
        }),
{
    reveal_strlit("none");
    reveal_strlit("all");
    assert(ascii_lowercase("none"@) =~= "none"@);
    assert(ascii_lowercase("all"@) =~= "all"@);
    assert("none"@.len() == 4 && "all"@.len() == 3);
}

/// The native tool takes a positive number in decimal as that many turns.
pub proof fn numbers_ask_for_that_many_turns(args: SpawnAgentArgs, turns: usize)
    requires
        args.fork_context is None,
        args.fork_turns matches Some(text) && text@ == decimal(turns as nat),
    ensures
        turns > 0 ==> requested_fork_mode(args, SpawnToolKind::Reserved) == Ok::<
            Option<SpawnAgentForkMode>,
            Seq<char>,
        >(Some(SpawnAgentForkMode::LastNTurns(turns))),
        turns == 0 ==> requested_fork_mode(args, SpawnToolKind::Reserved) is Err,
        requested_fork_mode(args, SpawnToolKind::ExternalRuntime) is Err,
{
    let text = decimal(turns as nat);
    decimal_reads_back(turns as nat);
    assert(is_digit(text[0]) && is_digit(text[text.len() - 1]));
    lemma_digits_are_no_white_space(text[0]);
    lemma_digits_are_no_white_space(text[text.len() - 1]);
    assert(trim_start(text) == text);
    assert(trim_end(text) == text);
    reveal_strlit("none");
    reveal_strlit("all");
    assert(ascii_lowercase(text)[0] == text[0]);
    assert(ascii_lowercase("none"@)[0] == 'n');
    assert(ascii_lowercase("all"@)[0] == 'a');
    assert(without_plus(text) == text);
    assert(usize_value(text) == Some(turns as nat));
}

proof fn lemma_digits_are_no_white_space(c: char)
    requires
        is_digit(c),
    ensures
        !is_white_space(c),
{
}

/// The decimal text of a number holds digits only, at least one, and stands for that number.
pub proof fn decimal_reads_back(number: nat)
    ensures
        decimal(number).len() > 0,
        forall|i: int|
            0 <= i < decimal(number).len() ==> is_digit(#[trigger] decimal(number)[i]),
        digits_value(decimal(number)) == number,
    decreases number,
{
    lemma_digit_char(number % 10);
    if number < 10 {
        let one = seq![digit_char(number)];
        lemma_digit_char(number);
        assert(one.drop_last() =~= Seq::empty());
        reveal_with_fuel(digits_value, 2);
        assert(decimal(number) == one);
        assert(one.last() == digit_char(number));
    } else {
        decimal_reads_back(number / 10);
        let text = decimal(number);
        assert(text.drop_last() =~= decimal(number / 10));
        assert forall|i: int| 0 <= i < text.len() implies is_digit(#[trigger] text[i]) by {
            if i < text.len() - 1 {
                assert(text[i] == decimal(number / 10)[i]);
            }
        }
    }
}

proof fn lemma_digit_char(digit: nat)
    requires
        digit < 10,
    ensures
        is_digit(digit_char(digit)),
        digit_char(digit) as nat - '0' as nat == digit,
{
}

/// Whether an event says that the host did a step.
pub open spec fn does(event: SpawnEvent, step: StepView) -> bool {
    match step {
        StepView::ReadMessage { .. } => event is Message,
        StepView::RequireExternalRuntime => event matches SpawnEvent::Runtime(Ok(id)) && id@
            != "codex"@,
        StepView::BuildSource { .. } => event matches SpawnEvent::Source(Some(_)),
        _ => event is Done,
    }
}

/// A step that is done leads to the next one, and the last one to the order to spawn. The
/// message is the one that was read, the path the one that was made. An external agent without a
/// role comes no further than to the look at it.
pub proof fn steps_are_done_one_by_one<E>(call: CallView<E>, event: SpawnEvent)
    requires
        is_call(call),
        call.stage is Steps,
        does(event, steps_of(call)[call.stage->done as int]),
    ensures
        ({
            let steps = steps_of(call);
            let done = call.stage->done;
            let message = match event {
                SpawnEvent::Message(text) => text@,
                _ => call.stage->Steps_message,
            };
            let next = after_spawn_event(call, event);
            if done + 1 == steps.len() {
                next matches Ok(now) && (event matches SpawnEvent::Source(Some(path)) && now == (
                CallView { stage: StageView::Spawn { message, path: path@ }, ..call }))
            } else if steps[(done + 1) as int] is RequireExternalRuntime && (forall|role: Seq<char>|
                !is_trimmed_text(Some(role), call.args.agent_type)) {
                next == Err::<CallView<E>, Seq<char>>(
                    "runtime_agents.spawn_agent requires `agent_type`"@,
                )
            } else {
                next == Ok::<CallView<E>, Seq<char>>(
                    CallView { stage: StageView::Steps { done: done + 1, message }, ..call },
                )
            }
        }),
{
    let steps = steps_of(call);
    let done = call.stage->done;
    lemma_ends_with_source(call.args, call.kind, call.fork_mode);
    steps_are_in_order(call.args, call.kind, call.fork_mode, 0, 1);
    if done + 1 < steps.len() {
        steps_are_in_order(call.args, call.kind, call.fork_mode, done as int, (done + 1) as int);
        match stated(call.args.agent_type) {
            Some(role) => {
                assert(is_trimmed_text(Some(role), call.args.agent_type));
            },
            None => {
                assert forall|role: Seq<char>| !is_trimmed_text(
                    Some(role),
                    call.args.agent_type,
                ) by {}
            },
        }
    }
}

proof fn lemma_ends_with_source(
    args: SpawnAgentArgs,
    kind: SpawnToolKind,
    fork_mode: Option<SpawnAgentForkMode>,
)
    ensures
        ({
            let steps = spawn_steps(args, kind, fork_mode);
            &&& steps.len() > 2
            &&& steps.last() is BuildSource
            &&& forall|i: int|
                0 <= i < steps.len() - 1 ==> !(#[trigger] steps[i] is BuildSource)
        }),
{
}

/// What fails ends a call with what the host said. A role of the native runtime ends a call of
/// the external tool; a role that is not known ends it with what the host said of it.
pub proof fn failures_end_a_call<E>(call: CallView<E>, event: SpawnEvent)
    requires
        is_call(call),
        call.stage is Steps,
    ensures
        ({
            let step = steps_of(call)[call.stage->done as int];
            let next = after_spawn_event(call, event);
            match event {
                SpawnEvent::Failed(error) => next == Err::<CallView<E>, Seq<char>>(
                    error->RespondToModel_0@,
                ),
                SpawnEvent::Runtime(Err(text)) if step is RequireExternalRuntime => next == Err::<
                    CallView<E>,
                    Seq<char>,
                >(text@),
                SpawnEvent::Runtime(
                    Ok(id),
                ) if step is RequireExternalRuntime && id@ == "codex"@ => next is Err
                    && exists|role: Seq<char>| #[trigger]
                    is_trimmed_text(Some(role), call.args.agent_type) && next->Err_0
                        == "runtime_agents.spawn_agent requires an external runtime role; agent_type `"@
                        + role + "` resolves to native Codex"@,
                SpawnEvent::Source(None) if step is BuildSource => next == Err::<
                    CallView<E>,
                    Seq<char>,
                >("spawned agent is missing a canonical task name"@),
                _ => !does(event, step) ==> next == Ok::<CallView<E>, Seq<char>>(call),
            }
        }),
{
    if let Some(role) = stated(call.args.agent_type) {
        assert(is_trimmed_text(Some(role), call.args.agent_type));
    }
}

/// After its steps a call spawns, asks what the host knows, reports, counts and answers, each
/// when the one before is done. Only the order to spawn can fail.
pub proof fn agents_are_spawned_known_reported_and_counted<E>(
    call: CallView<E>,
    event: SpawnEvent,
)
    requires
        !(call.stage is Steps),
    ensures
        ({
            let next = after_spawn_event(call, event);
            match (call.stage, event) {
                (StageView::Spawn { .. }, SpawnEvent::Failed(error)) => next == Err::<
                    CallView<E>,
                    Seq<char>,
                >(error->RespondToModel_0@),
                (
                    StageView::Spawn { message, path },
                    SpawnEvent::Spawned(spawned),
                ) => next->Ok_0.stage == (StageView::Snapshot { message, path, spawned }),
                (
                    StageView::Snapshot { message, path, spawned },
                    SpawnEvent::Snapshot(snapshot),
                ) => next->Ok_0.stage == (StageView::Report { message, path, spawned, snapshot }),
                (
                    StageView::Report { path, spawned, snapshot, .. },
                    SpawnEvent::Done,
                ) => next->Ok_0.stage matches StageView::Count { path: kept, nickname } && kept
                    == path && is_nickname_of(nickname, spawned, snapshot),
                (StageView::Count { path, nickname }, SpawnEvent::Done) => next->Ok_0.stage == (
                StageView::Finish { path, nickname }),
                _ => next == Ok::<CallView<E>, Seq<char>>(call),
            }
        }),
        after_spawn_event(call, event) is Err <==> call.stage is Spawn && event is Failed,
{
}

/// Whether a name is the nickname of a spawned agent: the one that the host knows of it, or else
/// the one that it was spawned with.
pub open spec fn is_nickname_of(
    name: Option<Seq<char>>,
    spawned: SpawnedAgent,
    snapshot: Option<AgentSnapshot>,
) -> bool {
    if snapshot is Some && snapshot->0.nickname is Some {
        is_text(name, snapshot->0.nickname)
    } else {
        is_text(name, spawned.nickname)
    }
}

/// The path of the caller, or of an agent without a parent where it has none.
pub open spec fn caller<E>(call: CallView<E>) -> Seq<char> {
    if call.context.author is Some {
        call.context.author->0@
    } else {
        call.context.root@
    }
}

/// The path that is known at a stage.
pub open spec fn stage_path(stage: StageView) -> Option<Seq<char>> {
    match stage {
        StageView::Steps { .. } => None,
        StageView::Spawn { path, .. } => Some(path),
        StageView::Snapshot { path, .. } => Some(path),
        StageView::Report { path, .. } => Some(path),
        StageView::Count { path, .. } => Some(path),
        StageView::Finish { path, .. } => Some(path),
    }
}

/// The agent gets, from its caller and at the place that was made for it, the message that was
/// read: a native one as the message of a tool, an external one as a message to it alone that
/// starts a turn.
pub proof fn orders_hand_the_message_over<'a, E>(call: CallView<E>, order: SpawnOrder<'a, E>)
    requires
        call.stage is Spawn,
        is_action_of(SpawnAction::Spawn(order), call),
    ensures
        match order.message {
            SpawnMessage::ToolMessage { author, recipient, message } => {
                &&& call.kind == SpawnToolKind::Reserved
                &&& author@ == caller(call)
                &&& recipient@ == call.stage->Spawn_path
                &&& message@ == call.stage->Spawn_message
            },
            SpawnMessage::Communication(communication) => {
                &&& call.kind == SpawnToolKind::ExternalRuntime
                &&& communication.author@ == caller(call)
                &&& communication.recipient@ == call.stage->Spawn_path
                &&& communication.other_recipients@.len() == 0
                &&& communication.content@ == call.stage->Spawn_message
                &&& communication.trigger_turn
            },
        },
{
}

/// The path of an agent is the one that the host made for the call.
pub proof fn paths_are_made_by_the_host<E>(call: CallView<E>, events: Seq<SpawnEvent>)
    requires
        is_begun(call),
        after_spawn_events(call, events) is Ok,
        stage_path(after_spawn_events(call, events)->Ok_0.stage) is Some,
    ensures
        exists|i: int|
            0 <= i < events.len() && (#[trigger] events[i] matches SpawnEvent::Source(Some(path))
                && Some(path@) == stage_path(after_spawn_events(call, events)->Ok_0.stage)),
    decreases events.len(),
{
    if events.len() > 0 {
        let earlier = events.drop_last();
        calls_keep_their_request(call, earlier);
        let middle = after_spawn_events(call, earlier)->Ok_0;
        if stage_path(middle.stage) is Some {
            paths_are_made_by_the_host(call, earlier);
            let i = choose|i: int|
                0 <= i < earlier.len() && (#[trigger] earlier[i] matches SpawnEvent::Source(
                    Some(path),
                ) && Some(path@) == stage_path(middle.stage));
            assert(events[i] == earlier[i]);
        } else {
            assert(events[events.len() - 1] is Source);
        }
    }
}

/// The report of an external agent tells who called, whom it spawned, with which message, and
/// what the host knows of the agent: nickname, role, model and effort. What the host does not
/// know comes from the request or the context; an unknown model is empty.
pub proof fn reports_tell_of_the_agent<'a, E>(call: CallView<E>, report: SpawnReport)
    requires
        call.stage is Report,
        is_action_of(SpawnAction::<'a, E>::Report(report), call),
    ensures
        ({
            let spawned = call.stage->Report_spawned;
            let snapshot = call.stage->Report_snapshot;
            match report {
                SpawnReport::Started { id, agent_thread_id, agent_path } => {
                    &&& call.kind == SpawnToolKind::Reserved
                    &&& id@ == call.call_id
                    &&& agent_thread_id == spawned.thread_id
                    &&& agent_path@ == call.stage->Report_path
                },
                SpawnReport::ToolCall(reported) => {
                    &&& call.kind == SpawnToolKind::ExternalRuntime
                    &&& reported.id@ == call.call_id
                    &&& reported.status == spawned.status
                    &&& reported.sender_thread_id == call.context.sender
                    &&& reported.receiver_thread_id == spawned.thread_id
                    &&& reported.prompt@ == call.stage->Report_message
                    &&& is_nickname_of(reported.receiver_nickname.deep_view(), spawned, snapshot)
                    &&& if snapshot is Some && snapshot->0.role is Some {
                        is_text(reported.receiver_role.deep_view(), snapshot->0.role)
                    } else {
                        is_trimmed_text(reported.receiver_role.deep_view(), call.args.agent_type)
                    }
                    &&& snapshot is Some ==> reported.model@ == snapshot->0.model@
                    &&& snapshot is None ==> reported.model@.len() == 0
                    &&& if snapshot is Some && snapshot->0.reasoning_effort is Some {
                        reported.reasoning_effort@ == snapshot->0.reasoning_effort->0@
                    } else {
                        reported.reasoning_effort@ == call.context.default_effort@
                    }
                },
            }
        }),
{
}

/// The host is asked about the agent that it spawned; the agent is counted under the role that
/// was asked for, or under the common one; and the call is answered with the path of the agent,
/// and with its nickname unless that is hidden.
pub proof fn calls_ask_count_and_answer<'a, E>(call: CallView<E>, action: SpawnAction<'a, E>)
    requires
        is_action_of(action, call),
    ensures
        match action {
            SpawnAction::TakeSnapshot(id) => call.stage matches StageView::Snapshot {
                spawned,
                ..
            } && id == spawned.thread_id,
            SpawnAction::Count { role } => call.stage is Count && if stated(call.args.agent_type)
                is Some {
                is_trimmed_text(Some(role@), call.args.agent_type)
            } else {
                role@ == call.context.default_role@
            },
            SpawnAction::Finish(SpawnAgentResult::HiddenMetadata { task_name }) => {
                &&& call.context.hide_agent_metadata
                &&& call.stage is Finish
                &&& task_name@ == call.stage->Finish_path
            },
            SpawnAction::Finish(SpawnAgentResult::WithNickname { task_name, nickname }) => {
                &&& !call.context.hide_agent_metadata
                &&& call.stage is Finish
                &&& task_name@ == call.stage->Finish_path
                &&& nickname.deep_view() == call.stage->Finish_nickname
            },
            SpawnAction::Perform(step) => call.stage is Steps && step.deep_view()
                == steps_of(call)[call.stage->done as int],
            SpawnAction::Spawn(_) => call.stage is Spawn,
            SpawnAction::Report(_) => call.stage is Report,
        },
{
}

} // verus!
