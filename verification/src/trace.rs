//! Whole conversations of the worker, and what holds of every one of
//! them.
//!
//! A conversation is the sequence of inputs that the worker was given.
//! It is well formed when each input answers the action that was
//! pending. The theorems below speak of all well-formed conversations,
//! whatever the controller and the channels do.

use vstd::prelude::*;
use crate::applier::{
    applier_init, applier_next, resume_waiting, ApplierAction, ApplierInput, ApplierState, Outcome,
};
use crate::control::{signal_of, ControlEvent, Signal};
use crate::profile::{is_listed, DesiredState};

verus! {

/// A conversation so far: the state reached and the actions asked for.
pub struct Run {
    pub state: ApplierState,
    pub actions: Seq<ApplierAction>,
}


/// Runs the worker from `state` through `inputs`: the state reached and
/// the actions asked for, one for each input, or `None` where some
/// input does not answer the action pending before it.
pub open spec fn applier_run(state: ApplierState, inputs: Seq<ApplierInput>) -> Option<Run>
    decreases inputs.len(),
{
    if inputs.len() == 0 {
        Some(Run { state, actions: Seq::empty() })
    } else {
        match applier_run(state, inputs.drop_last()) {
            Some(earlier) => match applier_next(earlier.state, inputs.last()) {
                Some(step) => Some(
                    Run { state: step.state, actions: earlier.actions.push(step.action) },
                ),
                None => None,
            },
            None => None,
        }
    }
}


/// The whole life of a worker that is given `inputs`: the state it ends
/// in and every action it asks for, the opening one included.
pub open spec fn applier_life(inputs: Seq<ApplierInput>) -> Option<Run> {
    match applier_run(applier_init().state, inputs) {
        Some(run) => Some(
            Run { state: run.state, actions: seq![applier_init().action] + run.actions },
        ),
        None => None,
    }
}


/// The lighting states that the command channel handed over, in the
/// order of the inputs.
pub open spec fn commands_received(inputs: Seq<ApplierInput>) -> Seq<DesiredState>
    decreases inputs.len(),
{
    if inputs.len() == 0 {
        Seq::empty()
    } else {
        let earlier = commands_received(inputs.drop_last());
        match inputs.last() {
            ApplierInput::Command(Some(lit)) => earlier.push(DesiredState::of_flag(lit)),
            _ => earlier,
        }
    }
}


/// The lighting states that the handler puts on the command channel for
/// a run of control events, in the order of the events.
pub open spec fn commands_enqueued(controls: Seq<ControlEvent>) -> Seq<DesiredState>
    decreases controls.len(),
{
    if controls.len() == 0 {
        Seq::empty()
    } else {
        let earlier = commands_enqueued(controls.drop_last());
        match signal_of(controls.last()) {
            Signal::Enqueue(wanted) => earlier.push(wanted),
            _ => earlier,
        }
    }
}


/// The lighting states that the worker set out to apply, in the order of
/// the actions. Each attempt opens with a listing.
pub open spec fn profiles_attempted(actions: Seq<ApplierAction>) -> Seq<DesiredState>
    decreases actions.len(),
{
    if actions.len() == 0 {
        Seq::empty()
    } else {
        let earlier = profiles_attempted(actions.drop_last());
        match actions.last() {
            ApplierAction::ListProfiles(wanted) => earlier.push(wanted),
            _ => earlier,
        }
    }
}


/// The lighting state whose profile the controller was last asked to
/// load, if it was asked for any.
pub open spec fn last_loaded(actions: Seq<ApplierAction>) -> Option<DesiredState>
    decreases actions.len(),
{
    if actions.len() == 0 {
        None
    } else {
        match actions.last() {
            ApplierAction::LoadProfile(wanted) => Some(wanted),
            _ => last_loaded(actions.drop_last()),
        }
    }
}


/// How often the actions ask for a connection.
pub open spec fn connections_opened(actions: Seq<ApplierAction>) -> nat
    decreases actions.len(),
{
    if actions.len() == 0 {
        0
    } else {
        let earlier = connections_opened(actions.drop_last());
        if actions.last() == ApplierAction::Connect {
            earlier + 1
        } else {
            earlier
        }
    }
}


/// `piece` written `count` times in a row.
pub open spec fn repeated<A>(piece: Seq<A>, count: nat) -> Seq<A>
    decreases count,
{
    if count == 0 {
        Seq::empty()
    } else {
        repeated(piece, (count - 1) as nat) + piece
    }
}


/// What a controller that answers every call sends back for one
/// command: the flag from the channel, the listing `names`, and the
/// confirmation of the load where `names` knows the profile.
pub open spec fn apply_round(wanted: DesiredState, names: Seq<Seq<char>>) -> Seq<ApplierInput> {
    let lit = wanted == DesiredState::Active;
    if is_listed(names, wanted.name()) {
        seq![
            ApplierInput::Command(Some(lit)),
            ApplierInput::Profiles(names),
            ApplierInput::Done,
        ]
    } else {
        seq![ApplierInput::Command(Some(lit)), ApplierInput::Profiles(names)]
    }
}


/// What the worker asks for in the course of one such round.
pub open spec fn round_actions(wanted: DesiredState, names: Seq<Seq<char>>) -> Seq<
    ApplierAction,
> {
    if is_listed(names, wanted.name()) {
        seq![
            ApplierAction::ListProfiles(wanted),
            ApplierAction::LoadProfile(wanted),
            ApplierAction::Wait,
        ]
    } else {
        seq![ApplierAction::ListProfiles(wanted), ApplierAction::Wait]
    }
}


/// A run has one action for each input, and every run that stops
/// earlier is well formed too.
pub proof fn lemma_run_shape(state: ApplierState, inputs: Seq<ApplierInput>)
    requires
        applier_run(state, inputs) is Some,
    ensures
        applier_run(state, inputs)->0.actions.len() == inputs.len(),
        forall|n: int|
            0 <= n <= inputs.len() ==> (#[trigger] applier_run(state, inputs.take(n))) is Some,
    decreases inputs.len(),
{
    if inputs.len() == 0 {
        assert forall|n: int| 0 <= n <= inputs.len() implies (#[trigger] applier_run(
            state,
            inputs.take(n),
        )) is Some by {
            assert(inputs.take(n) =~= inputs);
        }
    } else {
        let shorter = inputs.drop_last();
        lemma_run_shape(state, shorter);
        assert forall|n: int| 0 <= n <= inputs.len() implies (#[trigger] applier_run(
            state,
            inputs.take(n),
        )) is Some by {
            if n == inputs.len() {
                assert(inputs.take(n) =~= inputs);
            } else {
                assert(inputs.take(n) =~= shorter.take(n));
            }
        }
    }
}


/// An action of a run is settled by the inputs up to it: the run that
/// stops right after input `at` ends with action `at`.
pub proof fn lemma_action_at(state: ApplierState, inputs: Seq<ApplierInput>, at: int)
    requires
        applier_run(state, inputs) is Some,
        0 <= at < inputs.len(),
    ensures
        applier_run(state, inputs.take(at)) is Some,
        applier_next(applier_run(state, inputs.take(at))->0.state, inputs[at]) is Some,
        applier_run(state, inputs)->0.actions.len() == inputs.len(),
        applier_run(state, inputs)->0.actions[at] == applier_next(
            applier_run(state, inputs.take(at))->0.state,
            inputs[at],
        )->0.action,
    decreases inputs.len(),
{
    let shorter = inputs.drop_last();
    lemma_run_shape(state, inputs);
    lemma_run_shape(state, shorter);
    if at == inputs.len() - 1 {
        assert(inputs.take(at) =~= shorter);
    } else {
        lemma_action_at(state, shorter, at);
        assert(shorter.take(at) =~= inputs.take(at));
    }
}


/// Two runs in a row make one run: the second starts where the first
/// ended, and its actions follow those of the first.
pub proof fn lemma_run_concat(
    state: ApplierState,
    first: Seq<ApplierInput>,
    second: Seq<ApplierInput>,
)
    requires
        applier_run(state, first) is Some,
        applier_run(applier_run(state, first)->0.state, second) is Some,
    ensures
        applier_run(state, first + second) == Some(
            Run {
                state: applier_run(applier_run(state, first)->0.state, second)->0.state,
                actions: applier_run(state, first)->0.actions + applier_run(
                    applier_run(state, first)->0.state,
                    second,
                )->0.actions,
            },
        ),
    decreases second.len(),
{
    let head = applier_run(state, first)->0;
    if second.len() == 0 {
        assert(first + second =~= first);
        assert(head.actions + applier_run(head.state, second)->0.actions =~= head.actions);
    } else {
        lemma_run_concat(state, first, second.drop_last());
        assert((first + second).drop_last() =~= first + second.drop_last());
        assert((first + second).last() == second.last());
        let tail = applier_run(head.state, second.drop_last())->0;
        let step = applier_next(tail.state, second.last())->0;
        assert((head.actions + tail.actions).push(step.action) =~= head.actions
            + tail.actions.push(step.action));
    }
}


/// The attempts of two runs of actions in a row are the attempts of
/// the first followed by those of the second.
pub proof fn lemma_attempts_concat(first: Seq<ApplierAction>, second: Seq<ApplierAction>)
    ensures
        profiles_attempted(first + second) == profiles_attempted(first) + profiles_attempted(
            second,
        ),
    decreases second.len(),
{
    if second.len() == 0 {
        assert(first + second =~= first);
        assert(profiles_attempted(first) + profiles_attempted(second) =~= profiles_attempted(
            first,
        ));
    } else {
        lemma_attempts_concat(first, second.drop_last());
        assert((first + second).drop_last() =~= first + second.drop_last());
        assert((first + second).last() == second.last());
        let earlier = profiles_attempted(second.drop_last());
        match second.last() {
            ApplierAction::ListProfiles(wanted) => {
                assert((profiles_attempted(first) + earlier).push(wanted) =~= profiles_attempted(
                    first,
                ) + earlier.push(wanted));
            },
            _ => {},
        }
    }
}


/// What was last asked to be loaded in two runs of actions in a row is
/// what the second run asked for last, or else what the first did.
pub proof fn lemma_last_loaded_concat(first: Seq<ApplierAction>, second: Seq<ApplierAction>)
    ensures
        last_loaded(first + second) == if last_loaded(second) is Some {
            last_loaded(second)
        } else {
            last_loaded(first)
        },
    decreases second.len(),
{
    if second.len() == 0 {
        assert(first + second =~= first);
    } else {
        lemma_last_loaded_concat(first, second.drop_last());
        assert((first + second).drop_last() =~= first + second.drop_last());
        assert((first + second).last() == second.last());
    }
}


/// The number of connections asked for by two runs of actions in a row
/// is the sum of the two numbers.
pub proof fn lemma_connections_concat(first: Seq<ApplierAction>, second: Seq<ApplierAction>)
    ensures
        connections_opened(first + second) == connections_opened(first) + connections_opened(
            second,
        ),
    decreases second.len(),
{
    if second.len() == 0 {
        assert(first + second =~= first);
    } else {
        lemma_connections_concat(first, second.drop_last());
        assert((first + second).drop_last() =~= first + second.drop_last());
        assert((first + second).last() == second.last());
    }
}


/// How every life of a worker opens: the first answer is to the
/// connection, the second to the identification.
pub proof fn lemma_opening(inputs: Seq<ApplierInput>)
    requires
        applier_run(applier_init().state, inputs) is Some,
    ensures
        inputs.len() >= 1 ==> applier_run(applier_init().state, inputs.take(1))->0.state == (
        if inputs[0] is Done {
            ApplierState::Identifying
        } else {
            ApplierState::Finished(Outcome::Failure)
        }),
        inputs.len() >= 2 ==> inputs[0] is Done && applier_run(
            applier_init().state,
            inputs.take(2),
        )->0.state == (if inputs[1] is Done {
            ApplierState::Waiting
        } else {
            ApplierState::Finished(Outcome::Failure)
        }),
        inputs.len() >= 3 ==> inputs[1] is Done,
{
    let start = applier_init().state;
    lemma_run_shape(start, inputs);
    assert(applier_run(start, inputs.take(0)) is Some);
    assert(inputs.take(0) =~= Seq::<ApplierInput>::empty());
    if inputs.len() >= 1 {
        assert(applier_run(start, inputs.take(1)) is Some);
        assert(inputs.take(1).drop_last() =~= inputs.take(0));
        assert(inputs.take(1).last() == inputs[0]);
    }
    if inputs.len() >= 2 {
        assert(applier_run(start, inputs.take(2)) is Some);
        assert(inputs.take(2).drop_last() =~= inputs.take(1));
        assert(inputs.take(2).last() == inputs[1]);
    }
    if inputs.len() >= 3 {
        assert(applier_run(start, inputs.take(3)) is Some);
        assert(inputs.take(3).drop_last() =~= inputs.take(2));
        assert(inputs.take(3).last() == inputs[2]);
    }
}


/// In the life of a worker nothing is asked of the controller's
/// profiles, and no channel is waited on, before the connection is open
/// and the client has told its name: the first two answers were good,
/// and the second action was the identification.
pub proof fn lemma_identified_first(inputs: Seq<ApplierInput>, at: int)
    requires
        applier_life(inputs) is Some,
        0 <= at < applier_life(inputs)->0.actions.len(),
        ({
            let action = applier_life(inputs)->0.actions[at];
            action is ListProfiles || action is LoadProfile || action is Wait
        }),
    ensures
        at >= 2,
        inputs.len() >= 2,
        inputs[0] is Done,
        inputs[1] is Done,
        applier_life(inputs)->0.actions[1] == ApplierAction::Identify,
{
    let start = applier_init().state;
    let actions = applier_run(start, inputs)->0.actions;
    lemma_run_shape(start, inputs);
    assert(at >= 1);
    lemma_action_at(start, inputs, at - 1);
    lemma_opening(inputs);
    if at == 1 {
        assert(inputs.take(0) =~= Seq::<ApplierInput>::empty());
    } else if at == 2 {
        lemma_action_at(start, inputs, 0);
    } else {
        lemma_action_at(start, inputs, 0);
        lemma_action_at(start, inputs, 1);
    }
}


/// No step of the worker asks for a connection.
pub proof fn lemma_no_reconnect(state: ApplierState, inputs: Seq<ApplierInput>)
    requires
        applier_run(state, inputs) is Some,
    ensures
        connections_opened(applier_run(state, inputs)->0.actions) == 0,
    decreases inputs.len(),
{
    if inputs.len() > 0 {
        lemma_no_reconnect(state, inputs.drop_last());
        let earlier = applier_run(state, inputs.drop_last())->0;
        let step = applier_next(earlier.state, inputs.last())->0;
        assert(earlier.actions.push(step.action).drop_last() =~= earlier.actions);
        assert(earlier.actions.push(step.action).last() == step.action);
    }
}


/// In the whole life of a worker the connection is asked for exactly
/// once: at the start, and never again, however the life goes on.
pub proof fn lemma_single_connection(inputs: Seq<ApplierInput>)
    requires
        applier_life(inputs) is Some,
    ensures
        applier_life(inputs)->0.actions[0] == ApplierAction::Connect,
        connections_opened(applier_life(inputs)->0.actions) == 1,
{
    let opening = seq![applier_init().action];
    let actions = applier_run(applier_init().state, inputs)->0.actions;
    lemma_no_reconnect(applier_init().state, inputs);
    lemma_connections_concat(opening, actions);
    reveal_with_fuel(connections_opened, 2);
    assert(opening.drop_last() =~= Seq::<ApplierAction>::empty());
}

/// Every command received opens exactly one attempt to apply it, and
/// the attempts come in the order of the commands: none is merged,
/// dropped, repeated or moved.
pub proof fn lemma_commands_applied_in_order(state: ApplierState, inputs: Seq<ApplierInput>)
    requires
        applier_run(state, inputs) is Some,
    ensures
        profiles_attempted(applier_run(state, inputs)->0.actions) == commands_received(inputs),
    decreases inputs.len(),
{
    if inputs.len() > 0 {
        lemma_commands_applied_in_order(state, inputs.drop_last());
        let earlier = applier_run(state, inputs.drop_last())->0;
        let step = applier_next(earlier.state, inputs.last())->0;
        assert(earlier.actions.push(step.action).drop_last() =~= earlier.actions);
        assert(earlier.actions.push(step.action).last() == step.action);
    }
}


/// What the handler enqueues for a run of control events is applied in
/// the order of those events, over a channel that hands over what was
/// sent, in the order of sending: the attempts of a worker's life are
/// the commands enqueued, up to the last one that the worker received.
pub proof fn lemma_handler_order_is_kept(
    controls: Seq<ControlEvent>,
    inputs: Seq<ApplierInput>,
)
    requires
        applier_life(inputs) is Some,
        commands_received(inputs).is_prefix_of(commands_enqueued(controls)),
    ensures
        profiles_attempted(applier_life(inputs)->0.actions) == commands_received(inputs),
        profiles_attempted(applier_life(inputs)->0.actions).is_prefix_of(
            commands_enqueued(controls),
        ),
{
    let opening = seq![applier_init().action];
    let actions = applier_run(applier_init().state, inputs)->0.actions;
    lemma_commands_applied_in_order(applier_init().state, inputs);
    lemma_attempts_concat(opening, actions);
    reveal_with_fuel(profiles_attempted, 2);
    assert(opening.drop_last() =~= Seq::<ApplierAction>::empty());
    assert(profiles_attempted(opening) =~= Seq::<DesiredState>::empty());
    assert(Seq::<DesiredState>::empty() + profiles_attempted(actions) =~= profiles_attempted(
        actions,
    ));
}


/// A lighting state that is commanded `count` times in a row is
/// attempted `count` times, each time with that same state: repeated
/// commands are neither merged nor dropped.
pub proof fn lemma_repeated_commands_each_applied(
    state: ApplierState,
    inputs: Seq<ApplierInput>,
    wanted: DesiredState,
    count: nat,
)
    requires
        applier_run(state, inputs) is Some,
        commands_received(inputs) == Seq::new(count, |i: int| wanted),
    ensures
        profiles_attempted(applier_run(state, inputs)->0.actions).len() == count,
        forall|i: int|
            0 <= i < count ==> profiles_attempted(applier_run(state, inputs)->0.actions)[i]
                == wanted,
{
    lemma_commands_applied_in_order(state, inputs);
}


/// One round with a controller that answers brings the waiting worker
/// back to waiting, by way of the round's actions.
pub proof fn lemma_one_round(wanted: DesiredState, names: Seq<Seq<char>>)
    ensures
        applier_run(ApplierState::Waiting, apply_round(wanted, names)) == Some(
            Run { state: ApplierState::Waiting, actions: round_actions(wanted, names) },
        ),
{
    let round = apply_round(wanted, names);
    let lit = wanted == DesiredState::Active;
    assert(DesiredState::of_flag(lit) == wanted);
    let start = ApplierState::Waiting;
    let none = Seq::<ApplierInput>::empty();
    let one = seq![ApplierInput::Command(Some(lit))];
    let two = seq![ApplierInput::Command(Some(lit)), ApplierInput::Profiles(names)];
    assert(one.drop_last() =~= none);
    assert(two.drop_last() =~= one);
    assert(applier_run(start, none) == Some(Run { state: start, actions: Seq::empty() }));
    let listed = seq![ApplierAction::ListProfiles(wanted)];
    assert(applier_run(start, one)->0.actions =~= listed);
    assert(applier_run(start, one) == Some(
        Run { state: ApplierState::Listing(wanted), actions: listed },
    ));
    if is_listed(names, wanted.name()) {
        let loading = seq![ApplierAction::ListProfiles(wanted), ApplierAction::LoadProfile(wanted)];
        assert(applier_run(start, two)->0.actions =~= loading);
        assert(applier_run(start, two) == Some(
            Run { state: ApplierState::Loading(wanted), actions: loading },
        ));
        assert(round.drop_last() =~= two);
        assert(applier_run(start, round)->0.actions =~= round_actions(wanted, names));
    } else {
        assert(round =~= two);
        assert(applier_run(start, round)->0.actions =~= round_actions(wanted, names));
    }
}


/// The same command, served `count` times in a row by a controller
/// that answers, leads to `count` rounds of the same actions, and leaves
/// the worker where the first round left it: waiting. What the
/// controller was last asked for is the same after the last round as
/// after the first.
pub proof fn lemma_repeated_rounds(wanted: DesiredState, names: Seq<Seq<char>>, count: nat)
    ensures
        applier_run(ApplierState::Waiting, repeated(apply_round(wanted, names), count)) == Some(
            Run {
                state: ApplierState::Waiting,
                actions: repeated(round_actions(wanted, names), count),
            },
        ),
    decreases count,
{
    if count > 0 {
        let earlier = (count - 1) as nat;
        lemma_repeated_rounds(wanted, names, earlier);
        lemma_one_round(wanted, names);
        lemma_run_concat(
            ApplierState::Waiting,
            repeated(apply_round(wanted, names), earlier),
            apply_round(wanted, names),
        );
    }
}


/// However often the same command is served in a row, the profile
/// that the controller was last asked to load is the one it was asked
/// to load in the first round: repeating a command changes nothing in
/// what the controller is left with.
pub proof fn lemma_repeated_rounds_leave_the_same_profile(
    wanted: DesiredState,
    names: Seq<Seq<char>>,
    count: nat,
)
    requires
        count >= 1,
    ensures
        last_loaded(repeated(round_actions(wanted, names), count)) == last_loaded(
            round_actions(wanted, names),
        ),
        last_loaded(round_actions(wanted, names)) == if is_listed(names, wanted.name()) {
            Some(wanted)
        } else {
            None
        },
    decreases count,
{
    let round = round_actions(wanted, names);
    let earlier = (count - 1) as nat;
    reveal_with_fuel(last_loaded, 4);
    if is_listed(names, wanted.name()) {
        assert(round.drop_last() =~= seq![
            ApplierAction::ListProfiles(wanted),
            ApplierAction::LoadProfile(wanted),
        ]);
    } else {
        assert(round.drop_last() =~= seq![ApplierAction::ListProfiles(wanted)]);
        assert(round.drop_last().drop_last() =~= Seq::<ApplierAction>::empty());
    }
    lemma_last_loaded_concat(repeated(round, earlier), round);
    if earlier >= 1 {
        lemma_repeated_rounds_leave_the_same_profile(wanted, names, earlier);
    }
}


/// The controller is asked to load a profile only right after it has
/// listed that profile, in answer to the listing that the worker asked
/// for on behalf of the same lighting state.
pub proof fn lemma_load_follows_listing(
    state: ApplierState,
    inputs: Seq<ApplierInput>,
    at: int,
    wanted: DesiredState,
)
    requires
        applier_run(state, inputs) is Some,
        0 <= at < inputs.len(),
        applier_run(state, inputs)->0.actions.len() == inputs.len(),
        applier_run(state, inputs)->0.actions[at] == ApplierAction::LoadProfile(wanted),
    ensures
        inputs[at] is Profiles,
        is_listed(inputs[at]->Profiles_0, wanted.name()),
        applier_run(state, inputs.take(at))->0.state == ApplierState::Listing(wanted),
{
    lemma_action_at(state, inputs, at);
}


/// A profile that the controller does not list is skipped: the worker
/// goes back to waiting, asks the controller for nothing, and does not
/// fail.
pub proof fn lemma_missing_profile_is_skipped(wanted: DesiredState, names: Seq<Seq<char>>)
    requires
        !is_listed(names, wanted.name()),
    ensures
        applier_next(ApplierState::Listing(wanted), ApplierInput::Profiles(names)) == Some(
            resume_waiting(),
        ),
{
}


/// A finished worker takes no further input, so it asks for nothing
/// more.
pub proof fn lemma_finished_takes_nothing(outcome: Outcome, inputs: Seq<ApplierInput>)
    requires
        applier_run(ApplierState::Finished(outcome), inputs) is Some,
    ensures
        inputs.len() == 0,
    decreases inputs.len(),
{
    if inputs.len() > 0 {
        let shorter = inputs.drop_last();
        if shorter.len() > 0 {
            lemma_finished_takes_nothing(outcome, shorter);
        }
    }
}


/// A shutdown signal that the worker observes ends the conversation: it
/// is the last input, the worker leaves with success, and no command
/// is handed over after it.
pub proof fn lemma_shutdown_is_final(state: ApplierState, inputs: Seq<ApplierInput>, at: int)
    requires
        applier_run(state, inputs) is Some,
        0 <= at < inputs.len(),
        inputs[at] is Shutdown,
    ensures
        at == inputs.len() - 1,
        applier_run(state, inputs)->0.state == ApplierState::Finished(Outcome::Success),
        applier_run(state, inputs)->0.actions.last() == ApplierAction::Exit(Outcome::Success),
    decreases inputs.len(),
{
    if at < inputs.len() - 1 {
        lemma_shutdown_is_final(state, inputs.drop_last(), at);
    }
}


/// A failed call to the controller ends the conversation: it is the
/// last input, and the worker leaves with failure, without waiting for
/// anything more.
pub proof fn lemma_failure_is_final(state: ApplierState, inputs: Seq<ApplierInput>, at: int)
    requires
        applier_run(state, inputs) is Some,
        0 <= at < inputs.len(),
        inputs[at] is Failed,
    ensures
        at == inputs.len() - 1,
        applier_run(state, inputs)->0.state == ApplierState::Finished(Outcome::Failure),
        applier_run(state, inputs)->0.actions.last() == ApplierAction::Exit(Outcome::Failure),
    decreases inputs.len(),
{
    if at < inputs.len() - 1 {
        lemma_failure_is_final(state, inputs.drop_last(), at);
    }
}


/// Nothing but a shutdown signal ends the worker in good order, and
/// nothing but a failed call ends it in failure. A command channel that
/// is closed ends nothing.
pub proof fn lemma_exit_has_a_cause(state: ApplierState, inputs: Seq<ApplierInput>)
    requires
        applier_run(state, inputs) is Some,
        inputs.len() > 0,
        applier_run(state, inputs)->0.state is Finished,
    ensures
        applier_run(state, inputs)->0.state == ApplierState::Finished(Outcome::Success)
            ==> inputs.last() is Shutdown,
        applier_run(state, inputs)->0.state == ApplierState::Finished(Outcome::Failure)
            ==> inputs.last() is Failed,
{
}


} // verus!
