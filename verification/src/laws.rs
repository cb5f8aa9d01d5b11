//! What holds of every install and uninstall, stated over what the two leave
//! behind.

use crate::action::{
    executed_up_to, first_open, settled, state_after_failure, Action, ActionError, Actionable,
    StatefulAction,
};
use crate::error::NixInstallerError;
use crate::plan::{
    all_completed, all_settled, all_uncompleted, install_outcome, one_error_for_each_open_action,
    open_count, uncompleted_count, undone_down_to, undone_from, uninstall_outcome,
};
use vstd::prelude::*;

verus! {

/// After an install that succeeded, every action is completed.
pub proof fn install_completes_every_action<S: Actionable, P>(
    before: Seq<StatefulAction<Action<S>>>,
    after: Seq<StatefulAction<Action<S>>>,
    cancellable: bool,
    result: Result<(), NixInstallerError<S, S::Error, P>>,
)
    requires
        install_outcome(before, after, cancellable, result),
        result is Ok,
    ensures
        forall|i: int| 0 <= i < after.len() ==> (#[trigger] after[i]).state is Completed,
{
}

/// After an uninstall that succeeded, every action is uncompleted.
pub proof fn uninstall_leaves_every_action_uncompleted<S: Actionable, P>(
    before: Seq<StatefulAction<Action<S>>>,
    after: Seq<StatefulAction<Action<S>>>,
    cancellable: bool,
    result: Result<(), NixInstallerError<S, S::Error, P>>,
)
    requires
        uninstall_outcome(before, after, cancellable, result),
        result is Ok,
    ensures
        forall|i: int| 0 <= i < after.len() ==> (#[trigger] after[i]).state is Uncompleted,
{
}

/// An install goes through the actions in their order: however it ends, the
/// actions it has carried out are the first so many of the plan, and the
/// actions behind the one it stopped at are as they were.
pub proof fn install_walks_in_order<S: Actionable, P>(
    before: Seq<StatefulAction<Action<S>>>,
    after: Seq<StatefulAction<Action<S>>>,
    cancellable: bool,
    result: Result<(), NixInstallerError<S, S::Error, P>>,
)
    requires
        install_outcome(before, after, cancellable, result),
    ensures
        exists|stop: int| #[trigger] executed_up_to(before, after, stop),
{
}

/// An uninstall goes through the actions in reverse: however it ends, the
/// actions it has tried to undo are the last so many of the plan, their
/// errors stand in the order of the attempts, and the actions before them are
/// as they were.
pub proof fn uninstall_walks_in_reverse<S: Actionable, P>(
    before: Seq<StatefulAction<Action<S>>>,
    after: Seq<StatefulAction<Action<S>>>,
    cancellable: bool,
    result: Result<(), NixInstallerError<S, S::Error, P>>,
)
    requires
        uninstall_outcome(before, after, cancellable, result),
    ensures
        exists|stop: int, errors: Seq<ActionError<S, S::Error>>| #[trigger]
            undone_down_to(before, after, stop, errors),
{
}

/// When an install fails, it fails at the first action that is then not
/// completed: the actions before it are completed and the actions behind it
/// are as they were. The action itself was not completed before; a step keeps
/// the state it had, and so does a group that is not partly completed.
pub proof fn install_failure_leaves_the_rest<S: Actionable, P>(
    before: Seq<StatefulAction<Action<S>>>,
    after: Seq<StatefulAction<Action<S>>>,
    cancellable: bool,
    result: Result<(), NixInstallerError<S, S::Error, P>>,
)
    requires
        install_outcome(before, after, cancellable, result),
        result matches Err(NixInstallerError::Action(_)),
    ensures
        ({
            let at = first_open(after, 0);
            &&& 0 <= at < before.len()
            &&& forall|i: int| 0 <= i < at ==> (#[trigger] after[i]).state is Completed
            &&& forall|i: int| at < i < before.len() ==> #[trigger] after[i] == before[i]
            &&& !(before[at].state is Completed)
            &&& !(after[at].state is Completed)
            &&& after[at].state == state_after_failure(before[at].state, after[at].action)
            &&& before[at].action is Step ==> after[at].state == before[at].state
        }),
{
}

/// When an install is cancelled before an action, the actions before it are
/// completed, and it and the actions behind it are as they were.
pub proof fn install_cancellation_leaves_the_rest<S: Actionable, P>(
    before: Seq<StatefulAction<Action<S>>>,
    after: Seq<StatefulAction<Action<S>>>,
    cancellable: bool,
    result: Result<(), NixInstallerError<S, S::Error, P>>,
)
    requires
        install_outcome(before, after, cancellable, result),
        result matches Err(NixInstallerError::Cancelled),
    ensures
        cancellable,
        exists|at: int|
            {
                &&& 0 <= at < before.len()
                &&& forall|i: int| 0 <= i < at ==> (#[trigger] after[i]).state is Completed
                &&& forall|i: int| at <= i < before.len() ==> #[trigger] after[i] == before[i]
                &&& #[trigger] after[at] == before[at]
            },
{
}

/// The actions that are uncompleted and those that are not make up the plan.
pub proof fn counts_make_up_the_plan<A>(actions: Seq<StatefulAction<A>>, from: int)
    requires
        0 <= from <= actions.len(),
    ensures
        open_count(actions, from) + uncompleted_count(actions, from) == actions.len() - from,
    decreases actions.len() - from,
{
    if from < actions.len() {
        counts_make_up_the_plan(actions, from + 1);
    }
}

/// An uninstall that is not cancelled tries every action once, whatever
/// fails on the way: the actions it leaves uncompleted and the errors it
/// hands back are together as many as the plan has actions.
pub proof fn uninstall_tries_every_action<S: Actionable, P>(
    before: Seq<StatefulAction<Action<S>>>,
    after: Seq<StatefulAction<Action<S>>>,
    cancellable: bool,
    result: Result<(), NixInstallerError<S, S::Error, P>>,
)
    requires
        uninstall_outcome(before, after, cancellable, result),
        !(result matches Err(NixInstallerError::Cancelled)),
    ensures
        ({
            let errors = match result {
                Err(NixInstallerError::ActionRevert(errors)) => errors@,
                _ => Seq::empty(),
            };
            &&& undone_from(before, after, 0, errors)
            &&& uncompleted_count(after, 0) + errors.len() == before.len()
        }),
{
    let errors = match result {
        Err(NixInstallerError::ActionRevert(errors)) => errors@,
        _ => Seq::empty(),
    };
    counts_make_up_the_plan(after, 0);
    one_error_for_each_open_action(before, after, 0, errors);
}

/// Installing again after an install that succeeded changes nothing and
/// succeeds, as long as no cancel channel is given the second time.
pub proof fn install_again_changes_nothing<S: Actionable, P>(
    first: Seq<StatefulAction<Action<S>>>,
    second: Seq<StatefulAction<Action<S>>>,
    third: Seq<StatefulAction<Action<S>>>,
    cancellable: bool,
    first_result: Result<(), NixInstallerError<S, S::Error, P>>,
    second_result: Result<(), NixInstallerError<S, S::Error, P>>,
)
    requires
        install_outcome(first, second, cancellable, first_result),
        first_result is Ok,
        install_outcome(second, third, false, second_result),
    ensures
        second_result is Ok,
        third == second,
{
}

/// An uninstall that follows an install which succeeded, and that is not
/// cancelled, either leaves every action uncompleted or hands back the
/// errors of the actions it could not undo.
pub proof fn uninstall_after_install<S: Actionable, P>(
    first: Seq<StatefulAction<Action<S>>>,
    second: Seq<StatefulAction<Action<S>>>,
    third: Seq<StatefulAction<Action<S>>>,
    cancellable: bool,
    first_result: Result<(), NixInstallerError<S, S::Error, P>>,
    second_result: Result<(), NixInstallerError<S, S::Error, P>>,
)
    requires
        install_outcome(first, second, cancellable, first_result),
        first_result is Ok,
        uninstall_outcome(second, third, false, second_result),
    ensures
        all_completed(second),
        second_result is Ok ==> all_uncompleted(third),
        second_result matches Err(error) ==> error is ActionRevert,
{
}

/// Only a group is ever in progress: where no step of a plan is in progress,
/// none is after an install, and none is after an uninstall.
pub proof fn steps_never_enter_progress<S: Actionable, P>(
    before: Seq<StatefulAction<Action<S>>>,
    after: Seq<StatefulAction<Action<S>>>,
    cancellable: bool,
    result: Result<(), NixInstallerError<S, S::Error, P>>,
)
    requires
        all_settled(before),
        install_outcome(before, after, cancellable, result) || uninstall_outcome(
            before,
            after,
            cancellable,
            result,
        ),
    ensures
        all_settled(after),
        forall|i: int|
            0 <= i < after.len() && (#[trigger] after[i]).action is Step ==> !(after[i].state
                is Progress),
{
    assert forall|i: int| 0 <= i < after.len() && (#[trigger] after[i]).action is Step implies !(
    after[i].state is Progress) by {
        assert(settled(after[i]));
    }
}

} // verus!
