//! The install plan: an ordered list of actions that is carried out in order
//! and undone in reverse.

use crate::action::{
    description_views, execute_descriptions, execute_failed, executed_up_to, first_open,
    first_open_found, revert_descriptions, revert_failed, same_states, settled, undone, Action,
    ActionDescription, ActionError, Actionable, StatefulAction,
};
use crate::cancel::{probe, stops, CancelPoll};
use crate::describe::{plan_text, render_plan};
use crate::error::NixInstallerError;
use crate::planner::Planner;
use crate::settings::{in_key_order, setting_views, sort_settings};
use crate::version::{current_version, is_version_text, SemanticVersion, ENGINE_VERSION};
use tokio::sync::broadcast::Receiver;
use vstd::prelude::*;

verus! {

/// A set of actions, along with the version of the engine that planned them,
/// the planner they came from and the diagnostic data the planner gathered,
/// if any, which can be carried out to install and undone to uninstall.
#[derive(Debug)]
pub struct InstallPlan<S: Actionable, P: Planner<S>> {
    pub version: SemanticVersion,
    pub actions: Vec<StatefulAction<Action<S>>>,
    pub planner: P,
    pub diagnostic_data: Option<P::Diagnostic>,
}

impl<S: Actionable + Clone, P: Planner<S> + Clone> Clone for InstallPlan<S, P> where
    P::Diagnostic: Clone,
 {
    /// A copy of the plan as it stands: the same version, and actions of the
    /// same kinds in the same states, however deep.
    fn clone(&self) -> (copy: Self)
        ensures
            copy.version@ == self.version@,
            copy.actions@.len() == self.actions@.len(),
            forall|i: int|
                0 <= i < self.actions@.len() ==> same_states(
                    self.actions@[i],
                    #[trigger] copy.actions@[i],
                ),
    {
        let mut actions: Vec<StatefulAction<Action<S>>> = Vec::new();
        let mut i: usize = 0;
        while i < self.actions.len()
            invariant
                i <= self.actions.len(),
                actions@.len() == i,
                forall|k: int|
                    0 <= k < i ==> same_states(self.actions@[k], #[trigger] actions@[k]),
            decreases self.actions.len() - i,
        {
            let copy = self.actions[i].duplicate();
            actions.push(copy);
            i += 1;
        }
        InstallPlan {
            version: self.version.clone(),
            actions,
            planner: self.planner.clone(),
            diagnostic_data: self.diagnostic_data.clone(),
        }
    }
}

/// Every action of the list is completed.
pub open spec fn all_completed<A>(actions: Seq<StatefulAction<A>>) -> bool {
    forall|i: int| 0 <= i < actions.len() ==> (#[trigger] actions[i]).state is Completed
}

/// Every action of the list is uncompleted.
pub open spec fn all_uncompleted<A>(actions: Seq<StatefulAction<A>>) -> bool {
    forall|i: int| 0 <= i < actions.len() ==> (#[trigger] actions[i]).state is Uncompleted
}

/// No step of the list, however deep inside a group, is in progress.
pub open spec fn all_settled<S>(actions: Seq<StatefulAction<Action<S>>>) -> bool {
    forall|i: int| 0 <= i < actions.len() ==> settled(#[trigger] actions[i])
}

/// An install failed at action `at` with `error`: each action before it has
/// been carried out, the actions behind it are as they were, and the attempt
/// to carry the action itself out has failed with that error.
pub open spec fn install_failed_at<S: Actionable>(
    before: Seq<StatefulAction<Action<S>>>,
    after: Seq<StatefulAction<Action<S>>>,
    at: int,
    error: ActionError<S, S::Error>,
) -> bool {
    &&& executed_up_to(before, after, at)
    &&& at < before.len()
    &&& execute_failed(before[at], after[at], error)
}

/// An install was cancelled before action `at`: each action before it has
/// been carried out, and it and the actions behind it are as they were.
pub open spec fn install_cancelled_before<S: Actionable>(
    before: Seq<StatefulAction<Action<S>>>,
    after: Seq<StatefulAction<Action<S>>>,
    at: int,
) -> bool {
    &&& executed_up_to(before, after, at)
    &&& at < before.len()
    &&& after[at] == before[at]
}

/// An attempt was made to undo each action from `stop` on, the last action
/// first, and `errors` are the errors of the attempts that failed, in the
/// order of the attempts: the first error is that of the hindmost action that
/// could not be undone, and the last is that of the foremost.
pub open spec fn undone_from<S: Actionable>(
    before: Seq<StatefulAction<Action<S>>>,
    after: Seq<StatefulAction<Action<S>>>,
    stop: int,
    errors: Seq<ActionError<S, S::Error>>,
) -> bool
    decreases before.len() - stop,
{
    if stop < 0 || stop >= before.len() || stop >= after.len() {
        errors.len() == 0
    } else if after[stop].state is Uncompleted {
        undone(before[stop], after[stop]) && undone_from(before, after, stop + 1, errors)
    } else {
        &&& errors.len() > 0
        &&& revert_failed(before[stop], after[stop], errors.last())
        &&& undone_from(before, after, stop + 1, errors.drop_last())
    }
}

/// An uninstall came down to action `stop`: an attempt was made to undo each
/// action from `stop` on, with `errors` as the errors of those that failed,
/// and the actions before `stop` are as they were.
pub open spec fn undone_down_to<S: Actionable>(
    before: Seq<StatefulAction<Action<S>>>,
    after: Seq<StatefulAction<Action<S>>>,
    stop: int,
    errors: Seq<ActionError<S, S::Error>>,
) -> bool {
    &&& after.len() == before.len()
    &&& 0 <= stop <= before.len()
    &&& undone_from(before, after, stop, errors)
    &&& forall|i: int| 0 <= i < stop ==> #[trigger] after[i] == before[i]
}

/// How many of the actions from `from` on are not uncompleted.
pub open spec fn open_count<A>(actions: Seq<StatefulAction<A>>, from: int) -> nat
    decreases actions.len() - from,
{
    if from < 0 || from >= actions.len() {
        0
    } else {
        open_count(actions, from + 1) + if actions[from].state is Uncompleted {
            0nat
        } else {
            1nat
        }
    }
}

/// How many of the actions from `from` on are uncompleted.
pub open spec fn uncompleted_count<A>(actions: Seq<StatefulAction<A>>, from: int) -> nat
    decreases actions.len() - from,
{
    if from < 0 || from >= actions.len() {
        0
    } else {
        uncompleted_count(actions, from + 1) + if actions[from].state is Uncompleted {
            1nat
        } else {
            0nat
        }
    }
}

/// What an install leaves behind and hands back.
///
/// On success every action has been carried out. A failure is the failure of
/// one action, then the first that is not completed, and the error is the one
/// the attempt on it ended with: the actions before it have been carried out
/// and those behind it are untouched. A cancellation, which only a cancel
/// channel can bring about, comes before one action: those before it have
/// been carried out, and it and those behind it are untouched. Without a
/// cancel channel, a plan whose actions are all completed is left as it is,
/// and the install succeeds. However it ends, no step is in progress
/// afterwards unless one was before.
pub open spec fn install_outcome<S: Actionable, P>(
    before: Seq<StatefulAction<Action<S>>>,
    after: Seq<StatefulAction<Action<S>>>,
    cancellable: bool,
    result: Result<(), NixInstallerError<S, S::Error, P>>,
) -> bool {
    &&& after.len() == before.len()
    &&& match result {
        Ok(()) => all_completed(after) && executed_up_to(before, after, before.len() as int),
        Err(NixInstallerError::Action(error)) => error is Step && install_failed_at(
            before,
            after,
            first_open(after, 0),
            error,
        ),
        Err(NixInstallerError::Cancelled) => cancellable && exists|at: int|
            install_cancelled_before(before, after, at),
        Err(_) => false,
    }
    &&& !cancellable && all_completed(before) ==> result is Ok && after == before
    &&& all_settled(before) ==> all_settled(after)
}

/// What an uninstall leaves behind and hands back.
///
/// Unless it is cancelled, an attempt is made to undo every action, the last
/// first. It succeeds when every attempt does; else it hands back the errors
/// of the attempts that failed, in the order of the attempts. A cancellation,
/// which only a cancel channel can bring about, comes before one action: an
/// attempt was made on those behind it, and it and those before it are
/// untouched. Without a cancel channel, a plan whose actions are all
/// uncompleted is left as it is, and the uninstall succeeds. However it ends,
/// no step is in progress afterwards unless one was before.
pub open spec fn uninstall_outcome<S: Actionable, P>(
    before: Seq<StatefulAction<Action<S>>>,
    after: Seq<StatefulAction<Action<S>>>,
    cancellable: bool,
    result: Result<(), NixInstallerError<S, S::Error, P>>,
) -> bool {
    &&& after.len() == before.len()
    &&& match result {
        Ok(()) => all_uncompleted(after) && undone_down_to(before, after, 0, Seq::empty()),
        Err(NixInstallerError::ActionRevert(errors)) => {
            &&& undone_down_to(before, after, 0, errors@)
            &&& errors@.len() > 0
            &&& forall|k: int| 0 <= k < errors@.len() ==> (#[trigger] errors@[k]) is Step
        },
        Err(NixInstallerError::Cancelled) => cancellable && exists|
            stop: int,
            errors: Seq<ActionError<S, S::Error>>,
        | 0 < stop && undone_down_to(before, after, stop, errors),
        Err(_) => false,
    }
    &&& !cancellable && all_uncompleted(before) ==> result is Ok && after == before
    &&& all_settled(before) ==> all_settled(after)
}

/// What an attempt to undo the actions from `stop` on has left looks at
/// those actions only.
pub proof fn undone_from_is_local<S: Actionable>(
    before: Seq<StatefulAction<Action<S>>>,
    a: Seq<StatefulAction<Action<S>>>,
    b: Seq<StatefulAction<Action<S>>>,
    stop: int,
    errors: Seq<ActionError<S, S::Error>>,
)
    requires
        a.len() == b.len(),
        0 <= stop,
        forall|i: int| stop <= i < a.len() ==> a[i] == b[i],
        undone_from(before, a, stop, errors),
    ensures
        undone_from(before, b, stop, errors),
    decreases before.len() - stop,
{
    if stop < before.len() && stop < a.len() {
        if a[stop].state is Uncompleted {
            undone_from_is_local(before, a, b, stop + 1, errors);
        } else {
            undone_from_is_local(before, a, b, stop + 1, errors.drop_last());
        }
    }
}

/// One error is handed back for each action that is left not uncompleted.
pub proof fn one_error_for_each_open_action<S: Actionable>(
    before: Seq<StatefulAction<Action<S>>>,
    after: Seq<StatefulAction<Action<S>>>,
    stop: int,
    errors: Seq<ActionError<S, S::Error>>,
)
    requires
        after.len() == before.len(),
        0 <= stop,
        undone_from(before, after, stop, errors),
    ensures
        errors.len() == open_count(after, stop),
    decreases before.len() - stop,
{
    if stop < before.len() {
        if after[stop].state is Uncompleted {
            one_error_for_each_open_action(before, after, stop + 1, errors);
        } else {
            one_error_for_each_open_action(before, after, stop + 1, errors.drop_last());
        }
    }
}

/// What a walk over the actions does next.
#[derive(Debug, Clone, Copy, PartialEq, Eq, Structural)]
pub enum WalkStep {
    /// Stop: the caller asked to.
    Cancel,
    /// Make an attempt on the action at this position.
    Attempt(usize),
    /// Nothing is left to do.
    Finish,
}

/// What an install does next, when it has come to `position` of `count`
/// actions and a look at the cancel channel has reported `seen`: with no
/// action left it finishes; else it stops when a value was delivered; else it
/// makes an attempt on the action at `position`.
pub fn install_step(seen: Option<CancelPoll>, position: usize, count: usize) -> (step: WalkStep)
    ensures
        step == if position >= count {
            WalkStep::Finish
        } else if seen matches Some(found) && (found is Signalled || found is Lagged) {
            WalkStep::Cancel
        } else {
            WalkStep::Attempt(position)
        },
{
    if position >= count {
        WalkStep::Finish
    } else if stops(seen) {
        WalkStep::Cancel
    } else {
        WalkStep::Attempt(position)
    }
}

/// What an uninstall does next, when `remaining` actions are left and a look
/// at the cancel channel has reported `seen`: with no action left it
/// finishes; else it stops when a value was delivered; else it makes an
/// attempt on the last of the actions that are left.
pub fn uninstall_step(seen: Option<CancelPoll>, remaining: usize) -> (step: WalkStep)
    ensures
        step == if remaining == 0 {
            WalkStep::Finish
        } else if seen matches Some(found) && (found is Signalled || found is Lagged) {
            WalkStep::Cancel
        } else {
            WalkStep::Attempt((remaining - 1) as usize)
        },
{
    if remaining == 0 {
        WalkStep::Finish
    } else if stops(seen) {
        WalkStep::Cancel
    } else {
        WalkStep::Attempt(remaining - 1)
    }
}

impl<S: Actionable, P: Planner<S>> InstallPlan<S, P> {
    /// Carries the plan out: each action in order, stopping at the first that
    /// fails.
    ///
    /// Before each action the cancel channel, if there is one, is looked at
    /// without waiting; a value that was delivered stops the install there.
    /// An action that is completed already is passed over.
    pub fn install(&mut self, cancel_channel: Option<Receiver<()>>) -> (result: Result<
        (),
        NixInstallerError<S, S::Error, P::Error>,
    >)
        ensures
            final(self).version == old(self).version,
            final(self).planner == old(self).planner,
            final(self).diagnostic_data == old(self).diagnostic_data,
            install_outcome(
                old(self).actions@,
                final(self).actions@,
                cancel_channel is Some,
                result,
            ),
    {
        let ghost before = self.actions@;
        let ghost cancellable = cancel_channel is Some;
        let mut channel = cancel_channel;
        let count = self.actions.len();
        let mut i: usize = 0;
        while i < count
            invariant
                self.version == old(self).version,
                self.planner == old(self).planner,
                self.diagnostic_data == old(self).diagnostic_data,
                count == before.len(),
                before == old(self).actions@,
                i <= count,
                executed_up_to(before, self.actions@, i as int),
                i < count ==> self.actions@[i as int] == before[i as int],
                cancellable == (cancel_channel is Some),
                channel is Some <==> cancellable,
                !cancellable && all_completed(before) ==> self.actions@ == before,
                all_settled(before) ==> all_settled(self.actions@),
            decreases count - i,
        {
            let seen = probe(&mut channel);
            match install_step(seen, i, count) {
                WalkStep::Attempt(at) => {
                    match self.actions[at].try_execute() {
                        Ok(()) => {},
                        Err(error) => {
                            proof {
                                first_open_found(self.actions@, 0, i as int);
                            }
                            return Err(NixInstallerError::Action(error));
                        },
                    }
                    i = at + 1;
                },
                WalkStep::Cancel => {
                    assert(install_cancelled_before(before, self.actions@, i as int));
                    return Err(NixInstallerError::Cancelled);
                },
                WalkStep::Finish => {
                    return Ok(());
                },
            }
        }
        Ok(())
    }

    /// Undoes the plan: each action from the last to the first. An action
    /// that cannot be undone does not stop the walk: its error is kept, and
    /// the errors are handed back together at the end, in the order in which
    /// they came.
    ///
    /// Before each action the cancel channel, if there is one, is looked at
    /// without waiting; a value that was delivered stops the uninstall there.
    /// An action that is uncompleted already is passed over.
    pub fn uninstall(&mut self, cancel_channel: Option<Receiver<()>>) -> (result: Result<
        (),
        NixInstallerError<S, S::Error, P::Error>,
    >)
        ensures
            final(self).version == old(self).version,
            final(self).planner == old(self).planner,
            final(self).diagnostic_data == old(self).diagnostic_data,
            uninstall_outcome(
                old(self).actions@,
                final(self).actions@,
                cancel_channel is Some,
                result,
            ),
    {
        let ghost before = self.actions@;
        let ghost cancellable = cancel_channel is Some;
        let mut channel = cancel_channel;
        let mut errors: Vec<ActionError<S, S::Error>> = Vec::new();
        let count = self.actions.len();
        let mut i: usize = count;
        while i > 0
            invariant
                self.version == old(self).version,
                self.planner == old(self).planner,
                self.diagnostic_data == old(self).diagnostic_data,
                count == before.len(),
                before == old(self).actions@,
                i <= count,
                undone_down_to(before, self.actions@, i as int, errors@),
                forall|k: int| 0 <= k < errors@.len() ==> (#[trigger] errors@[k]) is Step,
                cancellable == (cancel_channel is Some),
                channel is Some <==> cancellable,
                !cancellable && all_uncompleted(before) ==> self.actions@ == before
                    && errors@.len() == 0,
                all_settled(before) ==> all_settled(self.actions@),
            ensures
                i == 0,
            decreases i,
        {
            let seen = probe(&mut channel);
            match uninstall_step(seen, i) {
                WalkStep::Attempt(at) => {
                    let ghost entered = self.actions@;
                    let ghost kept = errors@;
                    match self.actions[at].try_revert() {
                        Ok(()) => {},
                        Err(error) => {
                            errors.push(error);
                        },
                    }
                    proof {
                        undone_from_is_local(before, entered, self.actions@, i as int, kept);
                        if errors@.len() > kept.len() {
                            assert(errors@.drop_last() =~= kept);
                        }
                    }
                    i = at;
                },
                WalkStep::Cancel => {
                    return Err(NixInstallerError::Cancelled);
                },
                WalkStep::Finish => {
                    break ;
                },
            }
        }
        if errors.len() == 0 {
            proof {
                assert(errors@ =~= Seq::empty());
                one_error_for_each_open_action(before, self.actions@, 0, errors@);
                open_count_zero(self.actions@, 0);
            }
            Ok(())
        } else {
            Err(NixInstallerError::ActionRevert(errors))
        }
    }
}

impl<S: Actionable, P: Planner<S>> InstallPlan<S, P> {
    /// Makes a plan from what the planner and the engine's version gave. A
    /// failure to gather the diagnostic data comes first, then a failure to
    /// plan, then a failure to read the version.
    pub fn assemble(
        planner: P,
        gathered: Result<Option<P::Diagnostic>, P::Error>,
        planned: Result<Vec<StatefulAction<Action<S>>>, P::Error>,
        version: Result<SemanticVersion, semver::Error>,
    ) -> (result: Result<Self, NixInstallerError<S, S::Error, P::Error>>)
        ensures
            match (gathered, planned, version) {
                (Ok(data), Ok(actions), Ok(version)) => {
                    &&& result matches Ok(plan)
                    &&& plan.planner == planner
                    &&& plan.diagnostic_data == data
                    &&& plan.actions == actions
                    &&& plan.version == version
                },
                (Ok(_), Ok(_), Err(error)) => result matches Err(NixInstallerError::SemVer(e))
                    && e == error,
                (Ok(_), Err(error), _) => result matches Err(NixInstallerError::Planner(e)) && e
                    == error,
                (Err(error), _, _) => result matches Err(NixInstallerError::Planner(e)) && e
                    == error,
            },
    {
        let diagnostic_data = match gathered {
            Ok(data) => data,
            Err(error) => {
                return Err(NixInstallerError::Planner(error));
            },
        };
        let actions = match planned {
            Ok(actions) => actions,
            Err(error) => {
                return Err(NixInstallerError::Planner(error));
            },
        };
        match version {
            Ok(version) => Ok(Self { version, actions, planner, diagnostic_data }),
            Err(error) => Err(NixInstallerError::SemVer(error)),
        }
    }

    /// Asks `planner` for its diagnostic data and then for its actions, and
    /// makes a plan of them, stamped with the engine's version. A failure of
    /// the planner comes before a failure to read the version, and the
    /// actions are not asked for where the diagnostic data could not be had.
    pub fn plan(planner: P) -> (result: Result<Self, NixInstallerError<S, S::Error, P::Error>>)
        ensures
            match (planner.gathered(), planner.planned()) {
                (Ok(data), Ok(actions)) => if is_version_text(ENGINE_VERSION@) {
                    &&& result matches Ok(plan)
                    &&& plan.planner == planner
                    &&& plan.diagnostic_data == data
                    &&& plan.actions@ == actions
                    &&& plan.version@ == ENGINE_VERSION@
                } else {
                    result matches Err(NixInstallerError::SemVer(_))
                },
                (Ok(_), Err(error)) => result matches Err(NixInstallerError::Planner(e)) && e
                    == error,
                (Err(error), _) => result matches Err(NixInstallerError::Planner(e)) && e == error,
            },
    {
        let gathered = planner.diagnostic_data();
        match gathered {
            Ok(data) => {
                let planned = planner.plan();
                Self::assemble(planner, Ok(data), planned, current_version())
            },
            Err(error) => Err(NixInstallerError::Planner(error)),
        }
    }

    /// Makes a plan with the planner's default value: its actions are those
    /// that this planner reports.
    pub fn default() -> (result: Result<Self, NixInstallerError<S, S::Error, P::Error>>) where
        P: Default,

        ensures
            match result {
                Ok(plan) => {
                    &&& plan.planner.planned() == Ok::<
                        Seq<StatefulAction<Action<S>>>,
                        P::Error,
                    >(plan.actions@)
                    &&& plan.planner.gathered() == Ok::<Option<P::Diagnostic>, P::Error>(
                        plan.diagnostic_data,
                    )
                    &&& plan.version@ == ENGINE_VERSION@
                    &&& is_version_text(ENGINE_VERSION@)
                },
                Err(NixInstallerError::Planner(_)) => true,
                Err(NixInstallerError::SemVer(_)) => !is_version_text(ENGINE_VERSION@),
                Err(_) => false,
            },
    {
        Self::plan(P::default())
    }

    /// What carrying the plan out is described as: the descriptions of its
    /// actions, in order.
    pub open spec fn install_descriptions(&self) -> Seq<crate::action::ActionDescriptionView> {
        execute_descriptions(self.actions@, self.actions@.len())
    }

    /// What undoing the plan is described as: the descriptions of its
    /// actions, from the last to the first.
    pub open spec fn uninstall_descriptions(&self) -> Seq<crate::action::ActionDescriptionView> {
        revert_descriptions(self.actions@, 0)
    }

    /// Gathers the descriptions of the actions, in order.
    fn gather_install_descriptions(&self) -> (list: Vec<ActionDescription>)
        ensures
            description_views(list@) == self.install_descriptions(),
    {
        let mut list: Vec<ActionDescription> = Vec::new();
        let mut i: usize = 0;
        while i < self.actions.len()
            invariant
                i <= self.actions.len(),
                description_views(list@) == execute_descriptions(self.actions@, i as nat),
            decreases self.actions.len() - i,
        {
            let mut more = self.actions[i].describe_execute();
            list.append(&mut more);
            i += 1;
        }
        list
    }

    /// Gathers the descriptions of the actions, from the last to the first.
    fn gather_uninstall_descriptions(&self) -> (list: Vec<ActionDescription>)
        ensures
            description_views(list@) == self.uninstall_descriptions(),
    {
        let mut list: Vec<ActionDescription> = Vec::new();
        let mut i: usize = self.actions.len();
        while i > 0
            invariant
                i <= self.actions.len(),
                description_views(list@) == revert_descriptions(self.actions@, i as nat),
            decreases i,
        {
            i -= 1;
            let mut more = self.actions[i].describe_revert();
            list.append(&mut more);
        }
        list
    }

    /// The text that describes the install, with `settings` as the settings
    /// to list: they are put in the order of their keys.
    pub fn describe_install_with(&self, settings: Vec<(String, String)>, explain: bool) -> (text:
        String)
        ensures
            text@ == plan_text(
                false,
                self.version@,
                self.planner.typetag(),
                in_key_order(setting_views(settings@), 0),
                self.install_descriptions(),
                explain,
            ),
    {
        let ordered = sort_settings(settings);
        let name = self.planner.typetag_name();
        let descriptions = self.gather_install_descriptions();
        render_plan(false, self.version.as_str(), name.as_str(), &ordered, &descriptions, explain)
    }

    /// The text that describes the uninstall, with `settings` as the
    /// settings to list: they are put in the order of their keys.
    pub fn describe_uninstall_with(&self, settings: Vec<(String, String)>, explain: bool) -> (text:
        String)
        ensures
            text@ == plan_text(
                true,
                self.version@,
                self.planner.typetag(),
                in_key_order(setting_views(settings@), 0),
                self.uninstall_descriptions(),
                explain,
            ),
    {
        let ordered = sort_settings(settings);
        let name = self.planner.typetag_name();
        let descriptions = self.gather_uninstall_descriptions();
        render_plan(true, self.version.as_str(), name.as_str(), &ordered, &descriptions, explain)
    }

    /// Describes what an install will do: the plan's version, the planner
    /// and the settings that were configured, in the order of their keys,
    /// then the actions in the order in which they are carried out. With
    /// `explain` each action is explained.
    ///
    /// It fails only where the planner cannot report its settings, with the
    /// planner's error.
    pub fn describe_install(&self, explain: bool) -> (result: Result<
        String,
        NixInstallerError<S, S::Error, P::Error>,
    >)
        ensures
            match self.planner.reported_settings(true) {
                Ok(settings) => result matches Ok(text) && text@ == plan_text(
                    false,
                    self.version@,
                    self.planner.typetag(),
                    in_key_order(settings, 0),
                    self.install_descriptions(),
                    explain,
                ),
                Err(error) => result matches Err(NixInstallerError::Planner(e)) && e == error,
            },
    {
        match self.planner.configured_settings() {
            Ok(settings) => Ok(self.describe_install_with(settings, explain)),
            Err(error) => Err(NixInstallerError::Planner(error)),
        }
    }

    /// Describes what an uninstall will do: the plan's version, the planner
    /// and the settings that were configured, in the order of their keys,
    /// then the actions in the order in which they are undone, the last
    /// first. With `explain` each action is explained.
    ///
    /// It fails only where the planner cannot report its settings, with the
    /// planner's error.
    pub fn describe_uninstall(&self, explain: bool) -> (result: Result<
        String,
        NixInstallerError<S, S::Error, P::Error>,
    >)
        ensures
            match self.planner.reported_settings(true) {
                Ok(settings) => result matches Ok(text) && text@ == plan_text(
                    true,
                    self.version@,
                    self.planner.typetag(),
                    in_key_order(settings, 0),
                    self.uninstall_descriptions(),
                    explain,
                ),
                Err(error) => result matches Err(NixInstallerError::Planner(e)) && e == error,
            },
    {
        match self.planner.configured_settings() {
            Ok(settings) => Ok(self.describe_uninstall_with(settings, explain)),
            Err(error) => Err(NixInstallerError::Planner(error)),
        }
    }
}

/// Where no action from `from` on is open, each of them is uncompleted.
proof fn open_count_zero<A>(actions: Seq<StatefulAction<A>>, from: int)
    requires
        0 <= from,
        open_count(actions, from) == 0,
    ensures
        forall|i: int| from <= i < actions.len() ==> (#[trigger] actions[i]).state is Uncompleted,
    decreases actions.len() - from,
{
    if from < actions.len() {
        open_count_zero(actions, from + 1);
    }
}

} // verus!
