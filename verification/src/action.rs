//! Reversible steps, their lifecycle state, and groups of steps.

use vstd::prelude::*;

verus! {

/// Where an action stands in its lifecycle.
#[derive(Debug, Clone, Copy, PartialEq, Eq, Structural)]
pub enum ActionState {
    /// The action has been carried out.
    Completed,
    /// Some, but not all, of a group's members have been carried out.
    Progress,
    /// The action has not been carried out, or has been undone.
    Uncompleted,
}

/// A one-line summary of what an action does, with optional further lines of
/// explanation.
#[derive(Debug, Clone)]
pub struct ActionDescription {
    pub description: String,
    pub explanation: Vec<String>,
}

/// The mathematical content of an [`ActionDescription`].
pub struct ActionDescriptionView {
    pub description: Seq<char>,
    pub explanation: Seq<Seq<char>>,
}

impl View for ActionDescription {
    type V = ActionDescriptionView;

    open spec fn view(&self) -> ActionDescriptionView {
        ActionDescriptionView {
            description: self.description@,
            explanation: self.explanation@.map_values(|line: String| line@),
        }
    }
}

/// The contents of a list of descriptions.
pub open spec fn description_views(list: Seq<ActionDescription>) -> Seq<ActionDescriptionView> {
    list.map_values(|d: ActionDescription| d@)
}

impl ActionDescription {
    pub fn new(description: String, explanation: Vec<String>) -> (made: Self)
        ensures
            made.description == description,
            made.explanation == explanation,
    {
        Self { description, explanation }
    }
}

/// A single reversible change to the host.
///
/// The two descriptions are functions of the value alone. Of `execute` and
/// `revert` nothing is known but that each has some way of its own to take a
/// value to another and to succeed or fail: `executed` and `reverted` name
/// the two ways, so that what is said of a walk can say which of the two was
/// called, and whose failure was handed back.
pub trait Actionable: Sized {
    type Error;

    /// What `describe_execute` reports: some function of the value.
    open spec fn execute_description(&self) -> Seq<ActionDescriptionView> {
        vstd::pervasive::arbitrary::<spec_fn(Self, bool) -> Seq<ActionDescriptionView>>()(
            *self,
            false,
        )
    }

    /// What `describe_revert` reports: some function of the value.
    open spec fn revert_description(&self) -> Seq<ActionDescriptionView> {
        vstd::pervasive::arbitrary::<spec_fn(Self, bool) -> Seq<ActionDescriptionView>>()(
            *self,
            true,
        )
    }

    /// What `tracing_synopsis` reports: some function of the value.
    open spec fn synopsis(&self) -> Seq<char> {
        vstd::pervasive::arbitrary::<spec_fn(Self, int) -> Seq<char>>()(*self, 0)
    }

    /// A one-line label for the action, as it is shown while a plan is
    /// carried out.
    fn tracing_synopsis(&self) -> (label: String)
        ensures
            label@ == self.synopsis(),
    ;

    fn describe_execute(&self) -> (list: Vec<ActionDescription>)
        ensures
            description_views(list@) == self.execute_description(),
    ;

    fn describe_revert(&self) -> (list: Vec<ActionDescription>)
        ensures
            description_views(list@) == self.revert_description(),
    ;

    /// Whether `execute` may take `before` to `after` and end with
    /// `failure`, where no failure is success.
    open spec fn executed(before: Self, after: Self, failure: Option<Self::Error>) -> bool {
        vstd::pervasive::arbitrary::<spec_fn(Self, Self, Option<Self::Error>, bool) -> bool>()(
            before,
            after,
            failure,
            false,
        )
    }

    /// Whether `revert` may take `before` to `after` and end with `failure`,
    /// where no failure is success.
    open spec fn reverted(before: Self, after: Self, failure: Option<Self::Error>) -> bool {
        vstd::pervasive::arbitrary::<spec_fn(Self, Self, Option<Self::Error>, bool) -> bool>()(
            before,
            after,
            failure,
            true,
        )
    }

    fn execute(&mut self) -> (result: Result<(), Self::Error>)
        ensures
            Self::executed(
                *old(self),
                *final(self),
                match result {
                    Ok(()) => None,
                    Err(error) => Some(error),
                },
            ),
    ;

    fn revert(&mut self) -> (result: Result<(), Self::Error>)
        ensures
            Self::reverted(
                *old(self),
                *final(self),
                match result {
                    Ok(()) => None,
                    Err(error) => Some(error),
                },
            ),
    ;
}

/// An action together with its lifecycle state.
#[derive(Debug)]
pub struct StatefulAction<A> {
    pub action: A,
    pub state: ActionState,
}

/// Either a single step or an ordered group of actions that is carried out
/// and undone as one. A group has a one-line label of its own.
#[derive(Debug)]
pub enum Action<S> {
    Step(S),
    Group { synopsis: String, members: Vec<StatefulAction<Action<S>>> },
}

/// Why an action could not be carried out or undone. The last three name
/// the action, by a copy of it.
#[derive(Debug)]
pub enum ActionError<S, E> {
    /// The step itself failed.
    Step(E),
    /// A revert was demanded of an action that has not been carried out.
    NotExecuted(Action<S>),
    /// An execution was demanded of an action that has been carried out.
    AlreadyExecuted(Action<S>),
    /// A revert was demanded of an action that has been undone already.
    AlreadyReverted(Action<S>),
}

/// The one-line label of `action`: a step's own, or the one a group was
/// given.
pub open spec fn synopsis_of<S: Actionable>(action: Action<S>) -> Seq<char> {
    match action {
        Action::Step(step) => step.synopsis(),
        Action::Group { synopsis, .. } => synopsis@,
    }
}

/// What carrying out `action` is described as: a step's own description, or
/// the descriptions of a group's members one after the other.
pub open spec fn execute_description_of<S: Actionable>(action: Action<S>) -> Seq<ActionDescriptionView>
    decreases action, 0nat,
{
    match action {
        Action::Step(step) => step.execute_description(),
        Action::Group { members, .. } => execute_descriptions(members@, members@.len()),
    }
}

/// The descriptions of the first `count` members, in order.
pub open spec fn execute_descriptions<S: Actionable>(
    members: Seq<StatefulAction<Action<S>>>,
    count: nat,
) -> Seq<ActionDescriptionView>
    decreases members, count,
{
    if count == 0 || count > members.len() {
        Seq::empty()
    } else {
        execute_descriptions(members, (count - 1) as nat) + execute_description_of(
            members[count - 1].action,
        )
    }
}

/// What undoing `action` is described as: a step's own description, or the
/// descriptions of a group's members from the last to the first.
pub open spec fn revert_description_of<S: Actionable>(action: Action<S>) -> Seq<ActionDescriptionView>
    decreases action, 0nat,
{
    match action {
        Action::Step(step) => step.revert_description(),
        Action::Group { members, .. } => revert_descriptions(members@, 0),
    }
}

/// The descriptions of the members from the last down to the one at `from`.
pub open spec fn revert_descriptions<S: Actionable>(
    members: Seq<StatefulAction<Action<S>>>,
    from: nat,
) -> Seq<ActionDescriptionView>
    decreases members, members.len() - from,
{
    if from >= members.len() {
        Seq::empty()
    } else {
        revert_descriptions(members, from + 1) + revert_description_of(members[from as int].action)
    }
}

/// No step inside `action` is in progress: only a group can be partly done.
pub open spec fn steps_settled<S>(action: Action<S>) -> bool
    decreases action, 0nat,
{
    match action {
        Action::Step(_) => true,
        Action::Group { members, .. } => forall|i: int|
            0 <= i < members@.len() ==> settled(#[trigger] members@[i]),
    }
}

/// The action is not a step in progress, and no step inside it is.
pub open spec fn settled<S>(action: StatefulAction<Action<S>>) -> bool
    decreases action, 1nat,
{
    &&& action.action is Step ==> !(action.state is Progress)
    &&& steps_settled(action.action)
}

/// Some member is completed and some member is not.
pub open spec fn partly_completed<A>(members: Seq<StatefulAction<A>>) -> bool {
    &&& exists|i: int| 0 <= i < members.len() && (#[trigger] members[i]).state is Completed
    &&& exists|j: int| 0 <= j < members.len() && !((#[trigger] members[j]).state is Completed)
}

/// The state an action is left in when carrying it out or undoing it fails:
/// `Progress` for a group that is partly completed, else the state it had.
pub open spec fn state_after_failure<S>(before: ActionState, action: Action<S>) -> ActionState {
    match action {
        Action::Step(_) => before,
        Action::Group { members, .. } => if partly_completed(members@) {
            ActionState::Progress
        } else {
            before
        },
    }
}

/// The position, from `from` on, of the first member that is not completed;
/// the number of members where there is none.
pub open spec fn first_open<A>(members: Seq<StatefulAction<A>>, from: int) -> int
    decreases members.len() - from,
{
    if from < 0 || from >= members.len() {
        members.len() as int
    } else if !(members[from].state is Completed) {
        from
    } else {
        first_open(members, from + 1)
    }
}

/// One more than the position, before `upto`, of the last member that is not
/// uncompleted; zero where there is none.
pub open spec fn last_open<A>(members: Seq<StatefulAction<A>>, upto: int) -> int
    decreases upto,
{
    if upto <= 0 || upto > members.len() {
        0
    } else if !(members[upto - 1].state is Uncompleted) {
        upto
    } else {
        last_open(members, upto - 1)
    }
}

/// Where the members from `from` up to `at` are completed and the one at
/// `at` is not, `at` is the first that is not completed.
pub proof fn first_open_found<A>(members: Seq<StatefulAction<A>>, from: int, at: int)
    requires
        0 <= from <= at < members.len(),
        forall|i: int| from <= i < at ==> (#[trigger] members[i]).state is Completed,
        !(members[at].state is Completed),
    ensures
        first_open(members, from) == at,
    decreases at - from,
{
    if from < at {
        first_open_found(members, from + 1, at);
    }
}

/// Where the members behind `at` and before `upto` are uncompleted and the
/// one at `at` is not, `at` is the last that is not uncompleted.
pub proof fn last_open_found<A>(members: Seq<StatefulAction<A>>, upto: int, at: int)
    requires
        0 <= at < upto <= members.len(),
        forall|i: int| at < i < upto ==> (#[trigger] members[i]).state is Uncompleted,
        !(members[at].state is Uncompleted),
    ensures
        last_open(members, upto) == at + 1,
    decreases upto - at,
{
    if at + 1 < upto {
        last_open_found(members, upto - 1, at);
    }
}

/// Two actions are of the same kind, and two groups have members that
/// agree, one by one, in kind and in state.
pub open spec fn same_shape<S>(one: Action<S>, other: Action<S>) -> bool
    decreases one, 0nat,
{
    match one {
        Action::Step(_) => other is Step,
        Action::Group { synopsis, members } => {
            &&& other is Group
            &&& other->synopsis@ == synopsis@
            &&& other->members@.len() == members@.len()
            &&& forall|i: int|
                0 <= i < members@.len() ==> same_states(
                    members@[i],
                    #[trigger] other->members@[i],
                )
        },
    }
}

/// Two actions are in the same state and of the same kind, and so are their
/// members, however deep.
pub open spec fn same_states<S>(
    one: StatefulAction<Action<S>>,
    other: StatefulAction<Action<S>>,
) -> bool
    decreases one, 1nat,
{
    other.state == one.state && same_shape(one.action, other.action)
}

/// The failure of a step that an error stands for, if it stands for one.
pub open spec fn step_failure<S, E>(failure: Option<ActionError<S, E>>) -> Option<E> {
    match failure {
        Some(ActionError::Step(error)) => Some(error),
        _ => None,
    }
}

/// What an attempt to carry an action out leaves when it succeeds: the
/// action is completed. One that was completed before is as it was; any other
/// has been carried out.
pub open spec fn carried_out<S: Actionable>(
    before: StatefulAction<Action<S>>,
    after: StatefulAction<Action<S>>,
) -> bool
    decreases before, 1nat,
{
    &&& after.state is Completed
    &&& if before.state is Completed {
        after == before
    } else {
        execute_outcome(before.action, after.action, None)
    }
}

/// What an attempt to carry an action out leaves when it fails with
/// `error`: the action was not completed before, carrying it out has failed
/// with that error, and its state is what a failure leaves.
pub open spec fn execute_failed<S: Actionable>(
    before: StatefulAction<Action<S>>,
    after: StatefulAction<Action<S>>,
    error: ActionError<S, S::Error>,
) -> bool
    decreases before, 1nat,
{
    &&& !(before.state is Completed)
    &&& execute_outcome(before.action, after.action, Some(error))
    &&& after.state == state_after_failure(before.state, after.action)
}

/// A forward walk over `before` came `stop` members far: each member before
/// `stop` has been carried out, and those behind it are as they were.
pub open spec fn executed_up_to<S: Actionable>(
    before: Seq<StatefulAction<Action<S>>>,
    after: Seq<StatefulAction<Action<S>>>,
    stop: int,
) -> bool
    decreases before, 0nat,
{
    &&& after.len() == before.len()
    &&& 0 <= stop <= before.len()
    &&& forall|i: int| 0 <= i < stop ==> carried_out(before[i], #[trigger] after[i])
    &&& forall|i: int| stop < i < before.len() ==> #[trigger] after[i] == before[i]
}

/// How `execute` leaves an action when it ends with `failure`, where no
/// failure is success.
///
/// A step stays a step: its own `execute` was called, and the failure is the
/// one that call ended with. A group has been walked forward: through all of
/// its members on success, and else up to the member that failed with that
/// failure, which is then the first that is not completed.
pub open spec fn execute_outcome<S: Actionable>(
    before: Action<S>,
    after: Action<S>,
    failure: Option<ActionError<S, S::Error>>,
) -> bool
    decreases before, 0nat,
{
    match before {
        Action::Step(step) => {
            &&& after is Step
            &&& failure matches Some(error) ==> error is Step
            &&& S::executed(step, after->Step_0, step_failure(failure))
        },
        Action::Group { members, .. } => {
            let stop = if failure is None {
                members@.len() as int
            } else {
                first_open(after->members@, 0)
            };
            &&& after is Group
            &&& after->synopsis == before->synopsis
            &&& executed_up_to(members@, after->members@, stop)
            &&& failure matches Some(error) ==> 0 <= stop < members@.len() && execute_failed(
                members@[stop],
                after->members@[stop],
                error,
            )
        },
    }
}

/// What an attempt to undo an action leaves when it succeeds: the action is
/// uncompleted. One that was uncompleted before is as it was; any other has
/// been undone.
pub open spec fn undone<S: Actionable>(
    before: StatefulAction<Action<S>>,
    after: StatefulAction<Action<S>>,
) -> bool
    decreases before, 1nat,
{
    &&& after.state is Uncompleted
    &&& if before.state is Uncompleted {
        after == before
    } else {
        revert_outcome(before.action, after.action, None)
    }
}

/// What an attempt to undo an action leaves when it fails with `error`: the
/// action was not uncompleted before, undoing it has failed with that error,
/// and its state is what a failure leaves.
pub open spec fn revert_failed<S: Actionable>(
    before: StatefulAction<Action<S>>,
    after: StatefulAction<Action<S>>,
    error: ActionError<S, S::Error>,
) -> bool
    decreases before, 1nat,
{
    &&& !(before.state is Uncompleted)
    &&& revert_outcome(before.action, after.action, Some(error))
    &&& after.state == state_after_failure(before.state, after.action)
}

/// A backward walk over `before` came down to `stop`: each member from
/// `stop` on has been undone, and those before `stop - 1` are as they were.
pub open spec fn reverted_down_to<S: Actionable>(
    before: Seq<StatefulAction<Action<S>>>,
    after: Seq<StatefulAction<Action<S>>>,
    stop: int,
) -> bool
    decreases before, 0nat,
{
    &&& after.len() == before.len()
    &&& 0 <= stop <= before.len()
    &&& forall|i: int| stop <= i < before.len() ==> undone(before[i], #[trigger] after[i])
    &&& forall|i: int| 0 <= i < stop - 1 ==> #[trigger] after[i] == before[i]
}

/// How `revert` leaves an action when it ends with `failure`, where no
/// failure is success.
///
/// A step stays a step: its own `revert` was called, and the failure is the
/// one that call ended with. A group has been walked backward: through all of
/// its members on success, and else down to the member that failed with that
/// failure, which is then the last that is not uncompleted.
pub open spec fn revert_outcome<S: Actionable>(
    before: Action<S>,
    after: Action<S>,
    failure: Option<ActionError<S, S::Error>>,
) -> bool
    decreases before, 0nat,
{
    match before {
        Action::Step(step) => {
            &&& after is Step
            &&& failure matches Some(error) ==> error is Step
            &&& S::reverted(step, after->Step_0, step_failure(failure))
        },
        Action::Group { members, .. } => {
            let stop = if failure is None {
                0
            } else {
                last_open(after->members@, after->members@.len() as int)
            };
            &&& after is Group
            &&& after->synopsis == before->synopsis
            &&& reverted_down_to(members@, after->members@, stop)
            &&& failure matches Some(error) ==> 0 < stop <= members@.len() && revert_failed(
                members@[stop - 1],
                after->members@[stop - 1],
                error,
            )
        },
    }
}

impl ActionState {
    /// The state after an attempt to carry an action out, given whether the
    /// attempt `succeeded` and whether the action is then `partly` completed.
    pub fn after_execute(self, succeeded: bool, partly: bool) -> (next: ActionState)
        ensures
            next == if self is Completed || succeeded {
                ActionState::Completed
            } else if partly {
                ActionState::Progress
            } else {
                self
            },
    {
        if self == ActionState::Completed || succeeded {
            ActionState::Completed
        } else if partly {
            ActionState::Progress
        } else {
            self
        }
    }

    /// The state after an attempt to undo an action, given whether the attempt
    /// `succeeded` and whether the action is then `partly` completed.
    pub fn after_revert(self, succeeded: bool, partly: bool) -> (next: ActionState)
        ensures
            next == if self is Uncompleted || succeeded {
                ActionState::Uncompleted
            } else if partly {
                ActionState::Progress
            } else {
                self
            },
    {
        if self == ActionState::Uncompleted || succeeded {
            ActionState::Uncompleted
        } else if partly {
            ActionState::Progress
        } else {
            self
        }
    }
}

impl<S: Actionable> Action<S> {
    /// Whether this is a group of which some member is completed and some
    /// member is not.
    pub fn partly_completed(&self) -> (partly: bool)
        ensures
            partly == (self matches Action::Group { members, .. } && partly_completed(members@)),
    {
        match self {
            Action::Step(_) => false,
            Action::Group { members, .. } => {
                let mut some_completed = false;
                let mut some_open = false;
                let mut i: usize = 0;
                while i < members.len()
                    invariant
                        i <= members.len(),
                        some_completed == exists|k: int|
                            0 <= k < i && (#[trigger] members@[k]).state is Completed,
                        some_open == exists|k: int|
                            0 <= k < i && !((#[trigger] members@[k]).state is Completed),
                    decreases members.len() - i,
                {
                    if members[i].state == ActionState::Completed {
                        some_completed = true;
                    } else {
                        some_open = true;
                    }
                    i += 1;
                }
                some_completed && some_open
            },
        }
    }
}

impl<S: Actionable> Action<S> {
    /// Carries the action out: a step by its own `execute`, a group by
    /// carrying out its members in order up to the first that fails.
    pub fn execute(&mut self) -> (result: Result<(), ActionError<S, S::Error>>)
        ensures
            execute_outcome(
                *old(self),
                *final(self),
                match result {
                    Ok(()) => None,
                    Err(error) => Some(error),
                },
            ),
            steps_settled(*old(self)) ==> steps_settled(*final(self)),
            result matches Err(error) ==> error is Step,
        decreases *old(self), 0nat,
    {
        match self {
            Action::Step(step) => match step.execute() {
                Ok(()) => Ok(()),
                Err(error) => Err(ActionError::Step(error)),
            },
            Action::Group { members, .. } => {
                let ghost before = members@;
                let count = members.len();
                let mut result: Result<(), ActionError<S, S::Error>> = Ok(());
                let mut i: usize = 0;
                while i < count && result.is_ok()
                    invariant
                        count == before.len(),
                        i <= count,
                        result is Ok ==> executed_up_to(before, members@, i as int),
                        result is Ok ==> i < count ==> members@[i as int] == before[i as int],
                        result matches Err(error) ==> i < count && executed_up_to(
                            before,
                            members@,
                            i as int,
                        ) && execute_failed(before[i as int], members@[i as int], error),
                        result matches Err(error) ==> error is Step,
                        steps_settled(*old(self)) ==> forall|k: int|
                            0 <= k < count ==> settled(#[trigger] members@[k]),
                        forall|k: int|
                            0 <= k < count ==> decreases_to!(*old(self) => #[trigger] before[k]),
                    decreases count - i + if result is Ok { 1nat } else { 0nat },
                {
                    match members[i].try_execute() {
                        Ok(()) => {
                            i += 1;
                        },
                        Err(error) => {
                            result = Err(error);
                        },
                    }
                }
                proof {
                    if result is Err {
                        first_open_found(members@, 0, i as int);
                    }
                }
                result
            },
        }
    }

    /// Undoes the action: a step by its own `revert`, a group by undoing its
    /// members from the last to the first, up to the first that fails.
    pub fn revert(&mut self) -> (result: Result<(), ActionError<S, S::Error>>)
        ensures
            revert_outcome(
                *old(self),
                *final(self),
                match result {
                    Ok(()) => None,
                    Err(error) => Some(error),
                },
            ),
            steps_settled(*old(self)) ==> steps_settled(*final(self)),
            result matches Err(error) ==> error is Step,
        decreases *old(self), 0nat,
    {
        match self {
            Action::Step(step) => match step.revert() {
                Ok(()) => Ok(()),
                Err(error) => Err(ActionError::Step(error)),
            },
            Action::Group { members, .. } => {
                let ghost before = members@;
                let count = members.len();
                let mut result: Result<(), ActionError<S, S::Error>> = Ok(());
                let mut i: usize = count;
                while i > 0 && result.is_ok()
                    invariant
                        count == before.len(),
                        i <= count,
                        result is Ok ==> reverted_down_to(before, members@, i as int),
                        result is Ok ==> i > 0 ==> members@[i - 1] == before[i - 1],
                        result matches Err(error) ==> i > 0 && reverted_down_to(
                            before,
                            members@,
                            i as int,
                        ) && revert_failed(before[i - 1], members@[i - 1], error),
                        result matches Err(error) ==> error is Step,
                        steps_settled(*old(self)) ==> forall|k: int|
                            0 <= k < count ==> settled(#[trigger] members@[k]),
                        forall|k: int|
                            0 <= k < count ==> decreases_to!(*old(self) => #[trigger] before[k]),
                    decreases i + if result is Ok { 1nat } else { 0nat },
                {
                    match members[i - 1].try_revert() {
                        Ok(()) => {
                            i -= 1;
                        },
                        Err(error) => {
                            result = Err(error);
                        },
                    }
                }
                proof {
                    if result is Err {
                        last_open_found(members@, count as int, i - 1);
                    }
                }
                result
            },
        }
    }
}

impl<S: Actionable> StatefulAction<Action<S>> {
    /// A freshly planned action.
    pub fn uncompleted(action: Action<S>) -> (made: Self)
        ensures
            made.action == action,
            made.state is Uncompleted,
            steps_settled(action) ==> settled(made),
    {
        Self { action, state: ActionState::Uncompleted }
    }

    /// An action recorded as carried out.
    pub fn completed(action: Action<S>) -> (made: Self)
        ensures
            made.action == action,
            made.state is Completed,
            steps_settled(action) ==> settled(made),
    {
        Self { action, state: ActionState::Completed }
    }

    /// Carries the action out unless it is completed already.
    ///
    /// A completed action is left alone. Otherwise success completes it, and
    /// failure leaves its state as it was, or `Progress` for a group that is
    /// then partly completed.
    pub fn try_execute(&mut self) -> (result: Result<(), ActionError<S, S::Error>>)
        ensures
            match result {
                Ok(()) => carried_out(*old(self), *final(self)),
                Err(error) => execute_failed(*old(self), *final(self), error),
            },
            settled(*old(self)) ==> settled(*final(self)),
            result matches Err(error) ==> error is Step,
        decreases *old(self), 1nat,
    {
        if self.state == ActionState::Completed {
            return Ok(());
        }
        let outcome = self.action.execute();
        let partly = outcome.is_err() && self.action.partly_completed();
        self.state = self.state.after_execute(outcome.is_ok(), partly);
        outcome
    }

    /// Undoes the action unless it is uncompleted already.
    ///
    /// An uncompleted action is left alone. Otherwise success leaves it
    /// uncompleted, and failure leaves its state as it was, or `Progress` for
    /// a group that is then partly completed.
    pub fn try_revert(&mut self) -> (result: Result<(), ActionError<S, S::Error>>)
        ensures
            match result {
                Ok(()) => undone(*old(self), *final(self)),
                Err(error) => revert_failed(*old(self), *final(self), error),
            },
            settled(*old(self)) ==> settled(*final(self)),
            result matches Err(error) ==> error is Step,
        decreases *old(self), 1nat,
    {
        if self.state == ActionState::Uncompleted {
            return Ok(());
        }
        let outcome = self.action.revert();
        let partly = outcome.is_err() && self.action.partly_completed();
        self.state = self.state.after_revert(outcome.is_ok(), partly);
        outcome
    }
}

impl<S: Actionable> Action<S> {
    /// The one-line label of the action.
    pub fn tracing_synopsis(&self) -> (label: String)
        ensures
            label@ == synopsis_of(*self),
    {
        match self {
            Action::Step(step) => step.tracing_synopsis(),
            Action::Group { synopsis, .. } => synopsis.clone(),
        }
    }

    /// Describes what carrying the action out will do.
    pub fn describe_execute(&self) -> (list: Vec<ActionDescription>)
        ensures
            description_views(list@) == execute_description_of(*self),
        decreases *self,
    {
        match self {
            Action::Step(step) => step.describe_execute(),
            Action::Group { members, .. } => {
                let mut list: Vec<ActionDescription> = Vec::new();
                let mut i: usize = 0;
                while i < members.len()
                    invariant
                        i <= members.len(),
                        *self is Group,
                        (*self)->members == *members,
                        description_views(list@) == execute_descriptions(members@, i as nat),
                        forall|k: int|
                            0 <= k < members.len() ==> decreases_to!(*self => #[trigger] members@[k]),
                    decreases members.len() - i,
                {
                    let mut more = members[i].action.describe_execute();
                    list.append(&mut more);
                    i += 1;
                }
                list
            },
        }
    }

    /// Describes what undoing the action will do.
    pub fn describe_revert(&self) -> (list: Vec<ActionDescription>)
        ensures
            description_views(list@) == revert_description_of(*self),
        decreases *self,
    {
        match self {
            Action::Step(step) => step.describe_revert(),
            Action::Group { members, .. } => {
                let mut list: Vec<ActionDescription> = Vec::new();
                let mut i: usize = members.len();
                while i > 0
                    invariant
                        i <= members.len(),
                        *self is Group,
                        (*self)->members == *members,
                        description_views(list@) == revert_descriptions(members@, i as nat),
                        forall|k: int|
                            0 <= k < members.len() ==> decreases_to!(*self => #[trigger] members@[k]),
                    decreases i,
                {
                    i -= 1;
                    let mut more = members[i].action.describe_revert();
                    list.append(&mut more);
                }
                list
            },
        }
    }
}

impl<S: Actionable> StatefulAction<Action<S>> {
    /// The one-line label of the action.
    pub fn tracing_synopsis(&self) -> (label: String)
        ensures
            label@ == synopsis_of(self.action),
    {
        self.action.tracing_synopsis()
    }

    /// Describes what carrying the action out will do.
    pub fn describe_execute(&self) -> (list: Vec<ActionDescription>)
        ensures
            description_views(list@) == execute_description_of(self.action),
    {
        self.action.describe_execute()
    }

    /// Describes what undoing the action will do.
    pub fn describe_revert(&self) -> (list: Vec<ActionDescription>)
        ensures
            description_views(list@) == revert_description_of(self.action),
    {
        self.action.describe_revert()
    }
}

impl<S: Actionable + Clone> Action<S> {
    /// A copy of the action: a step by its own `clone`, a group member by
    /// member.
    pub fn duplicate(&self) -> (copy: Self)
        ensures
            same_shape(*self, copy),
        decreases *self, 0nat,
    {
        match self {
            Action::Step(step) => Action::Step(step.clone()),
            Action::Group { synopsis, members } => {
                let mut list: Vec<StatefulAction<Action<S>>> = Vec::new();
                let mut i: usize = 0;
                while i < members.len()
                    invariant
                        i <= members.len(),
                        list@.len() == i,
                        forall|k: int| 0 <= k < i ==> same_states(members@[k], #[trigger] list@[k]),
                        forall|k: int|
                            0 <= k < members.len() ==> decreases_to!(*self => #[trigger] members@[k]),
                    decreases members.len() - i,
                {
                    let copy = members[i].duplicate();
                    list.push(copy);
                    i += 1;
                }
                Action::Group { synopsis: synopsis.clone(), members: list }
            },
        }
    }
}

impl<S: Actionable + Clone> StatefulAction<Action<S>> {
    /// Carries the action out, and refuses one that is completed already.
    pub fn execute(&mut self) -> (result: Result<(), ActionError<S, S::Error>>)
        ensures
            match result {
                Ok(()) => !(old(self).state is Completed) && carried_out(*old(self), *final(self)),
                Err(ActionError::AlreadyExecuted(action)) => {
                    &&& old(self).state is Completed
                    &&& *final(self) == *old(self)
                    &&& same_shape(old(self).action, action)
                },
                Err(ActionError::Step(error)) => execute_failed(
                    *old(self),
                    *final(self),
                    ActionError::Step(error),
                ),
                Err(_) => false,
            },
            settled(*old(self)) ==> settled(*final(self)),
    {
        if self.state == ActionState::Completed {
            return Err(ActionError::AlreadyExecuted(self.action.duplicate()));
        }
        self.try_execute()
    }

    /// Undoes the action, and refuses one that has not been carried out.
    pub fn revert(&mut self) -> (result: Result<(), ActionError<S, S::Error>>)
        ensures
            match result {
                Ok(()) => !(old(self).state is Uncompleted) && undone(*old(self), *final(self)),
                Err(ActionError::NotExecuted(action)) => {
                    &&& old(self).state is Uncompleted
                    &&& *final(self) == *old(self)
                    &&& same_shape(old(self).action, action)
                },
                Err(ActionError::Step(error)) => revert_failed(
                    *old(self),
                    *final(self),
                    ActionError::Step(error),
                ),
                Err(_) => false,
            },
            settled(*old(self)) ==> settled(*final(self)),
    {
        if self.state == ActionState::Uncompleted {
            return Err(ActionError::NotExecuted(self.action.duplicate()));
        }
        self.try_revert()
    }

    /// A copy of the action, in the same state.
    pub fn duplicate(&self) -> (copy: Self)
        ensures
            same_states(*self, copy),
        decreases *self, 1nat,
    {
        StatefulAction { action: self.action.duplicate(), state: self.state }
    }
}

impl<S: Actionable + Clone> Clone for Action<S> {
    fn clone(&self) -> (copy: Self)
        ensures
            same_shape(*self, copy),
    {
        self.duplicate()
    }
}

impl<S: Actionable + Clone> Clone for StatefulAction<Action<S>> {
    fn clone(&self) -> (copy: Self)
        ensures
            same_states(*self, copy),
    {
        self.duplicate()
    }
}

} // verus!
