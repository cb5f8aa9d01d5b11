//! The planner: where a plan's actions and its settings come from.

use crate::action::{Action, Actionable, StatefulAction};
use crate::settings::setting_views;
use vstd::prelude::*;

verus! {

/// Produces the actions of a plan, and reports the settings it was given.
///
/// What a planner reports is taken to be a function of its value alone: its
/// name, its actions and its settings. `typetag`, `planned` and
/// `reported_settings` name what is reported.
pub trait Planner<S: Actionable>: Sized {
    type Error;

    /// What the planner gathers for the report on how a run ended.
    type Diagnostic: std::fmt::Debug;

    /// What `typetag_name` reports: some function of the value.
    open spec fn typetag(&self) -> Seq<char> {
        vstd::pervasive::arbitrary::<spec_fn(Self) -> Seq<char>>()(*self)
    }

    /// What `plan` reports: some function of the value.
    open spec fn planned(&self) -> Result<Seq<StatefulAction<Action<S>>>, Self::Error> {
        vstd::pervasive::arbitrary::<
            spec_fn(Self) -> Result<Seq<StatefulAction<Action<S>>>, Self::Error>,
        >()(*self)
    }

    /// What `configured_settings` reports, and with `configured` unset what
    /// `settings` reports: some function of the value.
    open spec fn reported_settings(&self, configured: bool) -> Result<
        Seq<(Seq<char>, Seq<char>)>,
        Self::Error,
    > {
        vstd::pervasive::arbitrary::<
            spec_fn(Self, bool) -> Result<Seq<(Seq<char>, Seq<char>)>, Self::Error>,
        >()(*self, configured)
    }

    /// What `diagnostic_data` reports: some function of the value.
    open spec fn gathered(&self) -> Result<Option<Self::Diagnostic>, Self::Error> {
        vstd::pervasive::arbitrary::<
            spec_fn(Self) -> Result<Option<Self::Diagnostic>, Self::Error>,
        >()(*self)
    }

    /// The short name by which the planner is known.
    fn typetag_name(&self) -> (name: String)
        ensures
            name@ == self.typetag(),
    ;

    /// The data for the report on how a run ended, if any is gathered.
    fn diagnostic_data(&self) -> (result: Result<Option<Self::Diagnostic>, Self::Error>)
        ensures
            result == self.gathered(),
    ;

    /// The actions to carry out, in order.
    fn plan(&self) -> (result: Result<Vec<StatefulAction<Action<S>>>, Self::Error>)
        ensures
            match result {
                Ok(actions) => self.planned() == Ok::<
                    Seq<StatefulAction<Action<S>>>,
                    Self::Error,
                >(actions@),
                Err(error) => self.planned() == Err::<Seq<StatefulAction<Action<S>>>, Self::Error>(
                    error,
                ),
            },
    ;

    /// Every setting the planner knows, defaults included, as pairs of key
    /// and value.
    fn settings(&self) -> (result: Result<Vec<(String, String)>, Self::Error>)
        ensures
            match result {
                Ok(list) => self.reported_settings(false) == Ok::<
                    Seq<(Seq<char>, Seq<char>)>,
                    Self::Error,
                >(setting_views(list@)),
                Err(error) => self.reported_settings(false) == Err::<
                    Seq<(Seq<char>, Seq<char>)>,
                    Self::Error,
                >(error),
            },
    ;

    /// The settings that differ from their defaults, as pairs of key and
    /// value.
    fn configured_settings(&self) -> (result: Result<Vec<(String, String)>, Self::Error>)
        ensures
            match result {
                Ok(list) => self.reported_settings(true) == Ok::<
                    Seq<(Seq<char>, Seq<char>)>,
                    Self::Error,
                >(setting_views(list@)),
                Err(error) => self.reported_settings(true) == Err::<
                    Seq<(Seq<char>, Seq<char>)>,
                    Self::Error,
                >(error),
            },
    ;
}

} // verus!
