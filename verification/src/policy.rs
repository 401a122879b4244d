//! Policy: the pure mapping from (action, location) to a throttle decision.
//!
//! Locations in the unthrottled set are exempt whatever the action; for all
//! other locations, `Play` and `Resume` enable throttling and `Pause` and
//! `Stop` disable it.

use vstd::prelude::*;
use vstd::string::StringExecFns;

use crate::plex::Action;
use crate::plex::LocationModel;
use crate::plex::StreamLocation;
use crate::plex::spec_display_location;

verus! {

/// The decision for one event: skip with a human-readable reason, or change
/// the backend throttle one way or the other.
#[derive(Debug)]
pub enum ThrottleDecision {
    Skip(String),
    Enable,
    Disable,
}

/// Mathematical model of a `ThrottleDecision`.
pub enum DecisionModel {
    Skip(Seq<char>),
    Enable,
    Disable,
}

impl View for ThrottleDecision {
    type V = DecisionModel;

    open spec fn view(&self) -> DecisionModel {
        match self {
            ThrottleDecision::Skip(m) => DecisionModel::Skip(m@),
            ThrottleDecision::Enable => DecisionModel::Enable,
            ThrottleDecision::Disable => DecisionModel::Disable,
        }
    }
}

/// The allow-list of locations that are never throttled.
pub open spec fn spec_unthrottled_locations() -> Seq<LocationModel> {
    seq![LocationModel::Lan]
}

/// Membership in the unthrottled set.
pub open spec fn in_unthrottled_set(l: LocationModel) -> bool {
    spec_unthrottled_locations().contains(l)
}

/// The locations that are never throttled. Extending the policy means
/// extending this list; the membership check below walks whatever it holds.
pub fn unthrottled_stream_locations() -> (v: Vec<StreamLocation>)
    ensures
        v@.map_values(|x: StreamLocation| x@) =~= spec_unthrottled_locations(),
{
    let mut v: Vec<StreamLocation> = Vec::new();
    v.push(StreamLocation::Lan);
    v
}

/// Whether a location is exempt from throttling, by value equality against
/// the allow-list.
pub fn is_unthrottled(location: &StreamLocation) -> (r: bool)
    ensures
        r == in_unthrottled_set(location@),
{
    let locations = unthrottled_stream_locations();
    let ghost models = locations@.map_values(|x: StreamLocation| x@);
    let mut i: usize = 0;
    while i < locations.len()
        invariant
            models =~= spec_unthrottled_locations(),
            models == locations@.map_values(|x: StreamLocation| x@),
            0 <= i <= locations.len(),
            forall|j: int| 0 <= j < i ==> models[j] != location@,
        decreases locations.len() - i,
    {
        if *location == locations[i] {
            assert(models[i as int] == location@);
            return true;
        }
        i = i + 1;
    }
    false
}

/// The reason given when an event is skipped because of its location.
pub open spec fn spec_skip_message(l: LocationModel) -> Seq<char> {
    "Stream location '"@ + spec_display_location(l) + "' does not require throttling."@
}

/// What `decide` returns: `Skip` for every location in the unthrottled set,
/// else `Enable` for `Play` and `Resume` and `Disable` for `Pause` and
/// `Stop`.
pub open spec fn spec_decide(action: Action, l: LocationModel) -> DecisionModel {
    if in_unthrottled_set(l) {
        DecisionModel::Skip(spec_skip_message(l))
    } else if action == Action::Play || action == Action::Resume {
        DecisionModel::Enable
    } else {
        DecisionModel::Disable
    }
}

/// Decide what one event means for the backend throttle. Total and pure.
pub fn decide(action: &Action, location: &StreamLocation) -> (d: ThrottleDecision)
    ensures
        d@ == spec_decide(*action, location@),
{
    if is_unthrottled(location) {
        let mut m = "Stream location '".to_owned();
        let shown = location.display_string();
        m.append(shown.as_str());
        m.append("' does not require throttling.");
        proof {
            assert(m@ =~= spec_skip_message(location@));
        }
        ThrottleDecision::Skip(m)
    } else {
        match action {
            Action::Play | Action::Resume => ThrottleDecision::Enable,
            Action::Pause | Action::Stop => ThrottleDecision::Disable,
        }
    }
}

/// For every location in the unthrottled set the decision is `Skip`, with
/// the reason naming the location, whatever the action.
pub proof fn lemma_unthrottled_always_skips(action: Action, l: LocationModel)
    requires
        in_unthrottled_set(l),
    ensures
        spec_decide(action, l) == DecisionModel::Skip(spec_skip_message(l)),
{
}

/// For every location outside the unthrottled set, `Play` and `Resume`
/// decide `Enable` and `Pause` and `Stop` decide `Disable`.
pub proof fn lemma_throttled_decision(action: Action, l: LocationModel)
    requires
        !in_unthrottled_set(l),
    ensures
        (action == Action::Play || action == Action::Resume) ==> spec_decide(action, l)
            == DecisionModel::Enable,
        (action == Action::Pause || action == Action::Stop) ==> spec_decide(action, l)
            == DecisionModel::Disable,
{
}

} // verus!
