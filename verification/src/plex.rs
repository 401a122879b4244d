//! Event model: the two enumerated fields of an incoming playback event.
//!
//! `Action` is a closed set: an unrecognized token is a parse failure.
//! `StreamLocation` is an open set: an unrecognized token is preserved
//! verbatim as `Other`. Both parsers match their known tokens without
//! regard to ASCII case.

use vstd::prelude::*;
use vstd::string::StrSliceExecFns;
use vstd::string::StringExecFns;

verus! {

/// Code point of a character with ASCII upper-case letters folded to lower case.
pub open spec fn lower_code(c: char) -> int {
    if 65 <= c as int && c as int <= 90 {
        c as int + 32
    } else {
        c as int
    }
}

/// Two character sequences are equal up to ASCII case.
pub open spec fn eq_ignore_ascii_case(a: Seq<char>, b: Seq<char>) -> bool {
    a.len() == b.len() && forall|i: int| 0 <= i < a.len() ==> lower_code(a[i]) == lower_code(b[i])
}

fn char_lower_code(c: char) -> (r: u32)
    ensures
        r == lower_code(c),
{
    let u = c as u32;
    if 65 <= u && u <= 90 {
        u + 32
    } else {
        u
    }
}

/// Compare two string slices for equality up to ASCII case.
pub fn str_eq_ignore_ascii_case(a: &str, b: &str) -> (r: bool)
    ensures
        r == eq_ignore_ascii_case(a@, b@),
{
    let alen: usize = a.unicode_len();
    let blen: usize = b.unicode_len();
    if alen != blen {
        return false;
    }
    let mut i: usize = 0;
    while i < alen
        invariant
            alen == a@.len(),
            blen == b@.len(),
            alen == blen,
            0 <= i <= alen,
            forall|j: int| 0 <= j < i ==> lower_code(a@[j]) == lower_code(b@[j]),
        decreases alen - i,
    {
        let ca = a.get_char(i);
        let cb = b.get_char(i);
        if char_lower_code(ca) != char_lower_code(cb) {
            assert(lower_code(a@[i as int]) != lower_code(b@[i as int]));
            return false;
        }
        i = i + 1;
    }
    true
}

/// One playback action reported by the media server. Closed set: any token
/// outside the four below fails to parse.
#[derive(Clone, Copy, Debug, PartialEq, Eq, Structural)]
pub enum Action {
    Play,
    Pause,
    Resume,
    Stop,
}

/// What `Action::parse` returns for a given token.
pub open spec fn spec_parse_action(s: Seq<char>) -> Option<Action> {
    if eq_ignore_ascii_case(s, "play"@) {
        Some(Action::Play)
    } else if eq_ignore_ascii_case(s, "pause"@) {
        Some(Action::Pause)
    } else if eq_ignore_ascii_case(s, "resume"@) {
        Some(Action::Resume)
    } else if eq_ignore_ascii_case(s, "stop"@) {
        Some(Action::Stop)
    } else {
        None
    }
}

impl Action {
    /// Parse an action token, ignoring ASCII case. Returns `None` exactly on
    /// tokens outside the closed set.
    pub fn parse(token: &str) -> (r: Option<Action>)
        ensures
            r == spec_parse_action(token@),
    {
        if str_eq_ignore_ascii_case(token, "play") {
            Some(Action::Play)
        } else if str_eq_ignore_ascii_case(token, "pause") {
            Some(Action::Pause)
        } else if str_eq_ignore_ascii_case(token, "resume") {
            Some(Action::Resume)
        } else if str_eq_ignore_ascii_case(token, "stop") {
            Some(Action::Stop)
        } else {
            None
        }
    }
}

/// The network location of the client that triggered the event. Open set:
/// `Other` preserves an unrecognized token verbatim.
#[derive(Debug)]
pub enum StreamLocation {
    Lan,
    Wan,
    Cellular,
    Other(String),
}

/// Mathematical model of a `StreamLocation`: the raw token of `Other`
/// becomes a character sequence.
pub enum LocationModel {
    Lan,
    Wan,
    Cellular,
    Other(Seq<char>),
}

impl View for StreamLocation {
    type V = LocationModel;

    open spec fn view(&self) -> LocationModel {
        match self {
            StreamLocation::Lan => LocationModel::Lan,
            StreamLocation::Wan => LocationModel::Wan,
            StreamLocation::Cellular => LocationModel::Cellular,
            StreamLocation::Other(s) => LocationModel::Other(s@),
        }
    }
}

impl PartialEq for StreamLocation {
    /// Value equality: same variant, and for `Other` the same raw token.
    fn eq(&self, other: &StreamLocation) -> (r: bool) {
        match (self, other) {
            (StreamLocation::Lan, StreamLocation::Lan) => true,
            (StreamLocation::Wan, StreamLocation::Wan) => true,
            (StreamLocation::Cellular, StreamLocation::Cellular) => true,
            (StreamLocation::Other(a), StreamLocation::Other(b)) => a.eq(b),
            _ => false,
        }
    }
}

impl vstd::std_specs::cmp::PartialEqSpecImpl for StreamLocation {
    open spec fn obeys_eq_spec() -> bool {
        true
    }

    open spec fn eq_spec(&self, other: &StreamLocation) -> bool {
        self@ == other@
    }
}

/// What `StreamLocation::parse` returns for a given token. Total: every
/// token outside the three known names becomes `Other`.
pub open spec fn spec_parse_location(s: Seq<char>) -> LocationModel {
    if eq_ignore_ascii_case(s, "lan"@) {
        LocationModel::Lan
    } else if eq_ignore_ascii_case(s, "wan"@) {
        LocationModel::Wan
    } else if eq_ignore_ascii_case(s, "cellular"@) {
        LocationModel::Cellular
    } else {
        LocationModel::Other(s)
    }
}

/// The display form of a location: the capitalized variant name for the
/// known locations, the raw token for `Other`.
pub open spec fn spec_display_location(l: LocationModel) -> Seq<char> {
    match l {
        LocationModel::Lan => "Lan"@,
        LocationModel::Wan => "Wan"@,
        LocationModel::Cellular => "Cellular"@,
        LocationModel::Other(s) => s,
    }
}

impl StreamLocation {
    /// Parse a location token, ignoring ASCII case. Never fails: an
    /// unrecognized token is kept verbatim as `Other`.
    pub fn parse(token: &str) -> (loc: StreamLocation)
        ensures
            loc@ == spec_parse_location(token@),
    {
        if str_eq_ignore_ascii_case(token, "lan") {
            StreamLocation::Lan
        } else if str_eq_ignore_ascii_case(token, "wan") {
            StreamLocation::Wan
        } else if str_eq_ignore_ascii_case(token, "cellular") {
            StreamLocation::Cellular
        } else {
            StreamLocation::Other(token.to_owned())
        }
    }

    /// Render the location for messages: variant name, or the raw token of
    /// `Other`.
    pub fn display_string(&self) -> (r: String)
        ensures
            r@ == spec_display_location(self@),
    {
        match self {
            StreamLocation::Lan => "Lan".to_owned(),
            StreamLocation::Wan => "Wan".to_owned(),
            StreamLocation::Cellular => "Cellular".to_owned(),
            StreamLocation::Other(s) => s.clone(),
        }
    }
}

/// An `Other` location displays exactly as the token it was parsed from,
/// for every token that matches none of the three known names.
pub proof fn lemma_other_location_round_trip(token: Seq<char>)
    requires
        !eq_ignore_ascii_case(token, "lan"@),
        !eq_ignore_ascii_case(token, "wan"@),
        !eq_ignore_ascii_case(token, "cellular"@),
    ensures
        spec_parse_location(token) == LocationModel::Other(token),
        spec_display_location(spec_parse_location(token)) == token,
{
}

/// A validated incoming event: both fields parsed.
#[derive(Debug)]
pub struct Event {
    pub action: Action,
    pub stream_location: StreamLocation,
}

/// Mathematical model of an `Event`.
pub struct EventModel {
    pub action: Action,
    pub stream_location: LocationModel,
}

impl View for Event {
    type V = EventModel;

    open spec fn view(&self) -> EventModel {
        EventModel { action: self.action, stream_location: self.stream_location@ }
    }
}

/// Why an incoming payload failed validation: a missing field, or an action
/// token outside the closed set.
#[derive(Debug)]
pub enum MalformedEvent {
    MissingAction,
    MissingStreamLocation,
    UnknownAction(String),
}

/// Mathematical model of a `MalformedEvent`.
pub enum MalformedEventModel {
    MissingAction,
    MissingStreamLocation,
    UnknownAction(Seq<char>),
}

impl View for MalformedEvent {
    type V = MalformedEventModel;

    open spec fn view(&self) -> MalformedEventModel {
        match self {
            MalformedEvent::MissingAction => MalformedEventModel::MissingAction,
            MalformedEvent::MissingStreamLocation => MalformedEventModel::MissingStreamLocation,
            MalformedEvent::UnknownAction(t) => MalformedEventModel::UnknownAction(t@),
        }
    }
}

/// The diagnostic message of a validation failure: it names the missing
/// field, or names the offending token and lists the four valid ones.
pub open spec fn spec_error_message(e: MalformedEventModel) -> Seq<char> {
    match e {
        MalformedEventModel::MissingAction => "missing field `action`"@,
        MalformedEventModel::MissingStreamLocation => "missing field `stream_location`"@,
        MalformedEventModel::UnknownAction(t) => "unknown action `"@ + t
            + "`, expected one of `play`, `pause`, `resume`, `stop`"@,
    }
}

impl MalformedEvent {
    /// The human-readable message for the response envelope.
    pub fn message(&self) -> (r: String)
        ensures
            r@ == spec_error_message(self@),
    {
        match self {
            MalformedEvent::MissingAction => "missing field `action`".to_owned(),
            MalformedEvent::MissingStreamLocation => "missing field `stream_location`".to_owned(),
            MalformedEvent::UnknownAction(t) => {
                let mut m = "unknown action `".to_owned();
                m.append(t.as_str());
                m.append("`, expected one of `play`, `pause`, `resume`, `stop`");
                proof {
                    assert(m@ =~= spec_error_message(self@));
                }
                m
            },
        }
    }
}

/// A view of an optional field of the incoming mapping.
pub open spec fn opt_str_view(o: Option<&str>) -> Option<Seq<char>> {
    match o {
        Some(s) => Some(s@),
        None => None,
    }
}

/// What `parse_event` returns: the first violation found (absent `action`,
/// then absent `stream_location`, then an unrecognized action token), or the
/// validated event.
pub open spec fn spec_parse_event(a: Option<Seq<char>>, l: Option<Seq<char>>) -> Result<
    EventModel,
    MalformedEventModel,
> {
    match (a, l) {
        (None, _) => Err(MalformedEventModel::MissingAction),
        (Some(_), None) => Err(MalformedEventModel::MissingStreamLocation),
        (Some(at), Some(lt)) => match spec_parse_action(at) {
            None => Err(MalformedEventModel::UnknownAction(at)),
            Some(act) => Ok(
                EventModel { action: act, stream_location: spec_parse_location(lt) },
            ),
        },
    }
}

/// Validate the two fields of an incoming event mapping. `None` stands for
/// an absent field. Succeeds if and only if both fields are present and the
/// action token is one of the four known ones.
pub fn parse_event(action: Option<&str>, stream_location: Option<&str>) -> (r: Result<
    Event,
    MalformedEvent,
>)
    ensures
        r matches Ok(ev) ==> spec_parse_event(opt_str_view(action), opt_str_view(stream_location))
            == Ok::<EventModel, MalformedEventModel>(ev@),
        r matches Err(e) ==> spec_parse_event(opt_str_view(action), opt_str_view(stream_location))
            == Err::<EventModel, MalformedEventModel>(e@),
{
    let action_token = match action {
        None => {
            return Err(MalformedEvent::MissingAction);
        },
        Some(t) => t,
    };
    let location_token = match stream_location {
        None => {
            return Err(MalformedEvent::MissingStreamLocation);
        },
        Some(t) => t,
    };
    match Action::parse(action_token) {
        None => Err(MalformedEvent::UnknownAction(action_token.to_owned())),
        Some(act) => Ok(
            Event { action: act, stream_location: StreamLocation::parse(location_token) },
        ),
    }
}

} // verus!
