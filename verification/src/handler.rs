//! Request handler: one transition per inbound event.
//!
//! Parse the payload, compute the decision, dispatch at most one backend
//! mutation, and render every outcome as a uniform response envelope:
//! `{"status": ...}` on success, `{"error": ...}` on failure.

use vstd::prelude::*;
use vstd::string::StringExecFns;

use crate::plex::Action;
use crate::plex::EventModel;
use crate::plex::MalformedEventModel;
use crate::plex::opt_str_view;
use crate::plex::parse_event;
use crate::plex::spec_error_message;
use crate::plex::spec_parse_action;
use crate::plex::spec_parse_event;
use crate::plex::spec_parse_location;
use crate::policy::DecisionModel;
use crate::policy::ThrottleDecision;
use crate::policy::decide;
use crate::policy::in_unthrottled_set;
use crate::policy::spec_decide;
use crate::policy::spec_skip_message;
use crate::transmission::BackendError;
use crate::transmission::TransmissionClient;
use crate::transmission::context_prefix;
use crate::transmission::set_transmission_alt_speed;

verus! {

/// The body of a response envelope: a `status` field on success, an `error`
/// field on failure.
#[derive(Debug)]
pub enum ResponseBody {
    Status(String),
    Error(String),
}

/// Mathematical model of a `ResponseBody`.
pub enum BodyModel {
    Status(Seq<char>),
    Error(Seq<char>),
}

impl View for ResponseBody {
    type V = BodyModel;

    open spec fn view(&self) -> BodyModel {
        match self {
            ResponseBody::Status(m) => BodyModel::Status(m@),
            ResponseBody::Error(m) => BodyModel::Error(m@),
        }
    }
}

/// One terminal response of the handler: an HTTP status code and the
/// envelope body.
#[derive(Debug)]
pub struct WebhookResponse {
    pub status: u16,
    pub body: ResponseBody,
}

/// Mathematical model of a `WebhookResponse`.
pub struct ReplyModel {
    pub status: u16,
    pub body: BodyModel,
}

impl View for WebhookResponse {
    type V = ReplyModel;

    open spec fn view(&self) -> ReplyModel {
        ReplyModel { status: self.status, body: self.body@ }
    }
}

/// What the handler does with a validated, non-exempt event: call the
/// backend, enabling (`true`) or disabling (`false`) throttling. Everything
/// else is already a terminal reply.
#[derive(Debug)]
pub enum HandlerStep {
    Reply(WebhookResponse),
    CallBackend(bool),
}

/// Mathematical model of a `HandlerStep`.
pub enum StepModel {
    Reply(ReplyModel),
    CallBackend(bool),
}

impl View for HandlerStep {
    type V = StepModel;

    open spec fn view(&self) -> StepModel {
        match self {
            HandlerStep::Reply(r) => StepModel::Reply(r@),
            HandlerStep::CallBackend(e) => StepModel::CallBackend(*e),
        }
    }
}

/// The liveness reply.
pub open spec fn spec_health_reply() -> ReplyModel {
    ReplyModel { status: 200, body: BodyModel::Status("ok"@) }
}

/// The client-error reply for a malformed payload.
pub open spec fn spec_client_error(e: MalformedEventModel) -> ReplyModel {
    ReplyModel { status: 422, body: BodyModel::Error(spec_error_message(e)) }
}

/// What the handler decides before any backend call: the terminal reply for
/// a malformed payload (422) or an exempt location (200), else which
/// backend mutation to dispatch.
pub open spec fn spec_route(a: Option<Seq<char>>, l: Option<Seq<char>>) -> StepModel {
    match spec_parse_event(a, l) {
        Err(e) => StepModel::Reply(spec_client_error(e)),
        Ok(ev) => match spec_decide(ev.action, ev.stream_location) {
            DecisionModel::Skip(m) => StepModel::Reply(
                ReplyModel { status: 200, body: BodyModel::Status(m) },
            ),
            DecisionModel::Enable => StepModel::CallBackend(true),
            DecisionModel::Disable => StepModel::CallBackend(false),
        },
    }
}

/// The terminal reply after a dispatched backend call: 200 with the
/// matching status line on success, 500 with the wrapped failure text on
/// failure.
pub open spec fn spec_render(enable_alt_speed: bool, failure: Option<Seq<char>>) -> ReplyModel {
    match failure {
        None => ReplyModel {
            status: 200,
            body: BodyModel::Status(
                if enable_alt_speed {
                    "Throttling enabled"@
                } else {
                    "Throttling disabled"@
                },
            ),
        },
        Some(cause) => ReplyModel {
            status: 500,
            body: BodyModel::Error("Something went wrong: "@ + cause),
        },
    }
}

/// The liveness probe's reply: 200 with `{"status": "ok"}` and no backend
/// interaction.
pub fn health_check() -> (r: WebhookResponse)
    ensures
        r@ == spec_health_reply(),
{
    WebhookResponse { status: 200, body: ResponseBody::Status("ok".to_owned()) }
}

/// Validate one event and decide what to do, without touching the backend.
pub fn handle_event(action: Option<&str>, stream_location: Option<&str>) -> (step: HandlerStep)
    ensures
        step@ == spec_route(opt_str_view(action), opt_str_view(stream_location)),
{
    match parse_event(action, stream_location) {
        Err(e) => {
            let message = e.message();
            HandlerStep::Reply(
                WebhookResponse { status: 422, body: ResponseBody::Error(message) },
            )
        },
        Ok(ev) => match decide(&ev.action, &ev.stream_location) {
            ThrottleDecision::Skip(m) => HandlerStep::Reply(
                WebhookResponse { status: 200, body: ResponseBody::Status(m) },
            ),
            ThrottleDecision::Enable => HandlerStep::CallBackend(true),
            ThrottleDecision::Disable => HandlerStep::CallBackend(false),
        },
    }
}

/// Render the outcome of the one dispatched backend call.
pub fn render_backend_outcome(enable_alt_speed: bool, outcome: Result<(), BackendError>) -> (r:
    WebhookResponse)
    ensures
        outcome matches Ok(()) ==> r@ == spec_render(enable_alt_speed, None),
        outcome matches Err(e) ==> r@ == spec_render(enable_alt_speed, Some(e.message@)),
{
    match outcome {
        Ok(()) => {
            let message = if enable_alt_speed {
                "Throttling enabled".to_owned()
            } else {
                "Throttling disabled".to_owned()
            };
            WebhookResponse { status: 200, body: ResponseBody::Status(message) }
        },
        Err(e) => {
            let mut m = "Something went wrong: ".to_owned();
            m.append(e.message.as_str());
            proof {
                assert(m@ =~= "Something went wrong: "@ + e.message@);
            }
            WebhookResponse { status: 500, body: ResponseBody::Error(m) }
        },
    }
}

/// The reply owed for a dispatched backend attempt with the given recorded
/// outcome: the success line when it succeeded, else the recorded cause
/// wrapped with the operation's context and the generic server-error text.
pub open spec fn spec_dispatch_reply(enable_alt_speed: bool, recorded: Option<Seq<char>>) -> ReplyModel {
    match recorded {
        None => spec_render(enable_alt_speed, None),
        Some(cause) => spec_render(enable_alt_speed, Some(context_prefix(enable_alt_speed) + cause)),
    }
}

/// One backend attempt was recorded and rendered: the history grew by one
/// entry for the dispatched flag, and the reply renders that entry's
/// recorded outcome.
pub open spec fn spec_dispatched(
    pre: Seq<(bool, Option<Seq<char>>)>,
    post: Seq<(bool, Option<Seq<char>>)>,
    enable_alt_speed: bool,
    reply: ReplyModel,
) -> bool {
    exists|recorded: Option<Seq<char>>|
        post == pre.push((enable_alt_speed, recorded)) && reply == spec_dispatch_reply(
            enable_alt_speed,
            recorded,
        )
}

/// Handle one inbound event end to end against an exclusively held backend
/// client: a malformed payload or an exempt location replies without any
/// backend attempt; otherwise exactly one mutation attempt is recorded, and
/// the reply renders that attempt's recorded outcome — the success line
/// when it succeeded, else the wrapped recorded cause.
pub fn webhook<C: TransmissionClient>(
    transmission_client: &mut C,
    action: Option<&str>,
    stream_location: Option<&str>,
) -> (r: WebhookResponse)
    ensures
        spec_route(opt_str_view(action), opt_str_view(stream_location)) matches StepModel::Reply(m)
            ==> (r@ == m && final(transmission_client).history() == old(
            transmission_client,
        ).history()),
        spec_route(opt_str_view(action), opt_str_view(stream_location))
            matches StepModel::CallBackend(en) ==> spec_dispatched(
            old(transmission_client).history(),
            final(transmission_client).history(),
            en,
            r@,
        ),
{
    match handle_event(action, stream_location) {
        HandlerStep::Reply(r) => r,
        HandlerStep::CallBackend(en) => {
            let outcome = set_transmission_alt_speed(transmission_client, en);
            let ghost recorded: Option<Seq<char>> = match outcome {
                Ok(_) => None,
                Err(ref e) => Some(
                    choose|cause: Seq<char>|
                        transmission_client.history() == old(
                            transmission_client,
                        ).history().push((en, Some(cause))) && e.message@ == context_prefix(en)
                            + cause,
                ),
            };
            proof {
                assert(transmission_client.history() == old(transmission_client).history().push(
                    (en, recorded),
                ));
            }
            let reply = render_backend_outcome(en, outcome);
            proof {
                assert(reply@ == spec_dispatch_reply(en, recorded));
                assert(spec_dispatched(
                    old(transmission_client).history(),
                    transmission_client.history(),
                    en,
                    reply@,
                ));
            }
            reply
        },
    }
}

/// For every well-formed payload whose location is in the unthrottled set,
/// the handler replies 200 with the skip reason before any dispatch — so,
/// by `webhook`'s contract, no backend call is attempted, whatever the
/// action.
pub proof fn lemma_unthrottled_no_dispatch(action_token: Seq<char>, location_token: Seq<char>)
    requires
        spec_parse_action(action_token) is Some,
        in_unthrottled_set(spec_parse_location(location_token)),
    ensures
        spec_route(Some(action_token), Some(location_token)) == StepModel::Reply(
            ReplyModel {
                status: 200,
                body: BodyModel::Status(spec_skip_message(spec_parse_location(location_token))),
            },
        ),
{
}

/// For every well-formed payload whose location is outside the unthrottled
/// set, the handler dispatches exactly one backend call: an enabling one
/// for `Play` and `Resume`, a disabling one for `Pause` and `Stop`.
pub proof fn lemma_dispatch_matches_action(action_token: Seq<char>, location_token: Seq<char>)
    requires
        spec_parse_action(action_token) is Some,
        !in_unthrottled_set(spec_parse_location(location_token)),
    ensures
        spec_route(Some(action_token), Some(location_token)) == StepModel::CallBackend(
            (spec_parse_action(action_token) == Some(Action::Play) || spec_parse_action(
                action_token,
            ) == Some(Action::Resume)),
        ),
{
}

} // verus!
