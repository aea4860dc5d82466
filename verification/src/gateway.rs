//! Gateway orchestration: per-request decisions from authorization
//! through invocation to the HTTP answer, and the fixed response
//! vocabulary. The caller performs the one external invocation and
//! hands its raw outcome back for classification.

use vstd::prelude::*;
use crate::action::{parse_control_action, spec_parse_control_action, PowerAction};
use crate::classify::{PowerError, PowerStatus};
use crate::config::{spec_resolve, Config, Endpoint, ResolveError};

verus! {

/// The abstract content of one HTTP answer: status code, body text,
/// and whether the body is a JSON document.
#[verifier::ext_equal]
pub struct ResponseModel {
    pub status: int,
    pub body: Seq<char>,
    pub is_json: bool,
}

/// One HTTP answer of the gateway, ready for the transport layer.
pub struct HttpResponse {
    pub status: u16,
    pub body: String,
    pub body_is_json: bool,
}

impl View for HttpResponse {
    type V = ResponseModel;

    open spec fn view(&self) -> ResponseModel {
        ResponseModel { status: self.status as int, body: self.body@, is_json: self.body_is_json }
    }
}

/// The caller-facing name of each power state.
pub open spec fn spec_status_name(s: PowerStatus) -> Seq<char> {
    match s {
        PowerStatus::On => "on"@,
        PowerStatus::Off => "off"@,
        PowerStatus::Reset => "reset"@,
        PowerStatus::Cycle => "cycle"@,
    }
}

/// The fixed one-line message for each error kind. Nothing of the
/// tool's raw output is ever echoed to the caller.
pub open spec fn spec_error_message(e: PowerError) -> Seq<char> {
    match e {
        PowerError::CommandNotSupported => "Command not supported in present state"@,
        PowerError::InvalidState => "Invalid system state for this command"@,
        PowerError::AuthenticationFailed => "Authentication failed"@,
        PowerError::ConnectionFailed => "Unable to connect to IPMI endpoint"@,
        PowerError::UnexpectedOutput => "Unexpected response from IPMI endpoint"@,
        PowerError::UnknownError => "An unknown error occurred"@,
    }
}

/// The JSON body of a successful status query.
pub open spec fn spec_status_body(s: PowerStatus) -> Seq<char> {
    "{\"status\":\""@ + spec_status_name(s) + "\"}"@
}

/// The JSON body of a classification failure.
pub open spec fn spec_error_body(e: PowerError) -> Seq<char> {
    "{\"error\":\""@ + spec_error_message(e) + "\"}"@
}

/// The answer to a rejected bearer token.
pub open spec fn spec_unauthorized_response() -> ResponseModel {
    ResponseModel { status: 401, body: "Invalid token"@, is_json: false }
}

/// The answer to an endpoint name absent from the caller's group.
pub open spec fn spec_not_found_response(name: Seq<char>) -> ResponseModel {
    ResponseModel { status: 404, body: "Endpoint '"@ + name + "' not found"@, is_json: false }
}

/// The answer to a control action outside the closed set.
pub open spec fn spec_bad_request_response() -> ResponseModel {
    ResponseModel { status: 400, body: "Invalid action"@, is_json: false }
}

/// The answer to a classification failure.
pub open spec fn spec_error_response(e: PowerError) -> ResponseModel {
    ResponseModel { status: 500, body: spec_error_body(e), is_json: true }
}

/// The answer carried by a classified invocation outcome: a status
/// query reports the state, a control request acknowledges, any typed
/// error maps to its fixed 500 answer.
pub open spec fn spec_handle_result(
    result: Result<PowerStatus, PowerError>,
    context: ActionContext,
) -> ResponseModel {
    match result {
        Ok(status) => match context {
            ActionContext::Status => ResponseModel {
                status: 200,
                body: spec_status_body(status),
                is_json: true,
            },
            ActionContext::Control => ResponseModel { status: 200, body: "ok"@, is_json: false },
        },
        Err(e) => spec_error_response(e),
    }
}

/// Whether a classified outcome answers a status query or a control
/// request.
#[derive(Clone, Copy, Debug, PartialEq, Eq, Structural)]
pub enum ActionContext {
    Status,
    Control,
}

/// The caller-facing name of `status`.
pub fn status_name(status: PowerStatus) -> (r: &'static str)
    ensures
        r@ == spec_status_name(status),
{
    match status {
        PowerStatus::On => "on",
        PowerStatus::Off => "off",
        PowerStatus::Reset => "reset",
        PowerStatus::Cycle => "cycle",
    }
}

/// The fixed one-line message for `err`.
pub fn error_message(err: PowerError) -> (r: &'static str)
    ensures
        r@ == spec_error_message(err),
{
    match err {
        PowerError::CommandNotSupported => "Command not supported in present state",
        PowerError::InvalidState => "Invalid system state for this command",
        PowerError::AuthenticationFailed => "Authentication failed",
        PowerError::ConnectionFailed => "Unable to connect to IPMI endpoint",
        PowerError::UnexpectedOutput => "Unexpected response from IPMI endpoint",
        PowerError::UnknownError => "An unknown error occurred",
    }
}

/// Map a typed power error to its HTTP answer: always 500, with the
/// fixed message for the kind in a small JSON body.
pub fn map_power_error_to_response(err: PowerError) -> (r: HttpResponse)
    ensures
        r@ == spec_error_response(err),
{
    let mut body = String::from_str("{\"error\":\"");
    body.append(error_message(err));
    body.append("\"}");
    HttpResponse { status: 500, body, body_is_json: true }
}

/// Map a classified invocation outcome to its HTTP answer.
pub fn handle_power_action_result(
    result: Result<PowerStatus, PowerError>,
    context: ActionContext,
) -> (r: HttpResponse)
    ensures
        r@ == spec_handle_result(result, context),
{
    match result {
        Ok(status) => match context {
            ActionContext::Status => {
                let mut body = String::from_str("{\"status\":\"");
                body.append(status_name(status));
                body.append("\"}");
                HttpResponse { status: 200, body, body_is_json: true }
            },
            ActionContext::Control => HttpResponse {
                status: 200,
                body: String::from_str("ok"),
                body_is_json: false,
            },
        },
        Err(e) => map_power_error_to_response(e),
    }
}

/// Resolve the bearer token and endpoint name for one request, or
/// produce the early-exit HTTP answer: 401 for an unknown token, 404
/// with the requested name for an unknown endpoint.
pub fn get_endpoint_from_token<'a>(config: &'a Config, token: &str, endpoint_id: &str) -> (r:
    Result<&'a Endpoint, HttpResponse>)
    ensures
        match r {
            Ok(e) => spec_resolve(*config, token@, endpoint_id@) == Ok::<Endpoint, ResolveError>(
                *e,
            ),
            Err(resp) => match spec_resolve(*config, token@, endpoint_id@) {
                Ok(_) => false,
                Err(ResolveError::Unauthorized) => resp@ == spec_unauthorized_response(),
                Err(ResolveError::NotFound) => resp@ == spec_not_found_response(endpoint_id@),
            },
        },
{
    match config.resolve(token, endpoint_id) {
        Ok(e) => Ok(e),
        Err(ResolveError::Unauthorized) => Err(
            HttpResponse {
                status: 401,
                body: String::from_str("Invalid token"),
                body_is_json: false,
            },
        ),
        Err(ResolveError::NotFound) => {
            let mut body = String::from_str("Endpoint '");
            body.append(endpoint_id);
            body.append("' not found");
            Err(HttpResponse { status: 404, body, body_is_json: false })
        },
    }
}

/// What the gateway decided for one request before any invocation:
/// either answer at once, or invoke the tool against an endpoint.
pub enum Prepared<'a> {
    Reply(HttpResponse),
    Invoke(&'a Endpoint, PowerAction),
}

/// The abstract content of a `Prepared` decision.
#[verifier::ext_equal]
pub enum PreparedModel {
    Reply(ResponseModel),
    Invoke(Endpoint, PowerAction),
}

impl<'a> View for Prepared<'a> {
    type V = PreparedModel;

    open spec fn view(&self) -> PreparedModel {
        match *self {
            Prepared::Reply(resp) => PreparedModel::Reply(resp@),
            Prepared::Invoke(e, a) => PreparedModel::Invoke(*e, a),
        }
    }
}

/// The decision for a status query: resolve, then invoke `Status`.
pub open spec fn spec_prepare_status(c: Config, token: Seq<char>, id: Seq<char>) -> PreparedModel {
    match spec_resolve(c, token, id) {
        Ok(e) => PreparedModel::Invoke(e, PowerAction::Status),
        Err(ResolveError::Unauthorized) => PreparedModel::Reply(spec_unauthorized_response()),
        Err(ResolveError::NotFound) => PreparedModel::Reply(spec_not_found_response(id)),
    }
}

/// The decision for a control request: resolve, then validate the
/// action text, then invoke. An action outside the closed set answers
/// 400 and is never invoked.
pub open spec fn spec_prepare_control(
    c: Config,
    token: Seq<char>,
    id: Seq<char>,
    action: Seq<char>,
) -> PreparedModel {
    match spec_resolve(c, token, id) {
        Err(ResolveError::Unauthorized) => PreparedModel::Reply(spec_unauthorized_response()),
        Err(ResolveError::NotFound) => PreparedModel::Reply(spec_not_found_response(id)),
        Ok(e) => match spec_parse_control_action(action) {
            None => PreparedModel::Reply(spec_bad_request_response()),
            Some(a) => PreparedModel::Invoke(e, a),
        },
    }
}

/// Decide a status query: authorize and name the endpoint, or answer
/// at once.
pub fn prepare_power_status<'a>(config: &'a Config, token: &str, endpoint_id: &str) -> (r:
    Prepared<'a>)
    ensures
        r@ == spec_prepare_status(*config, token@, endpoint_id@),
{
    match get_endpoint_from_token(config, token, endpoint_id) {
        Ok(e) => Prepared::Invoke(e, PowerAction::Status),
        Err(resp) => Prepared::Reply(resp),
    }
}

/// Decide a control request: authorize, name the endpoint, validate
/// the requested action, or answer at once.
pub fn prepare_power_control<'a>(
    config: &'a Config,
    token: &str,
    endpoint_id: &str,
    action: &str,
) -> (r: Prepared<'a>)
    ensures
        r@ == spec_prepare_control(*config, token@, endpoint_id@, action@),
{
    match get_endpoint_from_token(config, token, endpoint_id) {
        Err(resp) => Prepared::Reply(resp),
        Ok(e) => match parse_control_action(action) {
            None => Prepared::Reply(
                HttpResponse {
                    status: 400,
                    body: String::from_str("Invalid action"),
                    body_is_json: false,
                },
            ),
            Some(a) => Prepared::Invoke(e, a),
        },
    }
}

/// A control action outside the closed set `on`, `off`, `reset`,
/// `cycle` never reaches the invoker: the decision is always an
/// immediate reply, and for an authorized caller it is exactly the
/// 400 answer.
pub proof fn lemma_invalid_action_rejected(
    c: Config,
    token: Seq<char>,
    id: Seq<char>,
    action: Seq<char>,
)
    requires
        action != "on"@,
        action != "off"@,
        action != "reset"@,
        action != "cycle"@,
    ensures
        !(spec_prepare_control(c, token, id, action) matches PreparedModel::Invoke(e, a)),
        spec_resolve(c, token, id) is Ok ==> spec_prepare_control(c, token, id, action)
            == PreparedModel::Reply(spec_bad_request_response()),
{
}

} // verus!
