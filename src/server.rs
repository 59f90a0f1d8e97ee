use vstd::prelude::*;
use vstd::string::StringExecFns;
use vstd::utf8::encode_utf8;

use crate::codec::{
    all_base64_chars, decode_request, encode_response, envelope_of, is_envelope, opens_to,
    MAX_ENCODABLE_BYTES,
};
use crate::registry::Registry;
use crate::Error;

verus! {

/// The first argument that asks a binary to serve one procedure call instead
/// of running its ordinary program logic.
pub const PROTOCOL_MARKER: &'static str = "beyond-server-process";

/// The argument at `index`, or the empty text when there is none.
pub open spec fn arg_at(args: Seq<String>, index: int) -> Seq<char> {
    if 0 <= index < args.len() {
        args[index]@
    } else {
        Seq::empty()
    }
}

/// What the server process writes and how it exits.
pub struct ServerReply {
    /// The full text of the primary output stream.
    pub output: String,
    /// The full text of the diagnostic stream.
    pub diagnostic: String,
    /// Whether the process exits with a success indicator.
    pub success: bool,
}

/// The next thing the server side has to do after reading its arguments.
pub enum ServerStep {
    /// The process is not serving a call: ordinary program logic goes on.
    NotServer,
    /// Run the handler of the route at `route` on the serialized request.
    Handle { route: usize, request_json: String },
    /// Write the reply and terminate, with no handler run.
    Finish(ServerReply),
}

/// The reply that reports `e`: its message on the diagnostic stream, a
/// failure indicator, nothing on the primary stream.
pub open spec fn is_failure_reply(r: ServerReply, e: Error) -> bool {
    &&& !r.success
    &&& r.output@ == Seq::<char>::empty()
    &&& r.diagnostic@ == e.spec_message().push('\n')
}

/// The reply that carries the serialized response `json`: its envelope alone
/// on the primary stream, a success indicator.
pub open spec fn is_success_reply(r: ServerReply, json: Seq<char>) -> bool {
    &&& r.success
    &&& r.output@ == envelope_of(json).push('\n')
    &&& all_base64_chars(envelope_of(json))
    &&& r.diagnostic@ == Seq::<char>::empty()
}

/// Builds the reply that reports an error.
pub fn failure_reply(e: Error) -> (r: ServerReply)
    ensures
        is_failure_reply(r, e),
{
    let mut diagnostic = e.message();
    diagnostic.append("\n");
    proof {
        reveal_strlit("\n");
        assert(diagnostic@ =~= e.spec_message().push('\n'));
    }
    ServerReply { output: String::new(), diagnostic, success: false }
}

/// Turns what the handler step gave (a serialized response, or the error that
/// stopped it) into the reply the process writes.
pub fn server_reply(result: Result<String, Error>) -> (r: ServerReply)
    ensures
        match result {
            Ok(json) => if encode_utf8(json@).len() <= MAX_ENCODABLE_BYTES {
                is_success_reply(r, json@)
            } else {
                exists|e: Error| e is EncodeResponse && #[trigger] is_failure_reply(r, e)
            },
            Err(e) => is_failure_reply(r, e),
        },
{
    match result {
        Ok(json) => match encode_response(json.as_str()) {
            Ok(token) => {
                let mut output = token;
                output.append("\n");
                proof {
                    reveal_strlit("\n");
                    assert(output@ =~= envelope_of(json@).push('\n'));
                }
                ServerReply { output, diagnostic: String::new(), success: true }
            },
            Err(e) => {
                let r = failure_reply(e);
                assert(is_failure_reply(r, e));
                r
            },
        },
        Err(e) => failure_reply(e),
    }
}

/// `r` reports that no route is named `name`.
pub open spec fn reports_invalid_route(r: ServerReply, name: Seq<char>) -> bool {
    exists|e: Error| #[trigger]
        is_failure_reply(r, e) && (e matches Error::InvalidRoute { route_name } && route_name@
            == name)
}

/// `r` reports a request token outside the base64 alphabet.
pub open spec fn reports_bad_request_token(r: ServerReply) -> bool {
    exists|e: Error| #[trigger] is_failure_reply(r, e) && e is AlphabetDecodeRequest
}

/// The argument at `index`, or an empty string when there is none.
fn arg_or_empty(args: &Vec<String>, index: usize) -> (r: String)
    ensures
        r@ == arg_at(args@, index as int),
{
    if index < args.len() {
        args[index].clone()
    } else {
        String::new()
    }
}

/// Reads the invoking process's arguments (the program name first) and
/// decides whether it serves a call and, if so, what comes next.
///
/// Only the first argument after the program name decides whether the process
/// serves a call; then the route name and the request token follow it.
/// Missing arguments read as empty strings.
pub fn dispatch<H>(registry: &Registry<H>, args: &Vec<String>) -> (r: ServerStep)
    requires
        registry.wf(),
    ensures
        arg_at(args@, 1) != PROTOCOL_MARKER@ <==> r is NotServer,
        arg_at(args@, 1) == PROTOCOL_MARKER@ ==> match registry.spec_lookup(arg_at(args@, 2)) {
            None => r matches ServerStep::Finish(reply) && reports_invalid_route(
                reply,
                arg_at(args@, 2),
            ),
            Some(i) => if is_envelope(arg_at(args@, 3)) {
                r matches ServerStep::Handle { route, request_json } && route == i && opens_to(
                    arg_at(args@, 3),
                    request_json@,
                ) && (forall|t: Seq<char>| #[trigger]
                    envelope_of(t) == arg_at(args@, 3) ==> request_json@ == t)
            } else {
                r matches ServerStep::Finish(reply) && reports_bad_request_token(reply)
            },
        },
{
    let mode = arg_or_empty(args, 1);
    let marker = String::from_str(PROTOCOL_MARKER);
    if mode != marker {
        return ServerStep::NotServer;
    }
    let route_name = arg_or_empty(args, 2);
    let encoded_request = arg_or_empty(args, 3);
    match registry.lookup(route_name.as_str()) {
        None => {
            let e = Error::InvalidRoute { route_name };
            let reply = failure_reply(e);
            assert(is_failure_reply(reply, e));
            ServerStep::Finish(reply)
        },
        Some(route) => match decode_request(encoded_request.as_str()) {
            Ok(request_json) => ServerStep::Handle { route, request_json },
            Err(e) => {
                let reply = failure_reply(e);
                assert(is_failure_reply(reply, e));
                ServerStep::Finish(reply)
            },
        },
    }
}

} // verus!
