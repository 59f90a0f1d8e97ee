use vstd::prelude::*;
use vstd::string::{StringExecFns, StringSliceAdditionalSpecFns};
use vstd::utf8::*;

use crate::codec::{
    all_base64_chars, decode_response, encode_request, envelope_of, is_base64_char, is_envelope,
    opens_to, read_text, utf8_lossy, MAX_ENCODABLE_BYTES,
};
use crate::server::{is_failure_reply, is_success_reply, ServerReply, PROTOCOL_MARKER};
use crate::ssh::{args_view, SSH};
use crate::Error;

verus! {

broadcast use {encode_utf8_valid_utf8, encode_utf8_decode_utf8};

/// What one run of the transport gave: its exit indicator and the bytes of
/// its primary and diagnostic streams.
pub struct InvocationOutcome {
    pub success: bool,
    pub stdout: Vec<u8>,
    pub stderr: Vec<u8>,
}

/// A character with the Unicode `White_Space` property.
pub open spec fn is_white_space(c: char) -> bool {
    ('\u{9}' <= c && c <= '\u{d}') || c == ' ' || c == '\u{85}' || c == '\u{a0}' || c
        == '\u{1680}' || ('\u{2000}' <= c && c <= '\u{200a}') || c == '\u{2028}' || c
        == '\u{2029}' || c == '\u{202f}' || c == '\u{205f}' || c == '\u{3000}'
}

/// `s` without its leading white space.
pub open spec fn trim_start(s: Seq<char>) -> Seq<char>
    decreases s.len(),
{
    if s.len() > 0 && is_white_space(s[0]) {
        trim_start(s.drop_first())
    } else {
        s
    }
}

/// `s` without its trailing white space.
pub open spec fn trim_end(s: Seq<char>) -> Seq<char>
    decreases s.len(),
{
    if s.len() > 0 && is_white_space(s.last()) {
        trim_end(s.drop_last())
    } else {
        s
    }
}

/// `s` without its leading and trailing white space.
pub open spec fn trimmed(s: Seq<char>) -> Seq<char> {
    trim_end(trim_start(s))
}

/// The transport carried `reply` to `o` unchanged: the exit indicator, and
/// each stream as the UTF-8 bytes of its text.
pub open spec fn delivers(o: InvocationOutcome, reply: ServerReply) -> bool {
    &&& o.success == reply.success
    &&& o.stdout@ == encode_utf8(reply.output@)
    &&& o.stderr@ == encode_utf8(reply.diagnostic@)
}

/// Relies on `str::trim`: it removes leading and trailing white space, as the
/// Unicode `White_Space` property defines it.
#[verifier::external_body]
fn trim_white_space<'a>(s: &'a str) -> (r: &'a str)
    ensures
        r@ == trimmed(s@),
{
    s.trim()
}

/// A token of base64 characters followed by a line break trims to the token.
proof fn lemma_trim_token_line(token: Seq<char>)
    requires
        all_base64_chars(token),
    ensures
        trimmed(token.push('\n')) == token,
{
    let s = token.push('\n');
    if token.len() == 0 {
        assert(s.drop_first() =~= Seq::<char>::empty());
        assert(trim_start(s) == trim_start(s.drop_first()));
        assert(trim_start(Seq::<char>::empty()) == Seq::<char>::empty());
    } else {
        assert(is_base64_char(token[0]));
        assert(s[0] == token[0]);
        assert(trim_start(s) == s);
        assert(s.drop_last() =~= token);
        assert(is_base64_char(token.last()));
        assert(trim_end(token) == token);
    }
}

/// Reads the outcome of a call's transport run: the serialized response, or
/// the error that classifies the failure.
///
/// A launch failure is a transport error; a failed run reports the remote
/// diagnostic text as it came; a successful run's primary stream is trimmed
/// and decoded as a response envelope. What a server reply carries through the
/// transport arrives unchanged.
pub fn read_response(outcome: Result<InvocationOutcome, String>) -> (r: Result<String, Error>)
    ensures
        match outcome {
            Err(detail) => r matches Err(Error::TransportLaunch { detail: d }) && d@ == detail@,
            Ok(o) => if !o.success {
                r matches Err(Error::RemoteExecution { diagnostic }) && diagnostic@ == read_text(o.stderr@)
            } else {
                let token = trimmed(read_text(o.stdout@));
                &&& r is Ok <==> is_envelope(token)
                &&& r is Ok ==> opens_to(token, r->Ok_0@)
                &&& r is Err ==> r->Err_0 is AlphabetDecodeResponse
            },
        },
        forall|reply: ServerReply, t: Seq<char>|
            outcome is Ok && #[trigger] delivers(outcome->Ok_0, reply) && #[trigger]
                is_success_reply(reply, t) ==> r is Ok && r->Ok_0@ == t,
        forall|reply: ServerReply, e: Error|
            outcome is Ok && #[trigger] delivers(outcome->Ok_0, reply) && #[trigger]
                is_failure_reply(reply, e) ==> (r matches Err(Error::RemoteExecution { diagnostic })
                && diagnostic@ == e.spec_message().push('\n')),
{
    match outcome {
        Err(detail) => Err(Error::TransportLaunch { detail }),
        Ok(o) => {
            if !o.success {
                let diagnostic = utf8_lossy(o.stderr.as_slice());
                return Err(Error::RemoteExecution { diagnostic });
            }
            let text = utf8_lossy(o.stdout.as_slice());
            let token = trim_white_space(text.as_str());
            let r = decode_response(token);
            assert forall|reply: ServerReply, t: Seq<char>|
                #[trigger] delivers(o, reply) && #[trigger] is_success_reply(
                    reply,
                    t,
                ) implies r is Ok && r->Ok_0@ == t by {
                lemma_trim_token_line(envelope_of(t));
            }
            r
        },
    }
}

/// The caller's side of the protocol: one transport destination and the path
/// of the server binary on it.
pub struct Client {
    ssh: SSH,
    server_binary: String,
}

impl Client {
    /// The destination host.
    pub closed spec fn destination(&self) -> Seq<char> {
        self.ssh.destination()
    }

    /// The path of the server binary on the destination host.
    pub closed spec fn server_binary(&self) -> Seq<char> {
        self.server_binary@
    }

    /// A client for the server binary `server_binary` on `destination`.
    pub fn new(destination: &str, server_binary: String) -> (r: Client)
        ensures
            r.destination() == destination@,
            r.server_binary() == server_binary@,
    {
        Client { ssh: SSH::new(destination), server_binary }
    }

    /// The transport command's arguments for one call of `route_name` with a
    /// serialized request: destination, server binary, protocol marker, route
    /// name and request envelope.
    pub fn call_args(&self, route_name: &str, request_json: &str) -> (r: Result<
        Vec<String>,
        Error,
    >)
        ensures
            r is Ok <==> request_json.spec_bytes().len() <= MAX_ENCODABLE_BYTES,
            r is Ok ==> args_view(r->Ok_0@) == seq![
                self.destination(),
                self.server_binary(),
                PROTOCOL_MARKER@,
                route_name@,
                envelope_of(request_json@),
            ],
            r is Err ==> r->Err_0 is EncodeRequest,
    {
        let encoded_request = match encode_request(request_json) {
            Ok(token) => token,
            Err(e) => return Err(e),
        };
        let mut remote: Vec<String> = Vec::new();
        remote.push(self.server_binary.clone());
        remote.push(String::from_str(PROTOCOL_MARKER));
        remote.push(route_name.to_owned());
        remote.push(encoded_request);
        let args = self.ssh.command_args(remote);
        assert(args_view(args@) =~= seq![
            self.destination(),
            self.server_binary(),
            PROTOCOL_MARKER@,
            route_name@,
            envelope_of(request_json@),
        ]);
        Ok(args)
    }

    /// The transport command's arguments that look the server binary up on the
    /// destination host.
    pub fn check_args(&self) -> (r: Vec<String>)
        ensures
            args_view(r@) == seq![self.destination(), "which"@, self.server_binary()],
    {
        let mut remote: Vec<String> = Vec::new();
        remote.push(String::from_str("which"));
        remote.push(self.server_binary.clone());
        let args = self.ssh.command_args(remote);
        assert(args_view(args@) =~= seq![self.destination(), "which"@, self.server_binary()]);
        args
    }
}

/// Reads the outcome of the lookup that `check_args` describes: the server
/// binary is installed exactly when the lookup succeeds.
pub fn read_check(outcome: Result<InvocationOutcome, String>) -> (r: Result<(), Error>)
    ensures
        match outcome {
            Err(detail) => r matches Err(Error::TransportLaunch { detail: d }) && d@ == detail@,
            Ok(o) => if o.success {
                r is Ok
            } else {
                r matches Err(Error::RemoteBinaryMissing)
            },
        },
{
    match outcome {
        Err(detail) => Err(Error::TransportLaunch { detail }),
        Ok(o) => if o.success {
            Ok(())
        } else {
            Err(Error::RemoteBinaryMissing)
        },
    }
}

} // verus!
