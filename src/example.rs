use vstd::prelude::*;
use vstd::string::StringExecFns;

verus! {

/// The request of the `hello` route.
pub struct HelloRequest {
    pub name: String,
}

/// The response of the `hello` route.
pub struct HelloResponse {
    pub message: String,
}

/// The server side of the example: the state that handlers receive.
pub struct ServerImpl;

/// The greeting for `name`.
pub open spec fn greeting(name: Seq<char>) -> Seq<char> {
    "Hello, "@ + name + "!"@
}

/// The greeting for `name` that also names the host it was made on.
pub open spec fn greeting_on_host(name: Seq<char>, host: Seq<char>) -> Seq<char> {
    "Hello, "@ + name + "! This message was generated on '"@ + host + "'."@
}

impl ServerImpl {
    /// Greets the caller by name.
    pub fn hello(&self, request: HelloRequest) -> (r: HelloResponse)
        ensures
            r.message@ == greeting(request.name@),
    {
        let message = String::from_str("Hello, ").concat(request.name.as_str()).concat("!");
        HelloResponse { message }
    }

    /// Greets the caller by name and says which host answered.
    pub fn hello_on_host(&self, request: HelloRequest, hostname: &str) -> (r: HelloResponse)
        ensures
            r.message@ == greeting_on_host(request.name@, hostname@),
    {
        let message = String::from_str("Hello, ").concat(request.name.as_str()).concat(
            "! This message was generated on '",
        ).concat(hostname).concat("'.");
        HelloResponse { message }
    }
}

} // verus!
