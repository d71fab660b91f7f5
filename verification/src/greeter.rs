//! The greeter: a stateless service that answers a request carrying a name
//! with a reply carrying the greeting `"Hello {name}!"`.

use vstd::prelude::*;
use vstd::string::StringExecFns;

verus! {

/// The exact greeting for a given name: `"Hello "`, then the name verbatim,
/// then `"!"` — no trimming, no escaping.
pub open spec fn greeting_of(name: Seq<char>) -> Seq<char> {
    "Hello "@ + name + "!"@
}

/// A greeting request: one name string, arbitrary and unvalidated.
#[derive(Debug)]
pub struct HelloRequest {
    pub name: String,
}

/// A greeting reply: one message string.
#[derive(Debug)]
pub struct HelloReply {
    pub message: String,
}

/// The greeter service. It holds no state, so every invocation is
/// independent and reentrant.
#[derive(Debug)]
pub struct MyGreeter {}

impl MyGreeter {
    /// Answers a request with the message `"Hello {name}!"`, for every name
    /// string, the empty one included.
    pub fn say_hello(&self, request: HelloRequest) -> (reply: HelloReply)
        ensures
            reply.message@ == greeting_of(request.name@),
    {
        let mut message = String::from_str("Hello ");
        message.append(request.name.as_str());
        message.append("!");
        proof {
            assert(message@ =~= greeting_of(request.name@));
        }
        HelloReply { message }
    }
}

impl Default for MyGreeter {
    fn default() -> (r: MyGreeter)
        ensures
            r == (MyGreeter {  }),
    {
        MyGreeter {  }
    }
}

} // verus!
