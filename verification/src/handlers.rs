use vstd::prelude::*;
use crate::common::{HealthResponse, MainRequest, MainResponse};

verus! {

/// The greeting that `POST /api/main` gives for a request: the name, or
/// `World` when none is given.
pub open spec fn greeting(name: Option<Seq<char>>) -> Seq<char> {
    let who = match name {
        Some(n) => n,
        None => "World"@,
    };
    "Hello, "@ + who + "!"@
}

/// `GET /api/main`: the fixed greeting.
pub fn main_get() -> (r: MainResponse)
    ensures
        r.message@ == "Hello, WeMove!"@,
{
    MainResponse { message: String::from_str("Hello, WeMove!") }
}

/// `POST /api/main`: greets the name in the request, or `World`.
pub fn main_post(req: MainRequest) -> (r: MainResponse)
    ensures
        r.message@ == greeting(match req.name {
            Some(n) => Some(n@),
            None => None,
        }),
        req.name matches Some(n) ==> r.message@ == "Hello, "@ + n@ + "!"@,
        req.name is None ==> r.message@ == "Hello, World!"@,
{
    let mut message = String::from_str("Hello, ");
    match req.name {
        Some(n) => message.append(n.as_str()),
        None => message.append("World"),
    }
    message.append("!");
    proof {
        reveal_strlit("Hello, ");
        reveal_strlit("World");
        reveal_strlit("!");
        reveal_strlit("Hello, World!");
        assert(("Hello, "@ + "World"@ + "!"@) =~= "Hello, World!"@);
    }
    MainResponse { message }
}

/// `GET /api/health`: always healthy.
pub fn health() -> (r: HealthResponse)
    ensures
        r.status@ == "healthy"@,
{
    HealthResponse { status: String::from_str("healthy") }
}

/// The greeting for a name holds the whole name, whatever its length: it is
/// `Hello, ` (seven characters), then every character of the name in order,
/// then `!`, and it is eight characters longer than the name.
pub proof fn greeting_holds_the_whole_name(n: Seq<char>)
    ensures
        greeting(Some(n)).len() == n.len() + 8,
        greeting(Some(n)).subrange(7, 7 + n.len() as int) == n,
        greeting(Some(n)).subrange(0, 7) == "Hello, "@,
        greeting(Some(n))[7 + n.len() as int] == '!',
        greeting(None) == "Hello, World!"@,
{
    reveal_strlit("Hello, ");
    reveal_strlit("!");
    reveal_strlit("World");
    reveal_strlit("Hello, World!");
    let g = greeting(Some(n));
    assert(g.subrange(7, 7 + n.len() as int) =~= n);
    assert(g.subrange(0, 7) =~= "Hello, "@);
    assert(greeting(None) =~= "Hello, World!"@);
}

} // verus!
