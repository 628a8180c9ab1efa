//! The JSON bodies the handler produces: a success object with a name and a
//! price, and an error object with a message.

use vstd::prelude::*;
use crate::numfmt::{dec_int, i32_dec};

verus! {

/// The success body: `{"name":"<name>","price":<price>}`.
pub open spec fn success_body_spec(name: Seq<char>, price: int) -> Seq<char> {
    "{\"name\":\""@ + name + "\",\"price\":"@ + dec_int(price) + "}"@
}

/// The error body: `{"error":"<message>"}`.
pub open spec fn error_body_spec(msg: Seq<char>) -> Seq<char> {
    "{\"error\":\""@ + msg + "\"}"@
}

/// Builds the success body for one item.
pub fn success_body(name: &str, price: i32) -> (r: String)
    ensures
        r@ == success_body_spec(name@, price as int),
{
    let mut s = String::from_str("{\"name\":\"");
    s.append(name);
    s.append("\",\"price\":");
    let rendered = i32_dec(price);
    s.append(rendered.as_str());
    s.append("}");
    proof {
        assert(s@ =~= success_body_spec(name@, price as int));
    }
    s
}

/// Builds the error body for one message.
pub fn error_body(msg: &str) -> (r: String)
    ensures
        r@ == error_body_spec(msg@),
{
    let mut s = String::from_str("{\"error\":\"");
    s.append(msg);
    s.append("\"}");
    proof {
        assert(s@ =~= error_body_spec(msg@));
    }
    s
}

} // verus!
