//! The request handler: maps a request's path parameters and the catalog to
//! an HTTP-style response carrying JSON.

use vstd::prelude::*;
use crate::catalog::{
    find_item, lemma_find_item_found, lemma_find_item_none, names_unique, PizzaList,
};
use crate::json::{error_body, error_body_spec, success_body, success_body_spec};
use crate::params::{first_value, PathParams};

verus! {

/// An HTTP-style response: a status code, a content-type header and a body.
pub struct Response {
    pub status: u16,
    pub content_type: String,
    pub body: String,
}

/// The error message when the `pizza_name` parameter is absent.
pub open spec fn missing_param_message() -> Seq<char> {
    "could not find the pizza_name"@
}

/// The error message when no catalog item carries the given name.
pub open spec fn unknown_item_message() -> Seq<char> {
    "no pizza found for the given pizza_name"@
}

/// The status code and body owed for given path parameters and catalog:
/// with no `pizza_name` parameter, 400 and the missing-parameter error;
/// with one naming a catalog item, 200 and that item as JSON;
/// with any other, 400 and the unknown-item error.
pub open spec fn spec_response(
    params: Seq<(Seq<char>, Seq<char>)>,
    catalog: Seq<(Seq<char>, int)>,
) -> (int, Seq<char>) {
    match first_value(params, "pizza_name"@) {
        None => (400, error_body_spec(missing_param_message())),
        Some(name) => match find_item(catalog, name) {
            Some(item) => (200, success_body_spec(item.0, item.1)),
            None => (400, error_body_spec(unknown_item_message())),
        },
    }
}

/// A response is exactly the one the handler owes for the given inputs.
pub open spec fn response_matches(
    r: Response,
    params: Seq<(Seq<char>, Seq<char>)>,
    catalog: Seq<(Seq<char>, int)>,
) -> bool {
    &&& r.status as int == spec_response(params, catalog).0
    &&& r.body@ == spec_response(params, catalog).1
    &&& r.content_type@ == "application/json"@
}

/// Builds an error response: status 400, JSON content type, and the message
/// wrapped in a JSON error object.
pub fn build_error(error_message: &str) -> (r: Response)
    ensures
        r.status == 400,
        r.content_type@ == "application/json"@,
        r.body@ == error_body_spec(error_message@),
{
    Response {
        status: 400,
        content_type: String::from_str("application/json"),
        body: error_body(error_message),
    }
}

/// Handles one request: extracts the `pizza_name` path parameter, scans the
/// catalog for it, and produces the owed response.
pub fn process_event(params: &PathParams, pizza_list: &PizzaList) -> (r: Response)
    ensures
        response_matches(r, params@, pizza_list@),
{
    match params.first("pizza_name") {
        Some(pizza_name) => match pizza_list.find(&pizza_name) {
            Some(found_pizza) => Response {
                status: 200,
                content_type: String::from_str("application/json"),
                body: success_body(found_pizza.name.as_str(), found_pizza.price),
            },
            None => build_error("no pizza found for the given pizza_name"),
        },
        None => build_error("could not find the pizza_name"),
    }
}

/// Looking up the name of a catalog item succeeds: where the catalog's names
/// are unique and the `pizza_name` parameter equals the name of the item at
/// position `i`, the response owed is status 200 with that item as JSON.
pub proof fn lemma_lookup_known_item(
    params: Seq<(Seq<char>, Seq<char>)>,
    catalog: Seq<(Seq<char>, int)>,
    i: int,
)
    requires
        names_unique(catalog),
        0 <= i < catalog.len(),
        first_value(params, "pizza_name"@) == Some(catalog[i].0),
    ensures
        spec_response(params, catalog).0 == 200,
        spec_response(params, catalog).1 == success_body_spec(catalog[i].0, catalog[i].1),
{
    lemma_find_item_found(catalog, catalog[i].0, i);
}

/// Looking up a name no catalog item carries fails: the response owed is
/// status 400 with the unknown-item error body.
pub proof fn lemma_lookup_unknown_name(
    params: Seq<(Seq<char>, Seq<char>)>,
    catalog: Seq<(Seq<char>, int)>,
    s: Seq<char>,
)
    requires
        first_value(params, "pizza_name"@) == Some(s),
        forall|j: int| 0 <= j < catalog.len() ==> catalog[j].0 != s,
    ensures
        spec_response(params, catalog).0 == 400,
        spec_response(params, catalog).1 == error_body_spec(unknown_item_message()),
{
    lemma_find_item_none(catalog, s);
}

/// Omitting the `pizza_name` parameter fails: the response owed is status 400
/// with the missing-parameter error body.
pub proof fn lemma_lookup_missing_param(
    params: Seq<(Seq<char>, Seq<char>)>,
    catalog: Seq<(Seq<char>, int)>,
)
    requires
        first_value(params, "pizza_name"@) is None,
    ensures
        spec_response(params, catalog).0 == 400,
        spec_response(params, catalog).1 == error_body_spec(missing_param_message()),
{
}

/// The handler is deterministic, so repeating a request yields an identical
/// response: any two responses it owes for the same parameters and catalog
/// agree in status, content type and body.
pub proof fn lemma_handler_idempotent(
    r1: Response,
    r2: Response,
    params: Seq<(Seq<char>, Seq<char>)>,
    catalog: Seq<(Seq<char>, int)>,
)
    requires
        response_matches(r1, params, catalog),
        response_matches(r2, params, catalog),
    ensures
        r1.status == r2.status,
        r1.content_type@ == r2.content_type@,
        r1.body@ == r2.body@,
{
}

} // verus!
