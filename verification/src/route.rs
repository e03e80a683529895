//! The router: which handler a request goes to.

use crate::text::{chars_of, starts_with_at};
use vstd::prelude::*;

verus! {

/// The handler that a request goes to.
#[derive(Clone, Copy, Debug, PartialEq, Eq, Structural)]
pub enum Route {
    /// Create a product.
    Create,
    /// Read one product.
    Read,
    /// List all products.
    List,
    /// Replace one product.
    Update,
    /// Delete one product.
    Delete,
    /// No handler.
    Unmatched,
}

/// The bindings of the router, in the order in which they are tried: what a
/// request begins with, and where it then goes.
pub open spec fn bindings() -> Seq<(&'static str, Route)> {
    seq![
        ("POST /products", Route::Create),
        ("GET /products/", Route::Read),
        ("GET /products", Route::List),
        ("PUT /products/", Route::Update),
        ("DELETE /products/", Route::Delete),
    ]
}

/// Where the first of `table` sends `request` whose pattern the request begins
/// with; `Unmatched` where none does.
pub open spec fn first_match(table: Seq<(&'static str, Route)>, request: Seq<char>) -> Route
    decreases table.len(),
{
    if table.len() == 0 {
        Route::Unmatched
    } else if table[0].0@.is_prefix_of(request) {
        table[0].1
    } else {
        first_match(table.skip(1), request)
    }
}

/// The handler that `request` goes to.
pub open spec fn route_of(request: Seq<char>) -> Route {
    first_match(bindings(), request)
}

/// The bindings tried one after the other: a request for one product goes to
/// the handler for one product, though the pattern of the list fits it too.
pub proof fn routes_in_order(request: Seq<char>)
    ensures
        route_of(request) == if "POST /products"@.is_prefix_of(request) {
            Route::Create
        } else if "GET /products/"@.is_prefix_of(request) {
            Route::Read
        } else if "GET /products"@.is_prefix_of(request) {
            Route::List
        } else if "PUT /products/"@.is_prefix_of(request) {
            Route::Update
        } else if "DELETE /products/"@.is_prefix_of(request) {
            Route::Delete
        } else {
            Route::Unmatched
        },
{
    let table = bindings();
    reveal_with_fuel(first_match, 6);
    assert(table.skip(1)[0] == table[1]);
    assert(table.skip(1).skip(1)[0] == table[2]);
    assert(table.skip(1).skip(1).skip(1)[0] == table[3]);
    assert(table.skip(1).skip(1).skip(1).skip(1)[0] == table[4]);
    assert(table.skip(1).skip(1).skip(1).skip(1).skip(1).len() == 0);
}

/// The bindings of the router, in the order in which they are tried.
pub fn routes() -> (table: Vec<(&'static str, Route)>)
    ensures
        table@ == bindings(),
{
    vec![
        ("POST /products", Route::Create),
        ("GET /products/", Route::Read),
        ("GET /products", Route::List),
        ("PUT /products/", Route::Update),
        ("DELETE /products/", Route::Delete),
    ]
}

/// Finds the handler that `request` goes to.
pub fn route(request: &str) -> (found: Route)
    ensures
        found == route_of(request@),
{
    let chars = chars_of(request);
    let table = routes();
    let mut i: usize = 0;
    assert(table@.skip(0) =~= table@);
    assert(chars@.skip(0) =~= chars@);
    while i < table.len()
        invariant
            i <= table.len(),
            chars@ == request@,
            chars@.skip(0) == chars@,
            route_of(request@) == first_match(table@.skip(i as int), request@),
        decreases table.len() - i,
    {
        let pattern = chars_of(table[i].0);
        if starts_with_at(chars.as_slice(), 0, pattern.as_slice()) {
            return table[i].1;
        }
        assert(table@.skip(i as int).skip(1) =~= table@.skip(i + 1));
        i = i + 1;
    }
    Route::Unmatched
}

} // verus!
