//! A model of the backing store: a table is a map from id to row, a statement
//! does to it what its name says, and an insert under an id that is in use is
//! refused. The store itself is outside this library; what is proved here
//! holds of the handlers whenever the store answers as this model does.

use crate::address::{
    created, created_reply, deleted_reply, failure, insertion_failed, listed_reply, pages,
    read_reply, record, revised, update_plan, updated_reply, value, window_of, Address,
    AddressBody, AddressModelCreateDto, AddressModelPutDto, AddressNotice, AddressReply,
    PageWindow, ParamPaginationAddress,
};
use crate::http::Status;
use crate::product::{missing, notice, plan, Body, Command, Notice, Product, Reply};
use crate::request::{parse_i32, path_id};
use crate::route::{route_of, Route};
use vstd::prelude::*;

verus! {

/// The store could not be reached, or refused a statement.
#[derive(Clone, Copy, Debug, PartialEq, Eq, Structural)]
pub struct StoreError;

/// The product as the store keeps it under `id`: the id is the store's, the rest
/// is as it was sent.
pub open spec fn kept<P>(id: i32, product: Product<P>) -> Product<P> {
    Product {
        id: Some(id),
        name: product.name,
        price: product.price,
        stock: product.stock,
        description: product.description,
        date_added: product.date_added,
    }
}

/// Whether each product of `rows` carries the id that it is kept under.
pub open spec fn well_kept<P>(rows: Map<i32, Product<P>>) -> bool {
    forall|id: i32| rows.dom().contains(id) ==> (#[trigger] rows[id]).id == Some(id)
}

/// What a select by `id` finds in `rows`.
pub open spec fn select<P>(rows: Map<i32, Product<P>>, id: i32) -> Result<
    Option<Product<P>>,
    StoreError,
> {
    if rows.dom().contains(id) {
        Ok(Some(rows[id]))
    } else {
        Ok(None)
    }
}

/// How many rows of `rows` a statement on `id` touches.
pub open spec fn touched<P>(rows: Map<i32, Product<P>>, id: i32) -> Result<u64, StoreError> {
    if rows.dom().contains(id) {
        Ok(1)
    } else {
        Ok(0)
    }
}

/// Whether `listing` holds the products of `rows`, one entry for each id and
/// no other entry: the products under some ids that name each id of `rows`
/// once.
pub open spec fn lists<P>(rows: Map<i32, Product<P>>, listing: Vec<Product<P>>) -> bool {
    exists|ids: Seq<i32>|
        {
            &&& #[trigger] ids.no_duplicates()
            &&& ids.to_set() == rows.dom()
            &&& listing@ == ids.map_values(|id: i32| rows[id])
        }
}

/// What an insert under `fresh` counts: one row, or a refusal where the id is
/// in use.
pub open spec fn inserted<P>(rows: Map<i32, Product<P>>, fresh: i32) -> Result<u64, StoreError> {
    if rows.dom().contains(fresh) {
        Err(StoreError)
    } else {
        Ok(1)
    }
}

/// What becomes of `rows` under `command`; `fresh` is the id that the store
/// gives to a product that it inserts.
pub open spec fn rows_after<P>(
    rows: Map<i32, Product<P>>,
    fresh: i32,
    command: Command<P>,
) -> Map<i32, Product<P>> {
    match command {
        Command::Insert(product) => if rows.dom().contains(fresh) {
            rows
        } else {
            rows.insert(fresh, kept(fresh, product))
        },
        Command::Update(id, product) => if rows.dom().contains(id) {
            rows.insert(id, kept(id, product))
        } else {
            rows
        },
        Command::Delete(id) => rows.remove(id),
        _ => rows,
    }
}

/// What the handlers answer to `command` when the store holds `rows`; `fresh`
/// is the id that the store gives to a product that it inserts.
pub open spec fn reply_to<P>(
    rows: Map<i32, Product<P>>,
    fresh: i32,
    command: Command<P>,
) -> Reply<P> {
    match command {
        Command::Insert(_) => crate::product::created_reply(inserted(rows, fresh)),
        Command::Select(id) => crate::product::found_reply(select(rows, id)),
        Command::SelectAll => crate::product::listed_reply(
            Ok(choose|listing: Vec<Product<P>>| lists(rows, listing)),
        ),
        Command::Update(id, _) => crate::product::updated_reply(touched(rows, id)),
        Command::Delete(id) => crate::product::deleted_reply(touched(rows, id)),
        Command::Answer(reply) => reply,
    }
}

/// What a store that holds `rows` holds once `request` is served, and the
/// answer to `request`. `payload` is the product in the body of the request,
/// `fresh` the id that the store gives to a product that it inserts.
pub open spec fn serve<P>(
    rows: Map<i32, Product<P>>,
    fresh: i32,
    request: Seq<char>,
    payload: Option<Product<P>>,
) -> (Map<i32, Product<P>>, Reply<P>) {
    let command = plan(request, payload);
    (rows_after(rows, fresh, command), reply_to(rows, fresh, command))
}

/// A product that was created is read back under the id that the store gave
/// it, with every other field as it was sent.
pub proof fn created_product_is_read_back<P>(
    rows: Map<i32, Product<P>>,
    fresh: i32,
    create: Seq<char>,
    payload: Product<P>,
    read: Seq<char>,
    any_id: i32,
    any_payload: Option<Product<P>>,
)
    requires
        !rows.dom().contains(fresh),
        route_of(create) == Route::Create,
        route_of(read) == Route::Read,
        parse_i32(path_id(read)) == Some(fresh),
    ensures
        serve(rows, fresh, create, Some(payload)).1 == notice::<P>(
            Status::Success,
            Notice::Created,
        ),
        serve(serve(rows, fresh, create, Some(payload)).0, any_id, read, any_payload).1 == (Reply {
            status: Status::Success,
            body: Body::Record(kept(fresh, payload)),
        }),
{
}

/// An insert that the store refuses is answered with 500, and leaves the store
/// as it was.
pub proof fn refused_product_is_not_created<P>(
    rows: Map<i32, Product<P>>,
    fresh: i32,
    create: Seq<char>,
    payload: Product<P>,
)
    requires
        rows.dom().contains(fresh),
        route_of(create) == Route::Create,
    ensures
        serve(rows, fresh, create, Some(payload)).1 == crate::product::failure::<P>(),
        serve(rows, fresh, create, Some(payload)).0 == rows,
{
}

/// Reading, updating or deleting under an id that the store does not hold is
/// answered with 404, and leaves the store as it was. (An update is meant
/// with a product in its body: without one it cannot be served.)
pub proof fn unknown_product_is_not_found<P>(
    rows: Map<i32, Product<P>>,
    fresh: i32,
    request: Seq<char>,
    payload: Option<Product<P>>,
    id: i32,
)
    requires
        !rows.dom().contains(id),
        parse_i32(path_id(request)) == Some(id),
        route_of(request) == Route::Read || route_of(request) == Route::Delete || (route_of(request)
            == Route::Update && payload.is_some()),
    ensures
        serve(rows, fresh, request, payload).1 == missing::<P>(),
        serve(rows, fresh, request, payload).1.status == Status::NotFound,
        serve(rows, fresh, request, payload).0 == rows,
{
    assert(rows.remove(id) =~= rows);
}

/// Deleting a second time is answered with 404, whatever the first answer
/// was.
pub proof fn deleted_product_is_gone<P>(
    rows: Map<i32, Product<P>>,
    fresh: i32,
    request: Seq<char>,
    payload: Option<Product<P>>,
)
    requires
        route_of(request) == Route::Delete,
        parse_i32(path_id(request)).is_some(),
    ensures
        rows.dom().contains(parse_i32(path_id(request)).unwrap()) ==> serve(
            rows,
            fresh,
            request,
            payload,
        ).1 == notice::<P>(Status::Success, Notice::Deleted),
        serve(serve(rows, fresh, request, payload).0, fresh, request, payload).1 == missing::<P>(),
{
}

/// An update changes one product, and of that product every field but the id.
pub proof fn update_keeps_the_rest<P>(
    rows: Map<i32, Product<P>>,
    fresh: i32,
    request: Seq<char>,
    payload: Product<P>,
    id: i32,
)
    requires
        well_kept(rows),
        rows.dom().contains(id),
        route_of(request) == Route::Update,
        parse_i32(path_id(request)) == Some(id),
    ensures
        serve(rows, fresh, request, Some(payload)).1 == notice::<P>(
            Status::Success,
            Notice::Updated,
        ),
        serve(rows, fresh, request, Some(payload)).0.dom() == rows.dom(),
        serve(rows, fresh, request, Some(payload)).0[id] == kept(id, payload),
        serve(rows, fresh, request, Some(payload)).0[id].id == rows[id].id,
        forall|other: i32|
            other != id && rows.dom().contains(other) ==> #[trigger] serve(
                rows,
                fresh,
                request,
                Some(payload),
            ).0[other] == rows[other],
        well_kept(serve(rows, fresh, request, Some(payload)).0),
{
    let after = serve(rows, fresh, request, Some(payload)).0;
    assert(after.dom() =~= rows.dom());
}

/// What a select by `id` finds in `rows`.
pub open spec fn select_address(rows: Map<u128, Address>, id: u128) -> Result<
    Option<Address>,
    StoreError,
> {
    if rows.dom().contains(id) {
        Ok(Some(rows[id]))
    } else {
        Ok(None)
    }
}

/// Whether each address of `rows` carries the id that it is kept under.
pub open spec fn addresses_well_kept(rows: Map<u128, Address>) -> bool {
    forall|id: u128| rows.dom().contains(id) ==> (#[trigger] rows[id]).id == id
}

/// The store and the answer once a request to create an address is served;
/// `id` is the id that was drawn for it. Where the store holds an address
/// under `id` already, it refuses the insert.
pub open spec fn serve_create(
    rows: Map<u128, Address>,
    id: u128,
    payload: Option<AddressModelCreateDto>,
) -> (Map<u128, Address>, AddressReply) {
    match payload {
        Some(wanted) => if rows.dom().contains(id) {
            (rows, created_reply(Err(StoreError)))
        } else {
            let after = rows.insert(id, created(id, wanted));
            (after, created_reply(select_address(after, id)))
        },
        None => (rows, insertion_failed()),
    }
}

/// The page `window` of `all`, the rows of the table in the order of their
/// ids: the rows from `index` times `size` on, `size` of them at most.
pub open spec fn page_of(all: Seq<Address>, window: PageWindow) -> Seq<Address> {
    match window.index {
        Some(index) => {
            let from = if index * window.size <= all.len() {
                index * window.size
            } else {
                all.len() as int
            };
            let to = if from + window.size <= all.len() {
                from + window.size
            } else {
                all.len() as int
            };
            all.subrange(from, to)
        },
        None => Seq::empty(),
    }
}

/// The answer to a request for a page of a table that holds the rows `all`,
/// where `fetched` is what the store hands over as the page.
pub open spec fn serve_list(
    all: Seq<Address>,
    query: ParamPaginationAddress,
    fetched: Vec<Address>,
) -> AddressReply {
    match window_of(query) {
        Some(window) => listed_reply(window.size, Ok((fetched, all.len() as u64))),
        None => failure(),
    }
}

/// The answer to a request to read the address under `id`.
pub open spec fn serve_read(rows: Map<u128, Address>, id: u128) -> AddressReply {
    read_reply(select_address(rows, id))
}

/// The store and the answer once a request to update the address under `id`
/// is served.
pub open spec fn serve_update(
    rows: Map<u128, Address>,
    id: u128,
    payload: Option<AddressModelPutDto>,
) -> (Map<u128, Address>, AddressReply) {
    match update_plan(select_address(rows, id), payload) {
        Ok(address) => (rows.insert(id, address), updated_reply(Ok(address))),
        Err(reply) => (rows, reply),
    }
}

/// The store and the answer once a request to delete the address under `id`
/// is served.
pub open spec fn serve_delete(rows: Map<u128, Address>, id: u128) -> (
    Map<u128, Address>,
    AddressReply,
) {
    (
        rows.remove(id),
        deleted_reply(
            if rows.dom().contains(id) {
                Ok(1)
            } else {
                Ok(0)
            },
        ),
    )
}

/// An address that was created is answered as it was sent, under the id that
/// was drawn for it, and is read back the same.
pub proof fn created_address_is_read_back(
    rows: Map<u128, Address>,
    id: u128,
    payload: AddressModelCreateDto,
)
    requires
        !rows.dom().contains(id),
    ensures
        serve_create(rows, id, Some(payload)).1 == record(created(id, payload)),
        serve_read(serve_create(rows, id, Some(payload)).0, id) == serve_create(
            rows,
            id,
            Some(payload),
        ).1,
{
}

/// An insert that the store refuses is answered with 500, and leaves the store
/// as it was.
pub proof fn refused_address_is_not_created(
    rows: Map<u128, Address>,
    id: u128,
    payload: AddressModelCreateDto,
)
    requires
        rows.dom().contains(id),
    ensures
        serve_create(rows, id, Some(payload)).1 == insertion_failed(),
        serve_create(rows, id, Some(payload)).0 == rows,
{
}

/// Reading, updating or deleting under an id that the store does not hold is
/// answered with 404, and leaves the store as it was. (An update is meant
/// with an address in its body: without one it cannot be served.)
pub proof fn unknown_address_is_not_found(
    rows: Map<u128, Address>,
    id: u128,
    payload: AddressModelPutDto,
)
    requires
        !rows.dom().contains(id),
    ensures
        serve_read(rows, id).status == Status::NotFound,
        serve_update(rows, id, Some(payload)).1.status == Status::NotFound,
        serve_update(rows, id, Some(payload)).0 == rows,
        serve_delete(rows, id).1.status == Status::NotFound,
        serve_delete(rows, id).0 == rows,
{
    assert(rows.remove(id) =~= rows);
}

/// Deleting a second time is answered with 404, whatever the first answer
/// was.
pub proof fn deleted_address_is_gone(rows: Map<u128, Address>, id: u128)
    ensures
        rows.dom().contains(id) ==> serve_delete(rows, id).1 == value(
            Status::Success,
            AddressNotice::AddressDeleted,
        ),
        serve_delete(serve_delete(rows, id).0, id).1 == value(
            Status::NotFound,
            AddressNotice::AddressNotFound,
        ),
        serve_read(serve_delete(rows, id).0, id).status == Status::NotFound,
{
}

/// An update changes one address, and of that address the postal code and the
/// city: its id stays.
pub proof fn update_keeps_the_id(
    rows: Map<u128, Address>,
    id: u128,
    payload: AddressModelPutDto,
)
    requires
        addresses_well_kept(rows),
        rows.dom().contains(id),
    ensures
        serve_update(rows, id, Some(payload)).1 == record(revised(rows[id], payload)),
        serve_update(rows, id, Some(payload)).0.dom() == rows.dom(),
        serve_update(rows, id, Some(payload)).0[id].id == rows[id].id,
        serve_update(rows, id, Some(payload)).0[id].postal_code == payload.postal_code,
        serve_update(rows, id, Some(payload)).0[id].city == payload.city,
        forall|other: u128|
            other != id && rows.dom().contains(other) ==> #[trigger] serve_update(
                rows,
                id,
                Some(payload),
            ).0[other] == rows[other],
        addresses_well_kept(serve_update(rows, id, Some(payload)).0),
{
    let after = serve_update(rows, id, Some(payload)).0;
    assert(after.dom() =~= rows.dom());
}

/// Every page from 1 on, of any size from 1 on, is answered with 200: with the
/// rows of the page, at most as many as a page may hold, and with the least
/// number of pages that hold all the rows, whatever the page.
pub proof fn every_page_is_answered(
    all: Seq<Address>,
    query: ParamPaginationAddress,
    fetched: Vec<Address>,
)
    requires
        query.page >= 1,
        query.per_page >= 1,
        all.len() <= u64::MAX,
        fetched@ == page_of(all, window_of(query).unwrap()),
    ensures
        window_of(query).is_some(),
        serve_list(all, query, fetched) == (AddressReply {
            status: Status::Success,
            body: AddressBody::Page {
                address: fetched,
                num_page: pages(all.len() as int, query.per_page as int) as u64,
            },
        }),
        fetched@.len() <= query.per_page,
        fetched@.len() == if (query.page - 1) * query.per_page >= all.len() {
            0
        } else if all.len() - (query.page - 1) * query.per_page <= query.per_page {
            all.len() - (query.page - 1) * query.per_page
        } else {
            query.per_page as int
        },
        pages(all.len() as int, query.per_page as int) == all.len() / (query.per_page as nat) + if all.len()
            % (query.per_page as nat) > 0 {
            1int
        } else {
            0int
        },
{
    crate::address::pages_is_least(all.len() as int, query.per_page as int);
    let window = window_of(query).unwrap();
    let before = (query.page - 1) * query.per_page;
    assert(0 <= before) by (nonlinear_arith)
        requires
            before == (query.page - 1) * query.per_page,
            query.page >= 1,
            query.per_page >= 1,
    ;
    match window.index {
        Some(index) => {
            assert(index * window.size == before);
        },
        None => {},
    }
}

/// A page that is answered holds at most as many addresses as a page may, and
/// comes with the least number of pages that hold all the addresses.
pub proof fn page_is_bounded(per_page: u64, rows: Vec<Address>, total: u64)
    ensures
        match listed_reply(per_page, Ok((rows, total))).body {
            AddressBody::Page { address, num_page } => {
                &&& address == rows
                &&& address.len() <= per_page
                &&& num_page == pages(total as int, per_page as int)
                &&& num_page * per_page >= total
                &&& num_page > 0 ==> (num_page - 1) * per_page < total
            },
            _ => per_page == 0 || rows.len() > per_page,
        },
{
    if per_page >= 1 {
        crate::address::pages_is_least(total as int, per_page as int);
    }
}

} // verus!
