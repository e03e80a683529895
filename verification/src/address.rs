//! The address handlers: what each asks of the store, and what it answers to
//! what the store gave back. The store itself is not in this library.

use crate::http::Status;
use crate::store::StoreError;
use vstd::prelude::*;

verus! {

/// An address. Its id is a UUID, held as the number that its sixteen bytes
/// write, the first byte first.
#[derive(Clone, Debug, PartialEq, Eq)]
pub struct Address {
    pub id: u128,
    pub postal_code: String,
    pub city: String,
}

/// What a request to create an address carries.
#[derive(Clone, Debug, PartialEq, Eq)]
pub struct AddressModelCreateDto {
    pub postal_code: String,
    pub city: String,
}

/// What a request to update an address carries.
#[derive(Clone, Debug, PartialEq, Eq)]
pub struct AddressModelPutDto {
    pub postal_code: String,
    pub city: String,
}

/// Which page of the addresses a request asks for: pages count from 1.
#[derive(Clone, Copy, Debug, PartialEq, Eq, Structural)]
pub struct ParamPaginationAddress {
    pub page: u64,
    pub per_page: u64,
}

/// The page that the store is asked for. Pages count from 0 here, and `index`
/// is `None` for a page that begins beyond every row that a `u64` can count:
/// the store is then asked for the number of rows only, and the page is empty.
#[derive(Clone, Copy, Debug, PartialEq, Eq)]
pub struct PageWindow {
    pub index: Option<u64>,
    pub size: u64,
}

/// The fixed texts that a response can carry.
#[derive(Clone, Copy, Debug, PartialEq, Eq, Structural)]
pub enum AddressNotice {
    NotFound,
    AddressNotFound,
    AddressDeleted,
    InsertionFailed,
    /// The request could not be served.
    Failed,
}

/// What a response carries.
#[derive(Clone, Debug, PartialEq, Eq)]
pub enum AddressBody {
    /// The notice, as plain text.
    Text(AddressNotice),
    /// The notice, as the member `value` of a JSON object.
    Value(AddressNotice),
    /// The address, as a JSON object.
    Record(Address),
    /// A page of addresses and the number of pages, as the members `address`
    /// and `num_page` of a JSON object.
    Page { address: Vec<Address>, num_page: u64 },
}

/// The answer to a request.
#[derive(Clone, Debug, PartialEq, Eq)]
pub struct AddressReply {
    pub status: Status,
    pub body: AddressBody,
}

impl AddressNotice {
    /// The text of the notice.
    pub open spec fn words(self) -> Seq<char> {
        match self {
            AddressNotice::NotFound => "not found"@,
            AddressNotice::AddressNotFound => "address not found"@,
            AddressNotice::AddressDeleted => "address deleted"@,
            AddressNotice::InsertionFailed => "error during database insertion"@,
            AddressNotice::Failed => "internal server error"@,
        }
    }

    /// The text of the notice.
    pub fn text(self) -> (text: &'static str)
        ensures
            text@ == self.words(),
    {
        match self {
            AddressNotice::NotFound => "not found",
            AddressNotice::AddressNotFound => "address not found",
            AddressNotice::AddressDeleted => "address deleted",
            AddressNotice::InsertionFailed => "error during database insertion",
            AddressNotice::Failed => "internal server error",
        }
    }
}

/// Whether `id` is a random UUID: of version 4, in the variant of RFC 9562.
pub open spec fn is_random_id(id: u128) -> bool {
    (id >> 76) & 0xF == 4 && (id >> 62) & 0x3 == 2
}

/// How many pages of `per_page` rows it takes to hold `total` rows.
pub open spec fn pages(total: int, per_page: int) -> int {
    (total + per_page - 1) / per_page
}

/// The answer that carries `notice` in a JSON object.
pub open spec fn value(status: Status, notice: AddressNotice) -> AddressReply {
    AddressReply { status, body: AddressBody::Value(notice) }
}

/// The answer to a request that could not be served.
pub open spec fn failure() -> AddressReply {
    value(Status::InternalServerError, AddressNotice::Failed)
}

/// The answer where the address does not exist.
pub open spec fn not_found() -> AddressReply {
    AddressReply { status: Status::NotFound, body: AddressBody::Text(AddressNotice::NotFound) }
}

/// The answer that carries `address`.
pub open spec fn record(address: Address) -> AddressReply {
    AddressReply { status: Status::Success, body: AddressBody::Record(address) }
}

/// The page that `query` asks the store for: none where a number of `query` is
/// 0.
pub open spec fn window_of(query: ParamPaginationAddress) -> Option<PageWindow> {
    if query.page >= 1 && query.per_page >= 1 {
        Some(
            PageWindow {
                index: if (query.page - 1) * query.per_page <= u64::MAX {
                    Some((query.page - 1) as u64)
                } else {
                    None
                },
                size: query.per_page,
            },
        )
    } else {
        None
    }
}

/// The answer of the list handler: the rows and the number of pages, where the
/// store kept to the size of the page.
pub open spec fn listed_reply(
    per_page: u64,
    fetched: Result<(Vec<Address>, u64), StoreError>,
) -> AddressReply {
    match fetched {
        Ok((rows, total)) => if per_page >= 1 && rows.len() <= per_page {
            AddressReply {
                status: Status::Success,
                body: AddressBody::Page {
                    address: rows,
                    num_page: pages(total as int, per_page as int) as u64,
                },
            }
        } else {
            failure()
        },
        Err(_) => failure(),
    }
}

/// The answer of the read handler.
pub open spec fn read_reply(found: Result<Option<Address>, StoreError>) -> AddressReply {
    match found {
        Ok(Some(address)) => record(address),
        Ok(None) => not_found(),
        Err(_) => failure(),
    }
}

/// The answer of the update handler once the address is saved.
pub open spec fn updated_reply(saved: Result<Address, StoreError>) -> AddressReply {
    match saved {
        Ok(address) => record(address),
        Err(_) => failure(),
    }
}

/// The answer of the delete handler.
pub open spec fn deleted_reply(deleted: Result<u64, StoreError>) -> AddressReply {
    match deleted {
        Ok(rows) => if rows == 0 {
            value(Status::NotFound, AddressNotice::AddressNotFound)
        } else {
            value(Status::Success, AddressNotice::AddressDeleted)
        },
        Err(_) => failure(),
    }
}

/// The answer of the create handler where nothing was inserted.
pub open spec fn insertion_failed() -> AddressReply {
    value(Status::InternalServerError, AddressNotice::InsertionFailed)
}

/// The answer of the create handler once the insert is done.
pub open spec fn created_reply(stored: Result<Option<Address>, StoreError>) -> AddressReply {
    match stored {
        Ok(Some(address)) => record(address),
        _ => insertion_failed(),
    }
}

/// The address that a request to create one makes, under `id`.
pub open spec fn created(id: u128, payload: AddressModelCreateDto) -> Address {
    Address { id, postal_code: payload.postal_code, city: payload.city }
}

/// The address that a request to update `existing` makes: the id stays.
pub open spec fn revised(existing: Address, payload: AddressModelPutDto) -> Address {
    Address { id: existing.id, postal_code: payload.postal_code, city: payload.city }
}

/// What the update handler decides from the address that the store found and
/// from what the request carries: the address to save, or the answer.
pub open spec fn update_plan(
    found: Result<Option<Address>, StoreError>,
    payload: Option<AddressModelPutDto>,
) -> Result<Address, AddressReply> {
    match (payload, found) {
        (Some(changes), Ok(Some(existing))) => Ok(revised(existing, changes)),
        (Some(_), Ok(None)) => Err(not_found()),
        _ => Err(failure()),
    }
}

/// `pages` is the least number of pages that hold all the rows.
pub proof fn pages_is_least(total: int, per_page: int)
    requires
        0 <= total,
        1 <= per_page,
    ensures
        0 <= pages(total, per_page) <= total,
        (pages(total, per_page) - 1) * per_page < total <= pages(total, per_page) * per_page
            || (total == 0 && pages(total, per_page) == 0),
        pages(total, per_page) == total / per_page + if total % per_page > 0 {
            1int
        } else {
            0int
        },
{
    let n = pages(total, per_page);
    assert(n == total / per_page + if total % per_page > 0 {
        1int
    } else {
        0int
    } && 0 <= n <= total && ((n - 1) * per_page < total <= n * per_page || (total == 0 && n
        == 0))) by (nonlinear_arith)
        requires
            0 <= total,
            1 <= per_page,
            n == (total + per_page - 1) / per_page,
    ;
}

/// Calls `uuid::Uuid::new_v4` and `uuid::Uuid::as_u128`. Believed: the result
/// has the version and the variant of a random UUID; its other bits are
/// drawn at random, and nothing is said of them.
#[verifier::external_body]
fn new_v4() -> (id: u128)
    ensures
        is_random_id(id),
{
    uuid::Uuid::new_v4().as_u128()
}

fn fail() -> (reply: AddressReply)
    ensures
        reply == failure(),
{
    AddressReply {
        status: Status::InternalServerError,
        body: AddressBody::Value(AddressNotice::Failed),
    }
}

/// The number of pages of `per_page` rows that `total` rows fill.
pub fn num_pages(total: u64, per_page: u64) -> (count: u64)
    requires
        per_page >= 1,
    ensures
        count == pages(total as int, per_page as int),
{
    proof {
        pages_is_least(total as int, per_page as int);
    }
    total / per_page + if total % per_page > 0 {
        1
    } else {
        0
    }
}

/// The read handler: `found` is the address that the store holds under the id
/// of the request, `None` where it holds none.
pub fn get_address_by_id(found: Result<Option<Address>, StoreError>) -> (reply: AddressReply)
    ensures
        reply == read_reply(found),
{
    match found {
        Ok(Some(address)) => AddressReply {
            status: Status::Success,
            body: AddressBody::Record(address),
        },
        Ok(None) => AddressReply {
            status: Status::NotFound,
            body: AddressBody::Text(AddressNotice::NotFound),
        },
        Err(_) => fail(),
    }
}

/// The list handler, before the store: the page to ask for, or the answer where
/// the page or the size of a page is 0.
pub fn get_all_addresses(query: ParamPaginationAddress) -> (window: Result<
    PageWindow,
    AddressReply,
>)
    ensures
        window == match window_of(query) {
            Some(page) => Ok::<PageWindow, AddressReply>(page),
            None => Err(failure()),
        },
{
    if query.page == 0 || query.per_page == 0 {
        return Err(fail());
    }
    let index = query.page - 1;
    match index.checked_mul(query.per_page) {
        Some(_) => Ok(PageWindow { index: Some(index), size: query.per_page }),
        None => Ok(PageWindow { index: None, size: query.per_page }),
    }
}

/// The list handler, after the store: `fetched` holds the rows of the page, in
/// the order of their ids, and the number of all rows.
pub fn addresses_listed(per_page: u64, fetched: Result<(Vec<Address>, u64), StoreError>) -> (reply:
    AddressReply)
    ensures
        reply == listed_reply(per_page, fetched),
{
    match fetched {
        Ok((rows, total)) => {
            if per_page == 0 || rows.len() as u64 > per_page {
                return fail();
            }
            let num_page = num_pages(total, per_page);
            AddressReply { status: Status::Success, body: AddressBody::Page { address: rows, num_page } }
        },
        Err(_) => fail(),
    }
}

/// The update handler, before the address is saved: `found` is the address that
/// the store holds under the id of the request, `payload` what the body of the
/// request holds, `None` where it holds no such thing.
pub fn update_address(
    found: Result<Option<Address>, StoreError>,
    payload: Option<AddressModelPutDto>,
) -> (plan: Result<Address, AddressReply>)
    ensures
        plan == update_plan(found, payload),
{
    match (payload, found) {
        (Some(changes), Ok(Some(existing))) => Ok(
            Address { id: existing.id, postal_code: changes.postal_code, city: changes.city },
        ),
        (Some(_), Ok(None)) => Err(
            AddressReply {
                status: Status::NotFound,
                body: AddressBody::Text(AddressNotice::NotFound),
            },
        ),
        _ => Err(fail()),
    }
}

/// The update handler, after the store: `saved` is the address as the store
/// now holds it.
pub fn address_updated(saved: Result<Address, StoreError>) -> (reply: AddressReply)
    ensures
        reply == updated_reply(saved),
{
    match saved {
        Ok(address) => AddressReply { status: Status::Success, body: AddressBody::Record(address) },
        Err(_) => fail(),
    }
}

/// The delete handler: `deleted` is the number of rows that the store removed.
pub fn delete_address(deleted: Result<u64, StoreError>) -> (reply: AddressReply)
    ensures
        reply == deleted_reply(deleted),
{
    match deleted {
        Ok(0) => AddressReply {
            status: Status::NotFound,
            body: AddressBody::Value(AddressNotice::AddressNotFound),
        },
        Ok(_) => AddressReply {
            status: Status::Success,
            body: AddressBody::Value(AddressNotice::AddressDeleted),
        },
        Err(_) => fail(),
    }
}

/// The address that `payload` asks for, under `id`.
pub fn new_address(id: u128, payload: AddressModelCreateDto) -> (address: Address)
    ensures
        address == created(id, payload),
{
    Address { id, postal_code: payload.postal_code, city: payload.city }
}

/// The create handler, before the store: the address to insert, under an id
/// drawn at random, or the answer where the body of the request holds no
/// address.
pub fn create_address(payload: Option<AddressModelCreateDto>) -> (plan: Result<
    Address,
    AddressReply,
>)
    ensures
        match payload {
            Some(wanted) => {
                &&& plan matches Ok(address)
                &&& is_random_id(address.id)
                &&& address == created(address.id, wanted)
            },
            None => plan == Err::<Address, AddressReply>(insertion_failed()),
        },
{
    match payload {
        Some(wanted) => Ok(new_address(new_v4(), wanted)),
        None => Err(
            AddressReply {
                status: Status::InternalServerError,
                body: AddressBody::Value(AddressNotice::InsertionFailed),
            },
        ),
    }
}

/// The create handler, after the store: `stored` is the address that the store
/// holds under the new id once the insert is done.
pub fn address_created(stored: Result<Option<Address>, StoreError>) -> (reply: AddressReply)
    ensures
        reply == created_reply(stored),
{
    match stored {
        Ok(Some(address)) => AddressReply {
            status: Status::Success,
            body: AddressBody::Record(address),
        },
        _ => AddressReply {
            status: Status::InternalServerError,
            body: AddressBody::Value(AddressNotice::InsertionFailed),
        },
    }
}

} // verus!
