//! The product handlers. Each handler has two halves: what it asks of the
//! store, decided from the request, and what it answers, decided from what the
//! store gave back. The store itself is not in this library.

use crate::http::Status;
use crate::request::{get_id, parse_i32, parse_id, path_id};
use crate::route::{route, route_of, Route};
use crate::store::StoreError;
use vstd::prelude::*;

verus! {

/// A product. `P` is the type of its price, which no handler looks into.
#[derive(Clone, Debug, PartialEq)]
pub struct Product<P> {
    /// The key that the store gave it; a request need not carry one.
    pub id: Option<i32>,
    pub name: String,
    pub price: P,
    pub stock: i32,
    pub description: String,
    pub date_added: String,
}

/// The fixed texts that a response can carry.
#[derive(Clone, Copy, Debug, PartialEq, Eq, Structural)]
pub enum Notice {
    Created,
    Updated,
    Deleted,
    /// The product does not exist.
    Missing,
    /// The request could not be served.
    Failed,
    /// No handler takes the request.
    NoRoute,
}

/// What a response carries after its status line.
#[derive(Clone, Debug, PartialEq)]
pub enum Body<P> {
    Notice(Notice),
    Record(Product<P>),
    Records(Vec<Product<P>>),
}

/// The answer to a request.
#[derive(Clone, Debug, PartialEq)]
pub struct Reply<P> {
    pub status: Status,
    pub body: Body<P>,
}

/// What a handler asks for once it has read the request.
#[derive(Clone, Debug, PartialEq)]
pub enum Command<P> {
    /// Insert the product; the store assigns the id.
    Insert(Product<P>),
    /// Select the product with this id.
    Select(i32),
    /// Select every product.
    SelectAll,
    /// Replace every field but the id of the product with this id.
    Update(i32, Product<P>),
    /// Delete the product with this id.
    Delete(i32),
    /// Nothing is asked of the store: this is the answer.
    Answer(Reply<P>),
}

impl<P> Command<P> {
    /// The statement that stands for the command, where it is one for the
    /// store. Its parameters are, in this order, the name, the price, the
    /// stock, the description and the date of the product, as far as the
    /// command holds a product, and then the id, as far as it holds one.
    pub open spec fn sql(self) -> Option<Seq<char>> {
        match self {
            Command::Insert(_) => Some(
                "INSERT INTO products (name, price, stock, description, date_added) VALUES ($1, $2, $3, $4, $5)"@,
            ),
            Command::Select(_) => Some("SELECT * FROM products WHERE id = $1"@),
            Command::SelectAll => Some("SELECT * FROM products"@),
            Command::Update(_, _) => Some(
                "UPDATE products SET name = $1, price = $2, stock = $3, description = $4, date_added = $5 WHERE id = $6"@,
            ),
            Command::Delete(_) => Some("DELETE FROM products WHERE id = $1"@),
            Command::Answer(_) => None,
        }
    }

    /// The statement that stands for the command, where it is one for the
    /// store.
    pub fn statement(&self) -> (text: Option<&'static str>)
        ensures
            match text {
                Some(text) => self.sql() == Some(text@),
                None => self.sql().is_none(),
            },
    {
        match self {
            Command::Insert(_) => Some(
                "INSERT INTO products (name, price, stock, description, date_added) VALUES ($1, $2, $3, $4, $5)",
            ),
            Command::Select(_) => Some("SELECT * FROM products WHERE id = $1"),
            Command::SelectAll => Some("SELECT * FROM products"),
            Command::Update(_, _) => Some(
                "UPDATE products SET name = $1, price = $2, stock = $3, description = $4, date_added = $5 WHERE id = $6",
            ),
            Command::Delete(_) => Some("DELETE FROM products WHERE id = $1"),
            Command::Answer(_) => None,
        }
    }
}

impl Notice {
    /// The text of the notice.
    pub open spec fn words(self) -> Seq<char> {
        match self {
            Notice::Created => "Product created"@,
            Notice::Updated => "Product updated"@,
            Notice::Deleted => "Product deleted"@,
            Notice::Missing => "Product not found"@,
            Notice::Failed => "Error"@,
            Notice::NoRoute => "404 Not Found"@,
        }
    }

    /// The text of the notice.
    pub fn text(self) -> (text: &'static str)
        ensures
            text@ == self.words(),
    {
        match self {
            Notice::Created => "Product created",
            Notice::Updated => "Product updated",
            Notice::Deleted => "Product deleted",
            Notice::Missing => "Product not found",
            Notice::Failed => "Error",
            Notice::NoRoute => "404 Not Found",
        }
    }
}

/// A response that carries a notice.
pub open spec fn notice<P>(status: Status, notice: Notice) -> Reply<P> {
    Reply { status, body: Body::Notice(notice) }
}

/// The answer to a request that could not be served.
pub open spec fn failure<P>() -> Reply<P> {
    notice(Status::InternalServerError, Notice::Failed)
}

/// The answer where the product does not exist.
pub open spec fn missing<P>() -> Reply<P> {
    notice(Status::NotFound, Notice::Missing)
}

/// What the create handler asks for: the product of the request is inserted;
/// a request without one cannot be served.
pub open spec fn post_plan<P>(payload: Option<Product<P>>) -> Command<P> {
    match payload {
        Some(product) => Command::Insert(product),
        None => Command::Answer(failure()),
    }
}

/// What the read handler asks for: the product whose id the path holds; a
/// request without an id cannot be served.
pub open spec fn get_plan<P>(request: Seq<char>) -> Command<P> {
    match parse_i32(path_id(request)) {
        Some(id) => Command::Select(id),
        None => Command::Answer(failure()),
    }
}

/// What the update handler asks for: the product whose id the path holds
/// becomes the product of the request; without either the request cannot
/// be served.
pub open spec fn put_plan<P>(request: Seq<char>, payload: Option<Product<P>>) -> Command<P> {
    match (parse_i32(path_id(request)), payload) {
        (Some(id), Some(product)) => Command::Update(id, product),
        _ => Command::Answer(failure()),
    }
}

/// What the delete handler asks for: the product whose id the path holds goes;
/// a request without an id cannot be served.
pub open spec fn delete_plan<P>(request: Seq<char>) -> Command<P> {
    match parse_i32(path_id(request)) {
        Some(id) => Command::Delete(id),
        None => Command::Answer(failure()),
    }
}

/// What a request asks for: what the handler asks for that it goes to.
pub open spec fn plan<P>(request: Seq<char>, payload: Option<Product<P>>) -> Command<P> {
    match route_of(request) {
        Route::Create => post_plan(payload),
        Route::Read => get_plan(request),
        Route::List => Command::SelectAll,
        Route::Update => put_plan(request, payload),
        Route::Delete => delete_plan(request),
        Route::Unmatched => Command::Answer(notice(Status::NotFound, Notice::NoRoute)),
    }
}

/// The answer of the create handler.
pub open spec fn created_reply<P>(inserted: Result<u64, StoreError>) -> Reply<P> {
    match inserted {
        Ok(_) => notice(Status::Success, Notice::Created),
        Err(_) => failure(),
    }
}

/// The answer of the read handler.
pub open spec fn found_reply<P>(row: Result<Option<Product<P>>, StoreError>) -> Reply<P> {
    match row {
        Ok(Some(product)) => Reply { status: Status::Success, body: Body::Record(product) },
        Ok(None) => missing(),
        Err(_) => failure(),
    }
}

/// The answer of the list handler.
pub open spec fn listed_reply<P>(rows: Result<Vec<Product<P>>, StoreError>) -> Reply<P> {
    match rows {
        Ok(products) => Reply { status: Status::Success, body: Body::Records(products) },
        Err(_) => failure(),
    }
}

/// The answer of the update handler.
pub open spec fn updated_reply<P>(updated: Result<u64, StoreError>) -> Reply<P> {
    match updated {
        Ok(rows) => if rows == 0 {
            missing()
        } else {
            notice(Status::Success, Notice::Updated)
        },
        Err(_) => failure(),
    }
}

/// The answer of the delete handler.
pub open spec fn deleted_reply<P>(deleted: Result<u64, StoreError>) -> Reply<P> {
    match deleted {
        Ok(rows) => if rows == 0 {
            missing()
        } else {
            notice(Status::Success, Notice::Deleted)
        },
        Err(_) => failure(),
    }
}

fn fail<P>() -> (reply: Reply<P>)
    ensures
        reply == failure::<P>(),
{
    Reply { status: Status::InternalServerError, body: Body::Notice(Notice::Failed) }
}

fn miss<P>() -> (reply: Reply<P>)
    ensures
        reply == missing::<P>(),
{
    Reply { status: Status::NotFound, body: Body::Notice(Notice::Missing) }
}

/// The create handler, before the store: `payload` is the product that the
/// body of the request holds, `None` where it holds none.
pub fn handle_post_request<P>(payload: Option<Product<P>>) -> (command: Command<P>)
    ensures
        command == post_plan(payload),
{
    match payload {
        Some(product) => Command::Insert(product),
        None => Command::Answer(fail()),
    }
}

/// The read handler, before the store.
pub fn handle_get_request<P>(request: &str) -> (command: Command<P>)
    ensures
        command == get_plan::<P>(request@),
{
    match parse_id(get_id(request)) {
        Some(id) => Command::Select(id),
        None => Command::Answer(fail()),
    }
}

/// The list handler, before the store.
pub fn handle_get_all_request<P>() -> (command: Command<P>)
    ensures
        command == Command::<P>::SelectAll,
{
    Command::SelectAll
}

/// The update handler, before the store: `payload` is the product that the
/// body of the request holds, `None` where it holds none.
pub fn handle_put_request<P>(request: &str, payload: Option<Product<P>>) -> (command: Command<P>)
    ensures
        command == put_plan(request@, payload),
{
    match (parse_id(get_id(request)), payload) {
        (Some(id), Some(product)) => Command::Update(id, product),
        _ => Command::Answer(fail()),
    }
}

/// The delete handler, before the store.
pub fn handle_delete_request<P>(request: &str) -> (command: Command<P>)
    ensures
        command == delete_plan::<P>(request@),
{
    match parse_id(get_id(request)) {
        Some(id) => Command::Delete(id),
        None => Command::Answer(fail()),
    }
}

/// The dispatcher: sends `request` to its handler and returns what that handler
/// asks for. `payload` is the product that the body of the request holds,
/// `None` where it holds none.
pub fn handle_client<P>(request: &str, payload: Option<Product<P>>) -> (command: Command<P>)
    ensures
        command == plan(request@, payload),
{
    match route(request) {
        Route::Create => handle_post_request(payload),
        Route::Read => handle_get_request(request),
        Route::List => handle_get_all_request(),
        Route::Update => handle_put_request(request, payload),
        Route::Delete => handle_delete_request(request),
        Route::Unmatched => Command::Answer(
            Reply { status: Status::NotFound, body: Body::Notice(Notice::NoRoute) },
        ),
    }
}

/// The create handler, after the store: `inserted` is the number of rows that
/// the insert made.
pub fn product_created<P>(inserted: Result<u64, StoreError>) -> (reply: Reply<P>)
    ensures
        reply == created_reply::<P>(inserted),
{
    match inserted {
        Ok(_) => Reply { status: Status::Success, body: Body::Notice(Notice::Created) },
        Err(_) => fail(),
    }
}

/// The read handler, after the store: `row` is the product that the select
/// found, `None` where it found none.
pub fn product_found<P>(row: Result<Option<Product<P>>, StoreError>) -> (reply: Reply<P>)
    ensures
        reply == found_reply(row),
{
    match row {
        Ok(Some(product)) => Reply { status: Status::Success, body: Body::Record(product) },
        Ok(None) => miss(),
        Err(_) => fail(),
    }
}

/// The list handler, after the store: `rows` are the products that the select
/// found.
pub fn products_listed<P>(rows: Result<Vec<Product<P>>, StoreError>) -> (reply: Reply<P>)
    ensures
        reply == listed_reply(rows),
{
    match rows {
        Ok(products) => Reply { status: Status::Success, body: Body::Records(products) },
        Err(_) => fail(),
    }
}

/// The update handler, after the store: `updated` is the number of rows that
/// the update changed.
pub fn product_updated<P>(updated: Result<u64, StoreError>) -> (reply: Reply<P>)
    ensures
        reply == updated_reply::<P>(updated),
{
    match updated {
        Ok(0) => miss(),
        Ok(_) => Reply { status: Status::Success, body: Body::Notice(Notice::Updated) },
        Err(_) => fail(),
    }
}

/// The delete handler, after the store: `deleted` is the number of rows that
/// the delete removed.
pub fn product_deleted<P>(deleted: Result<u64, StoreError>) -> (reply: Reply<P>)
    ensures
        reply == deleted_reply::<P>(deleted),
{
    match deleted {
        Ok(0) => miss(),
        Ok(_) => Reply { status: Status::Success, body: Body::Notice(Notice::Deleted) },
        Err(_) => fail(),
    }
}

} // verus!
