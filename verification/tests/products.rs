use shop_api::http::Status;
use shop_api::product::{
    handle_client, handle_delete_request, handle_get_all_request, handle_get_request,
    handle_post_request, handle_put_request, product_created, product_deleted, product_found,
    product_updated, products_listed, Body, Command, Notice, Product, Reply,
};
use shop_api::store::StoreError;

fn widget() -> Product<f64> {
    Product {
        id: None,
        name: "Widget".to_string(),
        price: 9.99,
        stock: 10,
        description: "d".to_string(),
        date_added: "2024-01-01".to_string(),
    }
}

fn says(status: Status, notice: Notice) -> Reply<f64> {
    Reply { status, body: Body::Notice(notice) }
}

fn error() -> Command<f64> {
    Command::Answer(says(Status::InternalServerError, Notice::Failed))
}

#[test]
fn notices_have_their_texts() {
    assert_eq!(Notice::Created.text(), "Product created");
    assert_eq!(Notice::Updated.text(), "Product updated");
    assert_eq!(Notice::Deleted.text(), "Product deleted");
    assert_eq!(Notice::Missing.text(), "Product not found");
    assert_eq!(Notice::Failed.text(), "Error");
    assert_eq!(Notice::NoRoute.text(), "404 Not Found");
}

#[test]
fn post_inserts_the_payload() {
    assert_eq!(handle_post_request(Some(widget())), Command::Insert(widget()));
}

#[test]
fn post_without_a_payload_is_an_error() {
    assert_eq!(handle_post_request::<f64>(None), error());
}

#[test]
fn get_selects_by_the_id_of_the_path() {
    assert_eq!(handle_get_request::<f64>("GET /products/42 HTTP/1.1\r\n\r\n"), Command::Select(42));
    assert_eq!(handle_get_request::<f64>("GET /products/-7"), Command::Select(-7));
}

#[test]
fn get_without_an_id_is_an_error() {
    assert_eq!(handle_get_request::<f64>("GET /products/ HTTP/1.1"), error());
    assert_eq!(handle_get_request::<f64>("GET /products/abc HTTP/1.1"), error());
    assert_eq!(handle_get_request::<f64>("GET /products/"), error());
    assert_eq!(handle_get_request::<f64>("GET /products/99999999999 HTTP/1.1"), error());
}

#[test]
fn get_all_selects_everything() {
    assert_eq!(handle_get_all_request::<f64>(), Command::SelectAll);
}

#[test]
fn put_updates_by_the_id_of_the_path() {
    assert_eq!(
        handle_put_request("PUT /products/3 HTTP/1.1\r\n\r\n{}", Some(widget())),
        Command::Update(3, widget())
    );
}

#[test]
fn put_without_an_id_or_a_payload_is_an_error() {
    assert_eq!(handle_put_request("PUT /products/x HTTP/1.1", Some(widget())), error());
    assert_eq!(handle_put_request::<f64>("PUT /products/3 HTTP/1.1", None), error());
    assert_eq!(handle_put_request::<f64>("PUT /products/x HTTP/1.1", None), error());
}

#[test]
fn delete_deletes_by_the_id_of_the_path() {
    assert_eq!(handle_delete_request::<f64>("DELETE /products/8 HTTP/1.1"), Command::Delete(8));
}

#[test]
fn delete_without_an_id_is_an_error() {
    assert_eq!(handle_delete_request::<f64>("DELETE /products/ HTTP/1.1"), error());
}

#[test]
fn the_dispatcher_sends_each_request_to_its_handler() {
    assert_eq!(
        handle_client("POST /products HTTP/1.1\r\n\r\n{}", Some(widget())),
        Command::Insert(widget())
    );
    assert_eq!(handle_client::<f64>("GET /products/5 HTTP/1.1", None), Command::Select(5));
    assert_eq!(handle_client::<f64>("GET /products HTTP/1.1", None), Command::SelectAll);
    assert_eq!(
        handle_client("PUT /products/5 HTTP/1.1", Some(widget())),
        Command::Update(5, widget())
    );
    assert_eq!(handle_client::<f64>("DELETE /products/5 HTTP/1.1", None), Command::Delete(5));
}

#[test]
fn the_dispatcher_answers_what_it_cannot_route() {
    let not_found = Command::Answer(says(Status::NotFound, Notice::NoRoute));
    assert_eq!(handle_client::<f64>("PATCH /products/5 HTTP/1.1", None), not_found);
    assert_eq!(handle_client::<f64>("GET /other HTTP/1.1", None), not_found);
    assert_eq!(handle_client("PUT /products", Some(widget())), not_found);
    assert_eq!(handle_client::<f64>("", None), not_found);
}

#[test]
fn the_dispatcher_ignores_a_payload_that_the_handler_does_not_read() {
    assert_eq!(handle_client("GET /products/5 HTTP/1.1", Some(widget())), Command::Select(5));
    assert_eq!(handle_client("DELETE /products/5 HTTP/1.1", Some(widget())), Command::Delete(5));
    assert_eq!(handle_client("GET /products", Some(widget())), Command::SelectAll);
}

#[test]
fn a_post_to_a_longer_path_still_creates() {
    assert_eq!(
        handle_client("POST /products/12 HTTP/1.1", Some(widget())),
        Command::Insert(widget())
    );
}

#[test]
fn created_answers() {
    assert_eq!(product_created::<f64>(Ok(1)), says(Status::Success, Notice::Created));
    assert_eq!(product_created::<f64>(Ok(0)), says(Status::Success, Notice::Created));
    assert_eq!(
        product_created::<f64>(Err(StoreError)),
        says(Status::InternalServerError, Notice::Failed)
    );
}

#[test]
fn found_answers() {
    let mut row = widget();
    row.id = Some(4);
    assert_eq!(
        product_found(Ok(Some(row.clone()))),
        Reply { status: Status::Success, body: Body::Record(row) }
    );
    assert_eq!(product_found::<f64>(Ok(None)), says(Status::NotFound, Notice::Missing));
    assert_eq!(
        product_found::<f64>(Err(StoreError)),
        says(Status::InternalServerError, Notice::Failed)
    );
}

#[test]
fn listed_answers() {
    let mut first = widget();
    first.id = Some(1);
    let mut second = widget();
    second.id = Some(2);
    second.name = "Gadget".to_string();
    assert_eq!(
        products_listed(Ok(vec![first.clone(), second.clone()])),
        Reply { status: Status::Success, body: Body::Records(vec![first, second]) }
    );
    assert_eq!(
        products_listed::<f64>(Ok(vec![])),
        Reply { status: Status::Success, body: Body::Records(vec![]) }
    );
    assert_eq!(
        products_listed::<f64>(Err(StoreError)),
        says(Status::InternalServerError, Notice::Failed)
    );
}

#[test]
fn updated_answers() {
    assert_eq!(product_updated::<f64>(Ok(1)), says(Status::Success, Notice::Updated));
    assert_eq!(product_updated::<f64>(Ok(0)), says(Status::NotFound, Notice::Missing));
    assert_eq!(
        product_updated::<f64>(Err(StoreError)),
        says(Status::InternalServerError, Notice::Failed)
    );
}

#[test]
fn deleted_answers() {
    assert_eq!(product_deleted::<f64>(Ok(1)), says(Status::Success, Notice::Deleted));
    assert_eq!(product_deleted::<f64>(Ok(3)), says(Status::Success, Notice::Deleted));
    assert_eq!(product_deleted::<f64>(Ok(0)), says(Status::NotFound, Notice::Missing));
    assert_eq!(
        product_deleted::<f64>(Err(StoreError)),
        says(Status::InternalServerError, Notice::Failed)
    );
}

#[test]
fn each_command_has_its_statement() {
    assert_eq!(
        Command::Insert(widget()).statement(),
        Some("INSERT INTO products (name, price, stock, description, date_added) VALUES ($1, $2, $3, $4, $5)")
    );
    assert_eq!(
        Command::<f64>::Select(1).statement(),
        Some("SELECT * FROM products WHERE id = $1")
    );
    assert_eq!(Command::<f64>::SelectAll.statement(), Some("SELECT * FROM products"));
    assert_eq!(
        Command::Update(1, widget()).statement(),
        Some("UPDATE products SET name = $1, price = $2, stock = $3, description = $4, date_added = $5 WHERE id = $6")
    );
    assert_eq!(
        Command::<f64>::Delete(1).statement(),
        Some("DELETE FROM products WHERE id = $1")
    );
    assert_eq!(error().statement(), None);
}

#[test]
fn an_update_never_sets_the_id() {
    let sql = Command::Update(1, widget()).statement().unwrap();
    let assignments = sql.split(" WHERE ").next().unwrap();
    assert!(!assignments.contains(" id ="));
    assert!(sql.ends_with("WHERE id = $6"));
}
