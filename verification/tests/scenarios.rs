use shop_api::address::{
    address_created, address_updated, addresses_listed, create_address, delete_address,
    get_address_by_id, get_all_addresses, update_address, Address, AddressBody,
    AddressModelCreateDto, AddressModelPutDto, AddressNotice, AddressReply,
    ParamPaginationAddress,
};
use shop_api::http::{write_response, Status};
use shop_api::product::{
    handle_client, product_created, product_deleted, product_found, product_updated,
    products_listed, Body, Command, Notice, Product, Reply,
};
use shop_api::request::{decode_request, get_product_request_body};
use shop_api::store::StoreError;

/// A table of products in memory, which gives out ids as a serial column does.
struct Shelf {
    rows: Vec<Product<f64>>,
    next: i32,
}

fn decode(body: &str) -> Option<Product<f64>> {
    let value: serde_json::Value = serde_json::from_str(body).ok()?;
    let object = value.as_object()?;
    Some(Product {
        id: None,
        name: object.get("name")?.as_str()?.to_string(),
        price: object.get("price")?.as_f64()?,
        stock: i32::try_from(object.get("stock")?.as_i64()?).ok()?,
        description: object.get("description")?.as_str()?.to_string(),
        date_added: object.get("date_added")?.as_str()?.to_string(),
    })
}

fn with_id(id: i32, product: Product<f64>) -> Product<f64> {
    Product { id: Some(id), ..product }
}

impl Shelf {
    fn new() -> Shelf {
        Shelf { rows: Vec::new(), next: 1 }
    }

    fn run(&mut self, command: Command<f64>) -> Reply<f64> {
        match command {
            Command::Insert(product) => {
                self.rows.push(with_id(self.next, product));
                self.next += 1;
                product_created(Ok(1))
            }
            Command::Select(id) => {
                product_found(Ok(self.rows.iter().find(|row| row.id == Some(id)).cloned()))
            }
            Command::SelectAll => products_listed(Ok(self.rows.clone())),
            Command::Update(id, product) => {
                let mut changed = 0;
                for row in self.rows.iter_mut() {
                    if row.id == Some(id) {
                        *row = with_id(id, product.clone());
                        changed += 1;
                    }
                }
                product_updated(Ok(changed))
            }
            Command::Delete(id) => {
                let before = self.rows.len();
                self.rows.retain(|row| row.id != Some(id));
                product_deleted(Ok((before - self.rows.len()) as u64))
            }
            Command::Answer(reply) => reply,
        }
    }

    fn serve(&mut self, bytes: &[u8]) -> Reply<f64> {
        let request = decode_request(bytes);
        let payload = decode(get_product_request_body(&request));
        self.run(handle_client(&request, payload))
    }
}

fn says(status: Status, notice: Notice) -> Reply<f64> {
    Reply { status, body: Body::Notice(notice) }
}

fn widget() -> Product<f64> {
    Product {
        id: None,
        name: "Widget".to_string(),
        price: 9.99,
        stock: 10,
        description: "d".to_string(),
        date_added: "2024-01-01".to_string(),
    }
}

const POST_WIDGET: &str = "POST /products HTTP/1.1\r\nHost: localhost:8080\r\nContent-Type: application/json\r\n\r\n{\"name\":\"Widget\",\"price\":9.99,\"stock\":10,\"description\":\"d\",\"date_added\":\"2024-01-01\"}";

#[test]
fn a_product_that_is_posted_is_got_back() {
    let mut shelf = Shelf::new();
    let created = shelf.serve(POST_WIDGET.as_bytes());
    assert_eq!(created, says(Status::Success, Notice::Created));
    let read = shelf.serve(b"GET /products/1 HTTP/1.1\r\nHost: localhost:8080\r\n\r\n");
    assert_eq!(read, Reply { status: Status::Success, body: Body::Record(with_id(1, widget())) });
    match read.body {
        Body::Record(product) => {
            assert_eq!(product.id, Some(1));
            assert_eq!(product.name, "Widget");
            assert_eq!(product.price, 9.99);
            assert_eq!(product.stock, 10);
            assert_eq!(product.description, "d");
            assert_eq!(product.date_added, "2024-01-01");
        }
        other => panic!("no record: {:?}", other),
    }
}

#[test]
fn the_response_to_a_post_on_the_wire() {
    let mut shelf = Shelf::new();
    let created = shelf.serve(POST_WIDGET.as_bytes());
    let text = match created.body {
        Body::Notice(notice) => notice.text(),
        other => panic!("no notice: {:?}", other),
    };
    assert_eq!(
        write_response(created.status, text),
        b"HTTP/1.1 200 OK\r\nContent-Type: application/json\r\n\r\nProduct created".to_vec()
    );
}

#[test]
fn a_post_with_a_body_that_is_no_product() {
    let mut shelf = Shelf::new();
    let reply = shelf.serve(b"POST /products HTTP/1.1\r\n\r\n{\"name\":\"Widget\"}");
    assert_eq!(reply, says(Status::InternalServerError, Notice::Failed));
    let reply = shelf.serve(b"POST /products HTTP/1.1\r\n\r\nnot json");
    assert_eq!(reply, says(Status::InternalServerError, Notice::Failed));
    let reply = shelf.serve(b"POST /products HTTP/1.1\r\n");
    assert_eq!(reply, says(Status::InternalServerError, Notice::Failed));
    assert!(shelf.rows.is_empty());
}

#[test]
fn a_body_cut_short_is_no_product() {
    let mut shelf = Shelf::new();
    let cut = &POST_WIDGET.as_bytes()[..POST_WIDGET.len() - 20];
    assert_eq!(shelf.serve(cut), says(Status::InternalServerError, Notice::Failed));
}

#[test]
fn an_id_that_was_never_created_is_not_found() {
    let mut shelf = Shelf::new();
    shelf.serve(POST_WIDGET.as_bytes());
    let missing = says(Status::NotFound, Notice::Missing);
    assert_eq!(shelf.serve(b"GET /products/2 HTTP/1.1\r\n\r\n"), missing);
    assert_eq!(shelf.serve(b"DELETE /products/2 HTTP/1.1\r\n\r\n"), missing);
    let put = POST_WIDGET.replace("POST /products", "PUT /products/2");
    assert_eq!(shelf.serve(put.as_bytes()), missing);
    assert_eq!(shelf.rows, vec![with_id(1, widget())]);
}

#[test]
fn a_second_delete_is_not_found() {
    let mut shelf = Shelf::new();
    shelf.serve(POST_WIDGET.as_bytes());
    assert_eq!(
        shelf.serve(b"DELETE /products/1 HTTP/1.1\r\n\r\n"),
        says(Status::Success, Notice::Deleted)
    );
    assert_eq!(
        shelf.serve(b"DELETE /products/1 HTTP/1.1\r\n\r\n"),
        says(Status::NotFound, Notice::Missing)
    );
    assert_eq!(
        shelf.serve(b"GET /products/1 HTTP/1.1\r\n\r\n"),
        says(Status::NotFound, Notice::Missing)
    );
}

#[test]
fn a_put_changes_every_field_but_the_id() {
    let mut shelf = Shelf::new();
    shelf.serve(POST_WIDGET.as_bytes());
    shelf.serve(POST_WIDGET.as_bytes());
    let put = "PUT /products/2 HTTP/1.1\r\n\r\n{\"id\":77,\"name\":\"Gadget\",\"price\":1.5,\"stock\":3,\"description\":\"new\",\"date_added\":\"2025-02-02\"}";
    assert_eq!(shelf.serve(put.as_bytes()), says(Status::Success, Notice::Updated));
    let gadget = Product {
        id: Some(2),
        name: "Gadget".to_string(),
        price: 1.5,
        stock: 3,
        description: "new".to_string(),
        date_added: "2025-02-02".to_string(),
    };
    assert_eq!(
        shelf.serve(b"GET /products/2 HTTP/1.1\r\n\r\n"),
        Reply { status: Status::Success, body: Body::Record(gadget.clone()) }
    );
    assert_eq!(
        shelf.serve(b"GET /products/1 HTTP/1.1\r\n\r\n"),
        Reply { status: Status::Success, body: Body::Record(with_id(1, widget())) }
    );
    assert_eq!(
        shelf.serve(b"GET /products HTTP/1.1\r\n\r\n"),
        Reply { status: Status::Success, body: Body::Records(vec![with_id(1, widget()), gadget]) }
    );
}

#[test]
fn a_request_for_no_handler() {
    let mut shelf = Shelf::new();
    assert_eq!(
        shelf.serve(b"GET /users HTTP/1.1\r\n\r\n"),
        says(Status::NotFound, Notice::NoRoute)
    );
    assert_eq!(
        shelf.serve(b"PATCH /products/1 HTTP/1.1\r\n\r\n"),
        says(Status::NotFound, Notice::NoRoute)
    );
    assert_eq!(
        write_response(Status::NotFound, Notice::NoRoute.text()),
        b"HTTP/1.1 404 Not Found\r\n\r\n404 Not Found".to_vec()
    );
}

#[test]
fn a_request_without_an_id() {
    let mut shelf = Shelf::new();
    let failed = says(Status::InternalServerError, Notice::Failed);
    assert_eq!(shelf.serve(b"GET /products/abc HTTP/1.1\r\n\r\n"), failed);
    assert_eq!(shelf.serve(b"DELETE /products/ HTTP/1.1\r\n\r\n"), failed);
    assert_eq!(shelf.serve(b"GET /products/\xFF\xFE HTTP/1.1\r\n\r\n"), failed);
}

#[test]
fn a_store_that_fails() {
    let failed = says(Status::InternalServerError, Notice::Failed);
    assert_eq!(product_created::<f64>(Err(StoreError)), failed);
    assert_eq!(product_found::<f64>(Err(StoreError)), failed);
    assert_eq!(products_listed::<f64>(Err(StoreError)), failed);
    assert_eq!(product_updated::<f64>(Err(StoreError)), failed);
    assert_eq!(product_deleted::<f64>(Err(StoreError)), failed);
}

/// A table of addresses in memory, in the order of their ids.
struct Book {
    rows: Vec<Address>,
}

impl Book {
    fn find(&self, id: u128) -> Option<Address> {
        self.rows.iter().find(|row| row.id == id).cloned()
    }

    fn create(&mut self, payload: Option<AddressModelCreateDto>) -> AddressReply {
        match create_address(payload) {
            Ok(address) => {
                let id = address.id;
                self.rows.push(address);
                self.rows.sort_by_key(|row| row.id);
                address_created(Ok(self.find(id)))
            }
            Err(reply) => reply,
        }
    }

    fn read(&self, id: u128) -> AddressReply {
        get_address_by_id(Ok(self.find(id)))
    }

    fn update(&mut self, id: u128, payload: Option<AddressModelPutDto>) -> AddressReply {
        match update_address(Ok(self.find(id)), payload) {
            Ok(address) => {
                for row in self.rows.iter_mut() {
                    if row.id == id {
                        *row = address.clone();
                    }
                }
                address_updated(Ok(address))
            }
            Err(reply) => reply,
        }
    }

    fn delete(&mut self, id: u128) -> AddressReply {
        let before = self.rows.len();
        self.rows.retain(|row| row.id != id);
        delete_address(Ok((before - self.rows.len()) as u64))
    }

    fn list(&self, page: u64, per_page: u64) -> AddressReply {
        match get_all_addresses(ParamPaginationAddress { page, per_page }) {
            Ok(window) => {
                let rows: Vec<Address> = match window.index {
                    Some(index) => self
                        .rows
                        .iter()
                        .skip(usize::try_from(index * window.size).unwrap_or(usize::MAX))
                        .take(usize::try_from(window.size).unwrap_or(usize::MAX))
                        .cloned()
                        .collect(),
                    None => Vec::new(),
                };
                addresses_listed(window.size, Ok((rows, self.rows.len() as u64)))
            }
            Err(reply) => reply,
        }
    }
}

fn paris() -> AddressModelCreateDto {
    AddressModelCreateDto { postal_code: "75000".to_string(), city: "Paris".to_string() }
}

fn id_of(reply: &AddressReply) -> u128 {
    match &reply.body {
        AddressBody::Record(address) => address.id,
        other => panic!("no record: {:?}", other),
    }
}

#[test]
fn an_address_that_is_posted_is_got_back() {
    let mut book = Book { rows: Vec::new() };
    let created = book.create(Some(paris()));
    assert_eq!(created.status, Status::Success);
    let id = id_of(&created);
    assert_eq!(
        created.body,
        AddressBody::Record(Address {
            id,
            postal_code: "75000".to_string(),
            city: "Paris".to_string()
        })
    );
    assert_eq!(book.read(id), created);
}

#[test]
fn an_address_that_was_never_created_is_not_found() {
    let mut book = Book { rows: Vec::new() };
    let id = id_of(&book.create(Some(paris())));
    let other = id ^ 1;
    assert_eq!(book.read(other).status, Status::NotFound);
    assert_eq!(book.read(other).body, AddressBody::Text(AddressNotice::NotFound));
    let changes = AddressModelPutDto { postal_code: "1".to_string(), city: "x".to_string() };
    assert_eq!(book.update(other, Some(changes)).status, Status::NotFound);
    assert_eq!(book.delete(other).status, Status::NotFound);
    assert_eq!(book.delete(other).body, AddressBody::Value(AddressNotice::AddressNotFound));
    assert_eq!(book.rows.len(), 1);
}

#[test]
fn a_second_delete_of_an_address_is_not_found() {
    let mut book = Book { rows: Vec::new() };
    let id = id_of(&book.create(Some(paris())));
    let first = book.delete(id);
    assert_eq!(first.status, Status::Success);
    assert_eq!(first.body, AddressBody::Value(AddressNotice::AddressDeleted));
    let second = book.delete(id);
    assert_eq!(second.status, Status::NotFound);
    assert_eq!(second.body, AddressBody::Value(AddressNotice::AddressNotFound));
    assert_eq!(book.read(id).status, Status::NotFound);
}

#[test]
fn a_put_keeps_the_id_of_an_address() {
    let mut book = Book { rows: Vec::new() };
    let id = id_of(&book.create(Some(paris())));
    let other = id_of(&book.create(Some(paris())));
    let changes = AddressModelPutDto { postal_code: "69000".to_string(), city: "Lyon".to_string() };
    let updated = book.update(id, Some(changes));
    let lyon = Address { id, postal_code: "69000".to_string(), city: "Lyon".to_string() };
    assert_eq!(
        updated,
        AddressReply { status: Status::Success, body: AddressBody::Record(lyon.clone()) }
    );
    assert_eq!(book.read(id), updated);
    assert_eq!(
        book.read(other).body,
        AddressBody::Record(Address {
            id: other,
            postal_code: "75000".to_string(),
            city: "Paris".to_string()
        })
    );
}

#[test]
fn pages_of_addresses() {
    let mut book = Book { rows: Vec::new() };
    for _ in 0..7 {
        book.create(Some(paris()));
    }
    let mut seen: Vec<u128> = Vec::new();
    for page in 1..=3 {
        match book.list(page, 3).body {
            AddressBody::Page { address, num_page } => {
                assert_eq!(num_page, 3);
                assert_eq!(address.len(), if page < 3 { 3 } else { 1 });
                seen.extend(address.iter().map(|row| row.id));
            }
            other => panic!("no page: {:?}", other),
        }
    }
    let all: Vec<u128> = book.rows.iter().map(|row| row.id).collect();
    assert_eq!(seen, all);
    assert!(seen.windows(2).all(|pair| pair[0] < pair[1]));
    match book.list(4, 3).body {
        AddressBody::Page { address, num_page } => {
            assert_eq!(num_page, 3);
            assert!(address.is_empty());
        }
        other => panic!("no page: {:?}", other),
    }
    assert_eq!(book.list(0, 3).status, Status::InternalServerError);
    assert_eq!(book.list(1, 0).status, Status::InternalServerError);
}

#[test]
fn every_page_of_every_size_is_answered() {
    let mut book = Book { rows: Vec::new() };
    for total in 0..8u64 {
        for per_page in (1..6u64).chain([u64::MAX / 2, u64::MAX]) {
            for page in (1..6u64).chain([u64::MAX / 2, u64::MAX]) {
                let reply = book.list(page, per_page);
                assert_eq!(reply.status, Status::Success);
                match reply.body {
                    AddressBody::Page { address, num_page } => {
                        let before = ((page - 1) as u128 * per_page as u128).min(total as u128);
                        let expected = (per_page as u128).min(total as u128 - before);
                        assert_eq!(address.len() as u128, expected);
                        assert_eq!(num_page as u128, (total as u128 + per_page as u128 - 1) / per_page as u128);
                    }
                    other => panic!("no page: {:?}", other),
                }
            }
        }
        book.create(Some(paris()));
    }
}
