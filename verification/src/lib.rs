//! The logic of two small services that keep records in a store: products,
//! served over a bare socket, and addresses, served under a web framework.
//!
//! The library reads requests and decides: `request` turns the bytes of a
//! request into its text, its id and its body; `route` finds its handler;
//! `product` and `address` hold the handlers, each split at the point where
//! it has to wait for the store; `http` writes the response. Sockets, the
//! store and JSON stay with the caller. `store` holds a model of the store
//! and what is proved of the handlers against it.

pub mod address;
pub mod http;
pub mod product;
pub mod request;
pub mod route;
pub mod store;
pub mod text;
