//! A small client-side core for looking up one encyclopedia article by title.
//!
//! A lookup runs in a line: the title is checked, the request's URL is built
//! ([`query`]), the transport fetches the response, the body is decoded
//! ([`decode`]) into a tree of plain values ([`json`]), and the first complete
//! article record in it is the answer ([`resolver`]). Every way in which this
//! can fail is a variant of one error type ([`error`]).
//!
//! The transport is not part of this library: [`search`] takes it as a
//! function from the request's URL to the response body. A caller that cannot
//! hand over such a function runs the two halves itself, [`prepare`] before
//! its fetch and [`complete`] after.

pub mod decode;
pub mod error;
pub mod json;
pub mod page;
pub mod query;
pub mod resolver;

pub use decode::decode;
pub use error::{Error, ErrorView};
pub use json::{Json, JsonTree};
pub use page::{Page, PageView};
pub use query::get_search_url;
pub use resolver::{
    complete, first_page, get_pages_from_json_value, prepare, resolve, search, select_page,
};
