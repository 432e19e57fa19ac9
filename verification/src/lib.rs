//! Server-side rendering of one logical page in three representations.
//!
//! A page is served as a full HTML document, as its bare JSON, or as the
//! `{id, config}` descriptor that a client-side renderer starts from. Each
//! request chooses one ([`Mode::detect`]), and [`Page::page_with_response`]
//! renders the page in it. The versions of the compiled frontend assets that
//! the documents refer to are resolved once, at start, by
//! [`Config::init_elm`]. [`Error`] names what can go wrong on the way, and
//! [`Or404`] turns a failed lookup into a page that is not there.
//!
//! Nothing here opens a file or a socket: the functions are told what was
//! read and say what to read next.

pub mod config;
pub mod error;
pub mod json;
pub mod message;
pub mod mode;
pub mod outside;
pub mod page;
pub mod strmap;
pub mod text;

pub use crate::config::{Config, DependencyError, Reply, Stage, Step};
pub use crate::error::{error, Error, Or404};
pub use crate::message::{Request, Response};
pub use crate::mode::Mode;
pub use crate::page::{Page, RenderError, WidgetSpec, HTML};
pub use crate::strmap::StringMap;
