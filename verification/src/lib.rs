//! Routing and page assembly for a small site that serves markdown documents as HTML.
//!
//! The crate holds every decision the server takes between receiving a request path and
//! sending a response: which of the four routes a path belongs to, where the markdown source
//! of a page lives, what goes into the page template, and which status the response carries.
//! Reading files, streaming static assets, filling the page template and speaking HTTP are
//! left to the program around it, which hands the outcomes back as plain values.

pub mod content;
pub mod page;
pub mod route;
pub mod server;
pub mod site;
