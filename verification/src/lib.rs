//! Search results of a torrent index, the requests that drive a Deluge
//! Web UI, and the pages that a chat bot shows of both.
pub mod text;
pub mod models;
pub mod search;
pub mod trusted;
pub mod deluge;
pub mod bot;
pub mod downloads;
pub mod pages;
pub mod pretty;
pub mod cli;
pub mod laws;

pub use search::{getid, query, querymagnet, SearchError, URL};
