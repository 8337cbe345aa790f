//! The public API's handlers: what each decides about a request.
pub mod artists;
pub mod connections;
pub mod genres;
pub mod images;
pub mod mediums;
pub mod releases;
pub mod scrobbles;
pub mod search;
pub mod tracks;
pub mod users;
