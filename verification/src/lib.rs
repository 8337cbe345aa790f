//! Core logic of the tempo music server: JSON:API documents and query
//! handling, MusicBrainz search-result conversion, release ranking and the
//! smaller decision procedures used by the HTTP handlers and background tasks.
#![allow(unused_imports)]

pub mod text;
pub mod entity;
pub mod rank_releases;
pub mod names;
pub mod columns;
pub mod documents;
pub mod seqs;
pub mod tempo;
pub mod jsonapi;
pub mod musicbrainz;
pub mod dates;
pub mod search_result;
pub mod dedup;
pub mod lastfm;
pub mod covers;
pub mod artist_url;
pub mod api_error;
pub mod internal;
pub mod resources;
pub mod extract;
pub mod auth;
pub mod included;
pub mod search_index;
pub mod track_relations;
pub mod downloads;
pub mod imports;
pub mod requests;
pub mod lastfm_images;
pub mod populate;
