//! The parts of MusicBrainz release lookups that the import reads, as plain
//! values. Identifiers are held as the 128-bit value of the UUID.
use vstd::prelude::*;
use crate::entity::Uuid;

verus! {

/// A release with its media, tracks, credits and release group.
pub struct Release {
    pub label_info: Vec<LabelInfo>,
    pub status: Option<String>,
    pub release_group: Option<ReleaseGroup>,
    pub artist_credit: Vec<ArtistCredit>,
    pub asin: Option<String>,
    pub date: Option<String>,
    pub id: Uuid,
    pub media: Option<Vec<Medium>>,
    pub country: Option<String>,
    pub text_representation: Option<TextRepresentation>,
    pub title: String,
    pub disambiguation: Option<String>,
    pub track_count: Option<usize>,
}

/// A record label.
pub struct Label {
    pub id: Uuid,
    pub name: String,
}

/// The release group a release belongs to.
pub struct ReleaseGroup {
    pub first_release_date: Option<String>,
    pub title: String,
    pub id: Uuid,
    pub disambiguation: Option<String>,
    pub primary_type: Option<String>,
}

/// An artist as credited, with the phrase that joins it to the next credit.
pub struct ArtistCredit {
    pub name: String,
    pub joinphrase: Option<String>,
    pub artist: Artist,
}

/// An artist.
pub struct Artist {
    pub type_id: Option<Uuid>,
    pub type_field: Option<String>,
    pub disambiguation: Option<String>,
    pub id: Uuid,
    pub name: String,
    pub sort_name: String,
}

/// A medium of a release and its tracks; a lookup may leave out its id.
pub struct Medium {
    pub id: Option<Uuid>,
    pub position: Option<i32>,
    pub track_offset: Option<i32>,
    pub track_count: i32,
    pub tracks: Option<Vec<Track>>,
    pub format: Option<String>,
}

/// A track of a medium and the recording it is of.
pub struct Track {
    pub id: Uuid,
    pub recording: Recording,
    pub number: String,
    pub position: i32,
    pub length: Option<i32>,
    pub title: String,
}

/// A recording with its relationships, genres and credits.
pub struct Recording {
    pub relations: Vec<Relation>,
    pub disambiguation: String,
    pub id: Uuid,
    pub length: Option<i32>,
    pub video: bool,
    pub first_release_date: Option<String>,
    pub title: Option<String>,
    pub genres: Option<Vec<Genre>>,
    pub artist_credit: Option<Vec<ArtistCredit>>,
}

/// A relationship of a recording or a work, to an artist or a work.
pub struct Relation {
    pub type_field: String,
    pub artist: Option<Artist>,
    pub work: Option<Work>,
    pub attributes: Vec<String>,
}

/// A work and its relationships.
pub struct Work {
    pub relations: Option<Vec<Relation>>,
}

/// A genre with the number of votes for it.
pub struct Genre {
    pub id: Uuid,
    pub count: u32,
    pub disambiguation: String,
    pub name: String,
}

/// The script a release's text is written in.
pub struct TextRepresentation {
    pub language: Option<String>,
    pub script: Option<String>,
}

/// A label of a release and the catalog number under it.
pub struct LabelInfo {
    pub catalog_number: Option<String>,
    pub label: Option<Label>,
}

} // verus!
