//! The stored records of the music library, as plain values. Identifiers
//! that are UUIDs are held as their 128-bit integer value; timestamps are
//! seconds since the Unix epoch.
use vstd::prelude::*;
use crate::names::Named;
use crate::text::str_equals;

verus! {

/// A UUID, held as its 128-bit integer value.
pub type Uuid = u128;

/// The kinds of external links stored for an artist.
#[derive(PartialEq, Eq, Structural, Clone, Copy, Debug)]
pub enum ArtistUrlType {
    Biography,
    Discogs,
    LastFM,
    AllMusic,
    Youtube,
    Homepage,
    Wikidata,
    SongKick,
    SoundCloud,
    Spotify,
    Deezer,
    Tidal,
    Twitter,
    Facebook,
    Instagram,
}

/// The role an artist played in the recording of a track, named as MusicBrainz names relationship types.
#[derive(PartialEq, Eq, Structural, Clone, Copy, Debug, Hash)]
pub enum ArtistTrackRelationType {
    Performance,
    Vocal,
    Instrument,
    Producer,
    Engineer,
    Mix,
    Composer,
    Lyricist,
    Writer,
    Arranger,
    Other,
}

impl Named for ArtistTrackRelationType {
    open spec fn spec_name(self) -> Seq<char> {
        match self {
            ArtistTrackRelationType::Performance => "performance"@,
            ArtistTrackRelationType::Vocal => "vocal"@,
            ArtistTrackRelationType::Instrument => "instrument"@,
            ArtistTrackRelationType::Producer => "producer"@,
            ArtistTrackRelationType::Engineer => "engineer"@,
            ArtistTrackRelationType::Mix => "mix"@,
            ArtistTrackRelationType::Composer => "composer"@,
            ArtistTrackRelationType::Lyricist => "lyricist"@,
            ArtistTrackRelationType::Writer => "writer"@,
            ArtistTrackRelationType::Arranger => "arranger"@,
            ArtistTrackRelationType::Other => "other"@,
        }
    }

    open spec fn spec_from_name(s: Seq<char>) -> Option<Self> {
        if s == "performance"@ {
            Some(ArtistTrackRelationType::Performance)
        } else if s == "vocal"@ {
            Some(ArtistTrackRelationType::Vocal)
        } else if s == "instrument"@ {
            Some(ArtistTrackRelationType::Instrument)
        } else if s == "producer"@ {
            Some(ArtistTrackRelationType::Producer)
        } else if s == "engineer"@ {
            Some(ArtistTrackRelationType::Engineer)
        } else if s == "mix"@ {
            Some(ArtistTrackRelationType::Mix)
        } else if s == "composer"@ {
            Some(ArtistTrackRelationType::Composer)
        } else if s == "lyricist"@ {
            Some(ArtistTrackRelationType::Lyricist)
        } else if s == "writer"@ {
            Some(ArtistTrackRelationType::Writer)
        } else if s == "arranger"@ {
            Some(ArtistTrackRelationType::Arranger)
        } else if s == "other"@ {
            Some(ArtistTrackRelationType::Other)
        } else {
            None
        }
    }

    proof fn lemma_name_roundtrip(a: Self) {
        match a {
            ArtistTrackRelationType::Performance => {
                reveal_strlit("performance");
            },
            ArtistTrackRelationType::Vocal => {
                reveal_strlit("vocal");
                reveal_strlit("performance");
                assert("performance"@.len() != "vocal"@.len());
            },
            ArtistTrackRelationType::Instrument => {
                reveal_strlit("instrument");
                reveal_strlit("performance");
                assert("performance"@.len() != "instrument"@.len());
                reveal_strlit("vocal");
                assert("vocal"@.len() != "instrument"@.len());
            },
            ArtistTrackRelationType::Producer => {
                reveal_strlit("producer");
                reveal_strlit("performance");
                assert("performance"@.len() != "producer"@.len());
                reveal_strlit("vocal");
                assert("vocal"@.len() != "producer"@.len());
                reveal_strlit("instrument");
                assert("instrument"@.len() != "producer"@.len());
            },
            ArtistTrackRelationType::Engineer => {
                reveal_strlit("engineer");
                reveal_strlit("performance");
                assert("performance"@.len() != "engineer"@.len());
                reveal_strlit("vocal");
                assert("vocal"@.len() != "engineer"@.len());
                reveal_strlit("instrument");
                assert("instrument"@.len() != "engineer"@.len());
                reveal_strlit("producer");
                assert("producer"@[0] != "engineer"@[0]);
            },
            ArtistTrackRelationType::Mix => {
                reveal_strlit("mix");
                reveal_strlit("performance");
                assert("performance"@.len() != "mix"@.len());
                reveal_strlit("vocal");
                assert("vocal"@.len() != "mix"@.len());
                reveal_strlit("instrument");
                assert("instrument"@.len() != "mix"@.len());
                reveal_strlit("producer");
                assert("producer"@.len() != "mix"@.len());
                reveal_strlit("engineer");
                assert("engineer"@.len() != "mix"@.len());
            },
            ArtistTrackRelationType::Composer => {
                reveal_strlit("composer");
                reveal_strlit("performance");
                assert("performance"@.len() != "composer"@.len());
                reveal_strlit("vocal");
                assert("vocal"@.len() != "composer"@.len());
                reveal_strlit("instrument");
                assert("instrument"@.len() != "composer"@.len());
                reveal_strlit("producer");
                assert("producer"@[0] != "composer"@[0]);
                reveal_strlit("engineer");
                assert("engineer"@[0] != "composer"@[0]);
                reveal_strlit("mix");
                assert("mix"@.len() != "composer"@.len());
            },
            ArtistTrackRelationType::Lyricist => {
                reveal_strlit("lyricist");
                reveal_strlit("performance");
                assert("performance"@.len() != "lyricist"@.len());
                reveal_strlit("vocal");
                assert("vocal"@.len() != "lyricist"@.len());
                reveal_strlit("instrument");
                assert("instrument"@.len() != "lyricist"@.len());
                reveal_strlit("producer");
                assert("producer"@[0] != "lyricist"@[0]);
                reveal_strlit("engineer");
                assert("engineer"@[0] != "lyricist"@[0]);
                reveal_strlit("mix");
                assert("mix"@.len() != "lyricist"@.len());
                reveal_strlit("composer");
                assert("composer"@[0] != "lyricist"@[0]);
            },
            ArtistTrackRelationType::Writer => {
                reveal_strlit("writer");
                reveal_strlit("performance");
                assert("performance"@.len() != "writer"@.len());
                reveal_strlit("vocal");
                assert("vocal"@.len() != "writer"@.len());
                reveal_strlit("instrument");
                assert("instrument"@.len() != "writer"@.len());
                reveal_strlit("producer");
                assert("producer"@.len() != "writer"@.len());
                reveal_strlit("engineer");
                assert("engineer"@.len() != "writer"@.len());
                reveal_strlit("mix");
                assert("mix"@.len() != "writer"@.len());
                reveal_strlit("composer");
                assert("composer"@.len() != "writer"@.len());
                reveal_strlit("lyricist");
                assert("lyricist"@.len() != "writer"@.len());
            },
            ArtistTrackRelationType::Arranger => {
                reveal_strlit("arranger");
                reveal_strlit("performance");
                assert("performance"@.len() != "arranger"@.len());
                reveal_strlit("vocal");
                assert("vocal"@.len() != "arranger"@.len());
                reveal_strlit("instrument");
                assert("instrument"@.len() != "arranger"@.len());
                reveal_strlit("producer");
                assert("producer"@[0] != "arranger"@[0]);
                reveal_strlit("engineer");
                assert("engineer"@[0] != "arranger"@[0]);
                reveal_strlit("mix");
                assert("mix"@.len() != "arranger"@.len());
                reveal_strlit("composer");
                assert("composer"@[0] != "arranger"@[0]);
                reveal_strlit("lyricist");
                assert("lyricist"@[0] != "arranger"@[0]);
                reveal_strlit("writer");
                assert("writer"@.len() != "arranger"@.len());
            },
            ArtistTrackRelationType::Other => {
                reveal_strlit("other");
                reveal_strlit("performance");
                assert("performance"@.len() != "other"@.len());
                reveal_strlit("vocal");
                assert("vocal"@[0] != "other"@[0]);
                reveal_strlit("instrument");
                assert("instrument"@.len() != "other"@.len());
                reveal_strlit("producer");
                assert("producer"@.len() != "other"@.len());
                reveal_strlit("engineer");
                assert("engineer"@.len() != "other"@.len());
                reveal_strlit("mix");
                assert("mix"@.len() != "other"@.len());
                reveal_strlit("composer");
                assert("composer"@.len() != "other"@.len());
                reveal_strlit("lyricist");
                assert("lyricist"@.len() != "other"@.len());
                reveal_strlit("writer");
                assert("writer"@.len() != "other"@.len());
                reveal_strlit("arranger");
                assert("arranger"@.len() != "other"@.len());
            },
        }
    }

    proof fn lemma_from_name_named(s: Seq<char>) {
    }

    proof fn lemma_name_plain(a: Self) {
        reveal_strlit("performance");
        reveal_strlit("vocal");
        reveal_strlit("instrument");
        reveal_strlit("producer");
        reveal_strlit("engineer");
        reveal_strlit("mix");
        reveal_strlit("composer");
        reveal_strlit("lyricist");
        reveal_strlit("writer");
        reveal_strlit("arranger");
        reveal_strlit("other");
    }

    fn name(&self) -> (r: &'static str) {
        match self {
            ArtistTrackRelationType::Performance => "performance",
            ArtistTrackRelationType::Vocal => "vocal",
            ArtistTrackRelationType::Instrument => "instrument",
            ArtistTrackRelationType::Producer => "producer",
            ArtistTrackRelationType::Engineer => "engineer",
            ArtistTrackRelationType::Mix => "mix",
            ArtistTrackRelationType::Composer => "composer",
            ArtistTrackRelationType::Lyricist => "lyricist",
            ArtistTrackRelationType::Writer => "writer",
            ArtistTrackRelationType::Arranger => "arranger",
            ArtistTrackRelationType::Other => "other",
        }
    }

    fn from_name(s: &str) -> (r: Option<Self>) {
        if str_equals(s, "performance") {
            Some(ArtistTrackRelationType::Performance)
        } else if str_equals(s, "vocal") {
            Some(ArtistTrackRelationType::Vocal)
        } else if str_equals(s, "instrument") {
            Some(ArtistTrackRelationType::Instrument)
        } else if str_equals(s, "producer") {
            Some(ArtistTrackRelationType::Producer)
        } else if str_equals(s, "engineer") {
            Some(ArtistTrackRelationType::Engineer)
        } else if str_equals(s, "mix") {
            Some(ArtistTrackRelationType::Mix)
        } else if str_equals(s, "composer") {
            Some(ArtistTrackRelationType::Composer)
        } else if str_equals(s, "lyricist") {
            Some(ArtistTrackRelationType::Lyricist)
        } else if str_equals(s, "writer") {
            Some(ArtistTrackRelationType::Writer)
        } else if str_equals(s, "arranger") {
            Some(ArtistTrackRelationType::Arranger)
        } else if str_equals(s, "other") {
            Some(ArtistTrackRelationType::Other)
        } else {
            None
        }
    }

    fn same(&self, other: &Self) -> (r: bool) {
        *self == *other
    }
}

/// The role a MusicBrainz relationship type names; unknown types are `Other`.
pub open spec fn relation_type_of(s: Seq<char>) -> ArtistTrackRelationType {
    match ArtistTrackRelationType::spec_from_name(s) {
        Some(t) => t,
        None => ArtistTrackRelationType::Other,
    }
}

/// The role a MusicBrainz relationship type names; unknown types are `Other`.
pub fn relation_type_from(s: &str) -> (r: ArtistTrackRelationType)
    ensures
        r == relation_type_of(s@),
{
    match ArtistTrackRelationType::from_name(s) {
        Some(t) => t,
        None => ArtistTrackRelationType::Other,
    }
}

/// The kinds of updates that are tracked for artists.
#[derive(PartialEq, Eq, Structural, Clone, Copy, Debug, Hash)]
pub enum UpdateArtistType {
    ArtistUrl,
    ArtistDescription,
    LastFMArtistImage,
}

/// How a user signs in: against the users listed in the settings, or
/// against an LDAP directory.
#[derive(PartialEq, Eq, Structural, Clone, Copy, Debug, Hash)]
pub enum AuthProvider {
    Local,
    Ldap,
}

/// The services a user can connect an account with.
#[derive(PartialEq, Eq, Structural, Clone, Copy, Debug)]
pub enum ConnectionProvider {
    LastFM,
}

/// The container formats of audio files in the library.
#[derive(PartialEq, Eq, Structural, Clone, Copy, Debug)]
pub enum TrackFormat {
    Flac,
    Mp4,
    Id3,
    Ape,
}

impl TrackFormat {
    /// The media type of files of this format.
    pub open spec fn mime_spec(self) -> Seq<char> {
        match self {
            TrackFormat::Flac => "audio/flac"@,
            TrackFormat::Mp4 => "audio/mp4"@,
            TrackFormat::Id3 => "audio/mpeg"@,
            TrackFormat::Ape => "audio/ape"@,
        }
    }

    /// The media type of files of this format.
    pub fn mime_type(&self) -> (r: &'static str)
        ensures
            r@ == self.mime_spec(),
    {
        match self {
            TrackFormat::Flac => "audio/flac",
            TrackFormat::Mp4 => "audio/mp4",
            TrackFormat::Id3 => "audio/mpeg",
            TrackFormat::Ape => "audio/ape",
        }
    }
}

/// The encodings of stored images.
#[derive(PartialEq, Eq, Structural, Clone, Copy, Debug)]
pub enum ImageFormat {
    Jpeg,
    Png,
    Gif,
}

impl ImageFormat {
    /// The media type of images in this format.
    pub open spec fn mime_spec(self) -> Seq<char> {
        match self {
            ImageFormat::Jpeg => "image/jpeg"@,
            ImageFormat::Png => "image/png"@,
            ImageFormat::Gif => "image/gif"@,
        }
    }

    /// The media type of images in this format.
    pub fn mime_type(&self) -> (r: &'static str)
        ensures
            r@ == self.mime_spec(),
    {
        match self {
            ImageFormat::Jpeg => "image/jpeg",
            ImageFormat::Png => "image/png",
            ImageFormat::Gif => "image/gif",
        }
    }
}

/// The services cover art is fetched from.
#[derive(PartialEq, Eq, Structural, Clone, Copy, Debug)]
pub enum ArtProvider {
    CoverArtArchive,
    Itunes,
    Deezer,
}

pub struct Artist {
    pub id: Uuid,
    pub name: String,
    pub sort_name: String,
    pub description: Option<String>,
}

pub struct ArtistCredit {
    pub id: String,
    pub join_phrase: Option<String>,
    pub artist_id: Uuid,
}

pub struct Release {
    pub id: Uuid,
    pub title: String,
    pub release_group_id: Option<Uuid>,
    pub release_type: Option<String>,
    pub genres: Vec<String>,
    pub asin: Option<String>,
    pub country: Option<String>,
    pub label: Option<String>,
    pub catalog_no: Option<String>,
    pub status: Option<String>,
    pub year: Option<i32>,
    pub month: Option<i16>,
    pub day: Option<i16>,
    pub original_year: Option<i32>,
    pub original_month: Option<i16>,
    pub original_day: Option<i16>,
    pub script: Option<String>,
    pub path: Option<String>,
}

pub struct Medium {
    pub id: Uuid,
    pub release_id: Uuid,
    pub position: i32,
    pub tracks: i32,
    pub track_offset: i32,
    pub format: Option<String>,
}

pub struct Track {
    pub id: Uuid,
    pub medium_id: Uuid,
    pub title: String,
    pub length: i32,
    pub number: i32,
    pub genres: Vec<String>,
    pub recording_id: Uuid,
    pub format: Option<TrackFormat>,
    pub path: Option<String>,
}

pub struct ArtistTrackRelation {
    pub artist_id: Uuid,
    pub track_id: Uuid,
    pub relation_type: ArtistTrackRelationType,
    pub relation_value: String,
}

pub struct ArtistCreditRelease {
    pub artist_credit_id: String,
    pub release_id: Uuid,
}

pub struct ArtistCreditTrack {
    pub artist_credit_id: String,
    pub track_id: Uuid,
}

pub struct ArtistUrl {
    pub artist_id: Uuid,
    pub url_type: ArtistUrlType,
    pub url: String,
}

pub struct Genre {
    pub id: String,
    pub name: String,
    pub disambiguation: String,
}

pub struct GenreTrack {
    pub genre_id: String,
    pub track_id: Uuid,
    pub cnt: i32,
}

pub struct GenreRelease {
    pub genre_id: String,
    pub release_id: Uuid,
    pub cnt: i32,
}

pub struct Image {
    pub id: String,
    pub role: String,
    pub format: ImageFormat,
    pub description: Option<String>,
    pub width: i32,
    pub height: i32,
    pub size: i32,
    pub path: String,
}

pub struct ImageArtist {
    pub image_id: String,
    pub artist_id: Uuid,
}

pub struct ImageRelease {
    pub image_id: String,
    pub release_id: Uuid,
}

pub struct User {
    pub username: String,
    pub provider: AuthProvider,
    pub first_name: Option<String>,
    pub last_name: Option<String>,
}

/// A user's connection with an outside service. `account` is the name of
/// the user's account with the service as read from the stored connection
/// data, or `None` where the data do not hold one.
pub struct UserConnection {
    pub user: String,
    pub provider: ConnectionProvider,
    pub account: Option<String>,
}

pub struct Scrobble {
    pub id: i64,
    pub at: i64,
    pub user: String,
    pub track: Uuid,
}

/// A track as read from the tags of a file that is being imported.
pub struct InternalTrack {
    pub title: String,
    pub artists: Vec<String>,
    pub length: Option<u32>,
    pub disc: Option<u32>,
    pub number: Option<u32>,
    pub path: String,
}

/// A release as assembled from the tags of the files that are being imported.
pub struct InternalRelease {
    pub title: String,
    pub artists: Vec<String>,
    pub media: Option<String>,
    pub discs: Option<u32>,
    pub tracks: u32,
    pub country: Option<String>,
    pub label: Option<String>,
    pub release_type: Option<String>,
    pub year: Option<i32>,
    pub month: Option<u8>,
    pub day: Option<u8>,
    pub original_year: Option<i32>,
    pub original_month: Option<u8>,
    pub original_day: Option<u8>,
}

/// A track of a candidate release: its stored identifier and its values in
/// the form that is compared with the tracks being imported.
pub struct FullTrack {
    pub id: Uuid,
    pub track: InternalTrack,
}

/// How well a candidate release matches the files being imported: the total
/// score (lower is better) and, for each source track index, the identifier
/// of the candidate track it was assigned to.
pub struct ReleaseRating {
    pub score: i64,
    pub assignment: std::collections::HashMap<usize, Uuid>,
}

/// A candidate cover image for a release.
pub struct Cover {
    pub provider: ArtProvider,
    pub url: String,
    pub width: usize,
    pub height: usize,
    pub title: String,
    pub artist: String,
}

} // verus!
