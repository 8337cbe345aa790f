//! The resource kinds, attributes, relationships, includes and filters of
//! the public API's documents.
use vstd::prelude::*;
use crate::columns::{
    ArtistColumn, GenreColumn, MediumColumn, ReleaseColumn, ScrobbleColumn, TrackColumn,
    UserColumn,
};
use crate::entity::{ArtistTrackRelationType, ArtistUrlType, Uuid};
use crate::names::Named;
use crate::text::str_equals;

use crate::jsonapi::FilterKey;

verus! {

/// The kinds of resources the API serves.
#[derive(PartialEq, Eq, Structural, Clone, Copy, Debug, Hash)]
pub enum ResourceType {
    Server,
    Auth,
    User,
    Scrobble,
    Connection,
    Image,
    Artist,
    Track,
    Medium,
    Release,
    Genre,
}

/// A filter key that stands for a stored column.
pub trait IntoColumn<T> {
    /// The column the filter key stands for, if any.
    spec fn spec_column(&self) -> Option<T>;

    /// The column the filter key stands for, if any.
    fn column(&self) -> (r: Option<T>)
        ensures
            r == self.spec_column(),
    ;
}

/// What the server reports about itself.
pub struct ServerAttributes {
    pub tempo_version: String,
    pub server: String,
    pub server_version: String,
    pub auth_required: bool,
    pub features: Vec<String>,
}

/// How an artist is credited on a release or a track.
pub struct ArtistCreditAttributes {
    pub join_phrase: Option<String>,
}

/// The part an artist played in a recording.
pub struct RecordingAttributes {
    pub role: ArtistTrackRelationType,
    pub detail: String,
}

/// The attributes of an image.
pub struct ImageAttributes {
    pub role: String,
    pub format: String,
    pub description: Option<String>,
    pub width: i32,
    pub height: i32,
    pub size: i32,
}

/// The relationships of an image.
#[derive(PartialEq, Eq, Structural, Clone, Copy, Debug, Hash)]
pub enum ImageRelation {
    Artist,
    Release,
}

/// The attributes of an artist; `urls` lists each kind of link once.
pub struct ArtistAttributes {
    pub name: String,
    pub sort_name: String,
    pub description: Option<String>,
    pub urls: Vec<(ArtistUrlType, String)>,
}

/// The relationships of an artist.
#[derive(PartialEq, Eq, Structural, Clone, Copy, Debug, Hash)]
pub enum ArtistRelation {
    Recordings,
    Images,
    Releases,
    Tracks,
    Picture,
    Cover,
}

/// The related resources a request for artists may include.
#[derive(PartialEq, Eq, Structural, Clone, Copy, Debug, Hash)]
pub enum ArtistInclude {
    Images,
    Tracks,
    Releases,
    ReleasesArtists,
}

impl Named for ArtistInclude {
    open spec fn spec_name(self) -> Seq<char> {
        match self {
            ArtistInclude::Images => "images"@,
            ArtistInclude::Tracks => "tracks"@,
            ArtistInclude::Releases => "releases"@,
            ArtistInclude::ReleasesArtists => "releases.artists"@,
        }
    }

    open spec fn spec_from_name(s: Seq<char>) -> Option<Self> {
        if s == "images"@ {
            Some(ArtistInclude::Images)
        } else if s == "tracks"@ {
            Some(ArtistInclude::Tracks)
        } else if s == "releases"@ {
            Some(ArtistInclude::Releases)
        } else if s == "releases.artists"@ {
            Some(ArtistInclude::ReleasesArtists)
        } else {
            None
        }
    }

    proof fn lemma_name_roundtrip(a: Self) {
        match a {
            ArtistInclude::Images => {
                reveal_strlit("images");
            },
            ArtistInclude::Tracks => {
                reveal_strlit("tracks");
                reveal_strlit("images");
                assert("images"@[0] != "tracks"@[0]);
            },
            ArtistInclude::Releases => {
                reveal_strlit("releases");
                reveal_strlit("images");
                assert("images"@.len() != "releases"@.len());
                reveal_strlit("tracks");
                assert("tracks"@.len() != "releases"@.len());
            },
            ArtistInclude::ReleasesArtists => {
                reveal_strlit("releases.artists");
                reveal_strlit("images");
                assert("images"@.len() != "releases.artists"@.len());
                reveal_strlit("tracks");
                assert("tracks"@.len() != "releases.artists"@.len());
                reveal_strlit("releases");
                assert("releases"@.len() != "releases.artists"@.len());
            },
        }
    }

    proof fn lemma_from_name_named(s: Seq<char>) {
    }

    proof fn lemma_name_plain(a: Self) {
        reveal_strlit("images");
        reveal_strlit("tracks");
        reveal_strlit("releases");
        reveal_strlit("releases.artists");
    }

    fn name(&self) -> (r: &'static str) {
        match self {
            ArtistInclude::Images => "images",
            ArtistInclude::Tracks => "tracks",
            ArtistInclude::Releases => "releases",
            ArtistInclude::ReleasesArtists => "releases.artists",
        }
    }

    fn from_name(s: &str) -> (r: Option<Self>) {
        if str_equals(s, "images") {
            Some(ArtistInclude::Images)
        } else if str_equals(s, "tracks") {
            Some(ArtistInclude::Tracks)
        } else if str_equals(s, "releases") {
            Some(ArtistInclude::Releases)
        } else if str_equals(s, "releases.artists") {
            Some(ArtistInclude::ReleasesArtists)
        } else {
            None
        }
    }

    fn same(&self, other: &Self) -> (r: bool) {
        *self == *other
    }
}

/// The keys by which artists may be filtered.
#[derive(PartialEq, Eq, Structural, Clone, Copy, Debug, Hash)]
pub enum ArtistFilter {
    Id,
    Name,
    SortName,
    Description,
    Include(ArtistInclude),
}

impl IntoColumn<ArtistColumn> for ArtistFilter {
    open spec fn spec_column(&self) -> Option<ArtistColumn> {
        match self {
            ArtistFilter::Id => Some(ArtistColumn::Id),
            ArtistFilter::Name => Some(ArtistColumn::Name),
            ArtistFilter::SortName => Some(ArtistColumn::SortName),
            ArtistFilter::Description => Some(ArtistColumn::Description),
            _ => None,
        }
    }

    fn column(&self) -> (r: Option<ArtistColumn>) {
        match self {
            ArtistFilter::Id => Some(ArtistColumn::Id),
            ArtistFilter::Name => Some(ArtistColumn::Name),
            ArtistFilter::SortName => Some(ArtistColumn::SortName),
            ArtistFilter::Description => Some(ArtistColumn::Description),
            _ => None,
        }
    }
}

/// The attributes of a release.
pub struct ReleaseAttributes {
    pub title: String,
    pub disctotal: i32,
    pub tracktotal: i32,
    pub year: Option<i32>,
    pub month: Option<i16>,
    pub day: Option<i16>,
    pub original_year: Option<i32>,
    pub original_month: Option<i16>,
    pub original_day: Option<i16>,
    pub release_type: Option<String>,
    pub release_mbid: Uuid,
    pub release_group_mbid: Option<Uuid>,
}

/// The relationships of a release.
#[derive(PartialEq, Eq, Structural, Clone, Copy, Debug, Hash)]
pub enum ReleaseRelation {
    Image,
    Mediums,
    Artists,
    Genres,
}

/// The related resources a request for releases may include.
#[derive(PartialEq, Eq, Structural, Clone, Copy, Debug, Hash)]
pub enum ReleaseInclude {
    Image,
    Artists,
    Mediums,
    MediumsTracks,
    MediumsTracksArtists,
    Genres,
}

impl Named for ReleaseInclude {
    open spec fn spec_name(self) -> Seq<char> {
        match self {
            ReleaseInclude::Image => "image"@,
            ReleaseInclude::Artists => "artists"@,
            ReleaseInclude::Mediums => "mediums"@,
            ReleaseInclude::MediumsTracks => "mediums.tracks"@,
            ReleaseInclude::MediumsTracksArtists => "mediums.tracks.artists"@,
            ReleaseInclude::Genres => "genres"@,
        }
    }

    open spec fn spec_from_name(s: Seq<char>) -> Option<Self> {
        if s == "image"@ {
            Some(ReleaseInclude::Image)
        } else if s == "artists"@ {
            Some(ReleaseInclude::Artists)
        } else if s == "mediums"@ {
            Some(ReleaseInclude::Mediums)
        } else if s == "mediums.tracks"@ {
            Some(ReleaseInclude::MediumsTracks)
        } else if s == "mediums.tracks.artists"@ {
            Some(ReleaseInclude::MediumsTracksArtists)
        } else if s == "genres"@ {
            Some(ReleaseInclude::Genres)
        } else {
            None
        }
    }

    proof fn lemma_name_roundtrip(a: Self) {
        match a {
            ReleaseInclude::Image => {
                reveal_strlit("image");
            },
            ReleaseInclude::Artists => {
                reveal_strlit("artists");
                reveal_strlit("image");
                assert("image"@.len() != "artists"@.len());
            },
            ReleaseInclude::Mediums => {
                reveal_strlit("mediums");
                reveal_strlit("image");
                assert("image"@.len() != "mediums"@.len());
                reveal_strlit("artists");
                assert("artists"@[0] != "mediums"@[0]);
            },
            ReleaseInclude::MediumsTracks => {
                reveal_strlit("mediums.tracks");
                reveal_strlit("image");
                assert("image"@.len() != "mediums.tracks"@.len());
                reveal_strlit("artists");
                assert("artists"@.len() != "mediums.tracks"@.len());
                reveal_strlit("mediums");
                assert("mediums"@.len() != "mediums.tracks"@.len());
            },
            ReleaseInclude::MediumsTracksArtists => {
                reveal_strlit("mediums.tracks.artists");
                reveal_strlit("image");
                assert("image"@.len() != "mediums.tracks.artists"@.len());
                reveal_strlit("artists");
                assert("artists"@.len() != "mediums.tracks.artists"@.len());
                reveal_strlit("mediums");
                assert("mediums"@.len() != "mediums.tracks.artists"@.len());
                reveal_strlit("mediums.tracks");
                assert("mediums.tracks"@.len() != "mediums.tracks.artists"@.len());
            },
            ReleaseInclude::Genres => {
                reveal_strlit("genres");
                reveal_strlit("image");
                assert("image"@.len() != "genres"@.len());
                reveal_strlit("artists");
                assert("artists"@.len() != "genres"@.len());
                reveal_strlit("mediums");
                assert("mediums"@.len() != "genres"@.len());
                reveal_strlit("mediums.tracks");
                assert("mediums.tracks"@.len() != "genres"@.len());
                reveal_strlit("mediums.tracks.artists");
                assert("mediums.tracks.artists"@.len() != "genres"@.len());
            },
        }
    }

    proof fn lemma_from_name_named(s: Seq<char>) {
    }

    proof fn lemma_name_plain(a: Self) {
        reveal_strlit("image");
        reveal_strlit("artists");
        reveal_strlit("mediums");
        reveal_strlit("mediums.tracks");
        reveal_strlit("mediums.tracks.artists");
        reveal_strlit("genres");
    }

    fn name(&self) -> (r: &'static str) {
        match self {
            ReleaseInclude::Image => "image",
            ReleaseInclude::Artists => "artists",
            ReleaseInclude::Mediums => "mediums",
            ReleaseInclude::MediumsTracks => "mediums.tracks",
            ReleaseInclude::MediumsTracksArtists => "mediums.tracks.artists",
            ReleaseInclude::Genres => "genres",
        }
    }

    fn from_name(s: &str) -> (r: Option<Self>) {
        if str_equals(s, "image") {
            Some(ReleaseInclude::Image)
        } else if str_equals(s, "artists") {
            Some(ReleaseInclude::Artists)
        } else if str_equals(s, "mediums") {
            Some(ReleaseInclude::Mediums)
        } else if str_equals(s, "mediums.tracks") {
            Some(ReleaseInclude::MediumsTracks)
        } else if str_equals(s, "mediums.tracks.artists") {
            Some(ReleaseInclude::MediumsTracksArtists)
        } else if str_equals(s, "genres") {
            Some(ReleaseInclude::Genres)
        } else {
            None
        }
    }

    fn same(&self, other: &Self) -> (r: bool) {
        *self == *other
    }
}

/// The keys by which releases may be filtered.
#[derive(PartialEq, Eq, Structural, Clone, Copy, Debug, Hash)]
pub enum ReleaseFilter {
    Id,
    Title,
    Disctotal,
    Tracktotal,
    Year,
    Month,
    Day,
    OriginalYear,
    OriginalMonth,
    OriginalDay,
    ReleaseType,
    ReleaseMbid,
    ReleaseGroupMbid,
    Include(ReleaseInclude),
}

impl IntoColumn<ReleaseColumn> for ReleaseFilter {
    open spec fn spec_column(&self) -> Option<ReleaseColumn> {
        match self {
            ReleaseFilter::Id => Some(ReleaseColumn::Id),
            ReleaseFilter::Title => Some(ReleaseColumn::Title),
            ReleaseFilter::Year => Some(ReleaseColumn::Year),
            ReleaseFilter::Month => Some(ReleaseColumn::Month),
            ReleaseFilter::Day => Some(ReleaseColumn::Day),
            ReleaseFilter::OriginalYear => Some(ReleaseColumn::OriginalYear),
            ReleaseFilter::OriginalMonth => Some(ReleaseColumn::OriginalMonth),
            ReleaseFilter::OriginalDay => Some(ReleaseColumn::OriginalDay),
            ReleaseFilter::ReleaseType => Some(ReleaseColumn::ReleaseType),
            ReleaseFilter::ReleaseMbid => Some(ReleaseColumn::Id),
            ReleaseFilter::ReleaseGroupMbid => Some(ReleaseColumn::ReleaseGroupId),
            _ => None,
        }
    }

    fn column(&self) -> (r: Option<ReleaseColumn>) {
        match self {
            ReleaseFilter::Id => Some(ReleaseColumn::Id),
            ReleaseFilter::Title => Some(ReleaseColumn::Title),
            ReleaseFilter::Year => Some(ReleaseColumn::Year),
            ReleaseFilter::Month => Some(ReleaseColumn::Month),
            ReleaseFilter::Day => Some(ReleaseColumn::Day),
            ReleaseFilter::OriginalYear => Some(ReleaseColumn::OriginalYear),
            ReleaseFilter::OriginalMonth => Some(ReleaseColumn::OriginalMonth),
            ReleaseFilter::OriginalDay => Some(ReleaseColumn::OriginalDay),
            ReleaseFilter::ReleaseType => Some(ReleaseColumn::ReleaseType),
            ReleaseFilter::ReleaseMbid => Some(ReleaseColumn::Id),
            ReleaseFilter::ReleaseGroupMbid => Some(ReleaseColumn::ReleaseGroupId),
            _ => None,
        }
    }
}

/// The attributes of a medium.
pub struct MediumAttributes {
    pub position: i32,
    pub tracks: i32,
    pub track_offset: i32,
    pub format: Option<String>,
}

/// The relationships of a medium.
#[derive(PartialEq, Eq, Structural, Clone, Copy, Debug, Hash)]
pub enum MediumRelation {
    Release,
    Tracks,
}

/// The related resources a request for mediums may include.
#[derive(PartialEq, Eq, Structural, Clone, Copy, Debug, Hash)]
pub enum MediumInclude {
    Release,
    ReleaseArtists,
    ReleaseGenres,
    Tracks,
    TracksArtists,
}

impl Named for MediumInclude {
    open spec fn spec_name(self) -> Seq<char> {
        match self {
            MediumInclude::Release => "release"@,
            MediumInclude::ReleaseArtists => "release.artists"@,
            MediumInclude::ReleaseGenres => "release.genres"@,
            MediumInclude::Tracks => "tracks"@,
            MediumInclude::TracksArtists => "tracks.artists"@,
        }
    }

    open spec fn spec_from_name(s: Seq<char>) -> Option<Self> {
        if s == "release"@ {
            Some(MediumInclude::Release)
        } else if s == "release.artists"@ {
            Some(MediumInclude::ReleaseArtists)
        } else if s == "release.genres"@ {
            Some(MediumInclude::ReleaseGenres)
        } else if s == "tracks"@ {
            Some(MediumInclude::Tracks)
        } else if s == "tracks.artists"@ {
            Some(MediumInclude::TracksArtists)
        } else {
            None
        }
    }

    proof fn lemma_name_roundtrip(a: Self) {
        match a {
            MediumInclude::Release => {
                reveal_strlit("release");
            },
            MediumInclude::ReleaseArtists => {
                reveal_strlit("release.artists");
                reveal_strlit("release");
                assert("release"@.len() != "release.artists"@.len());
            },
            MediumInclude::ReleaseGenres => {
                reveal_strlit("release.genres");
                reveal_strlit("release");
                assert("release"@.len() != "release.genres"@.len());
                reveal_strlit("release.artists");
                assert("release.artists"@.len() != "release.genres"@.len());
            },
            MediumInclude::Tracks => {
                reveal_strlit("tracks");
                reveal_strlit("release");
                assert("release"@.len() != "tracks"@.len());
                reveal_strlit("release.artists");
                assert("release.artists"@.len() != "tracks"@.len());
                reveal_strlit("release.genres");
                assert("release.genres"@.len() != "tracks"@.len());
            },
            MediumInclude::TracksArtists => {
                reveal_strlit("tracks.artists");
                reveal_strlit("release");
                assert("release"@.len() != "tracks.artists"@.len());
                reveal_strlit("release.artists");
                assert("release.artists"@.len() != "tracks.artists"@.len());
                reveal_strlit("release.genres");
                assert("release.genres"@[0] != "tracks.artists"@[0]);
                reveal_strlit("tracks");
                assert("tracks"@.len() != "tracks.artists"@.len());
            },
        }
    }

    proof fn lemma_from_name_named(s: Seq<char>) {
    }

    proof fn lemma_name_plain(a: Self) {
        reveal_strlit("release");
        reveal_strlit("release.artists");
        reveal_strlit("release.genres");
        reveal_strlit("tracks");
        reveal_strlit("tracks.artists");
    }

    fn name(&self) -> (r: &'static str) {
        match self {
            MediumInclude::Release => "release",
            MediumInclude::ReleaseArtists => "release.artists",
            MediumInclude::ReleaseGenres => "release.genres",
            MediumInclude::Tracks => "tracks",
            MediumInclude::TracksArtists => "tracks.artists",
        }
    }

    fn from_name(s: &str) -> (r: Option<Self>) {
        if str_equals(s, "release") {
            Some(MediumInclude::Release)
        } else if str_equals(s, "release.artists") {
            Some(MediumInclude::ReleaseArtists)
        } else if str_equals(s, "release.genres") {
            Some(MediumInclude::ReleaseGenres)
        } else if str_equals(s, "tracks") {
            Some(MediumInclude::Tracks)
        } else if str_equals(s, "tracks.artists") {
            Some(MediumInclude::TracksArtists)
        } else {
            None
        }
    }

    fn same(&self, other: &Self) -> (r: bool) {
        *self == *other
    }
}

/// The keys by which mediums may be filtered.
#[derive(PartialEq, Eq, Structural, Clone, Copy, Debug, Hash)]
pub enum MediumFilter {
    Id,
    Position,
    Tracks,
    TrackOffset,
    Format,
    Include(MediumInclude),
}

impl IntoColumn<MediumColumn> for MediumFilter {
    open spec fn spec_column(&self) -> Option<MediumColumn> {
        match self {
            MediumFilter::Id => Some(MediumColumn::Id),
            MediumFilter::Position => Some(MediumColumn::Position),
            MediumFilter::Tracks => Some(MediumColumn::Tracks),
            MediumFilter::TrackOffset => Some(MediumColumn::TrackOffset),
            MediumFilter::Format => Some(MediumColumn::Format),
            _ => None,
        }
    }

    fn column(&self) -> (r: Option<MediumColumn>) {
        match self {
            MediumFilter::Id => Some(MediumColumn::Id),
            MediumFilter::Position => Some(MediumColumn::Position),
            MediumFilter::Tracks => Some(MediumColumn::Tracks),
            MediumFilter::TrackOffset => Some(MediumColumn::TrackOffset),
            MediumFilter::Format => Some(MediumColumn::Format),
            _ => None,
        }
    }
}

/// The attributes of a track.
pub struct TrackAttributes {
    pub title: String,
    pub track: i32,
    pub disc: Option<i32>,
    pub bpm: Option<i32>,
    pub recording_mbid: Uuid,
    pub track_mbid: Uuid,
    pub comments: Option<String>,
    pub mimetype: Option<String>,
    pub duration: i32,
    pub framerate: Option<i32>,
    pub framecount: Option<i32>,
    pub channels: Option<i32>,
    pub bitrate: Option<i32>,
    pub bitdepth: Option<i32>,
    pub size: Option<i32>,
}

/// The relationships of a track.
#[derive(PartialEq, Eq, Structural, Clone, Copy, Debug, Hash)]
pub enum TrackRelation {
    Artists,
    Medium,
    Recorders,
    Genres,
}

/// The related resources a request for tracks may include.
#[derive(PartialEq, Eq, Structural, Clone, Copy, Debug, Hash)]
pub enum TrackInclude {
    Artists,
    Medium,
    MediumRelease,
    MediumReleaseArtists,
    MediumReleaseGenres,
    Recorders,
    Genres,
}

impl Named for TrackInclude {
    open spec fn spec_name(self) -> Seq<char> {
        match self {
            TrackInclude::Artists => "artists"@,
            TrackInclude::Medium => "medium"@,
            TrackInclude::MediumRelease => "medium.release"@,
            TrackInclude::MediumReleaseArtists => "medium.release.artists"@,
            TrackInclude::MediumReleaseGenres => "medium.release.genres"@,
            TrackInclude::Recorders => "recorders"@,
            TrackInclude::Genres => "genres"@,
        }
    }

    open spec fn spec_from_name(s: Seq<char>) -> Option<Self> {
        if s == "artists"@ {
            Some(TrackInclude::Artists)
        } else if s == "medium"@ {
            Some(TrackInclude::Medium)
        } else if s == "medium.release"@ {
            Some(TrackInclude::MediumRelease)
        } else if s == "medium.release.artists"@ {
            Some(TrackInclude::MediumReleaseArtists)
        } else if s == "medium.release.genres"@ {
            Some(TrackInclude::MediumReleaseGenres)
        } else if s == "recorders"@ {
            Some(TrackInclude::Recorders)
        } else if s == "genres"@ {
            Some(TrackInclude::Genres)
        } else {
            None
        }
    }

    proof fn lemma_name_roundtrip(a: Self) {
        match a {
            TrackInclude::Artists => {
                reveal_strlit("artists");
            },
            TrackInclude::Medium => {
                reveal_strlit("medium");
                reveal_strlit("artists");
                assert("artists"@.len() != "medium"@.len());
            },
            TrackInclude::MediumRelease => {
                reveal_strlit("medium.release");
                reveal_strlit("artists");
                assert("artists"@.len() != "medium.release"@.len());
                reveal_strlit("medium");
                assert("medium"@.len() != "medium.release"@.len());
            },
            TrackInclude::MediumReleaseArtists => {
                reveal_strlit("medium.release.artists");
                reveal_strlit("artists");
                assert("artists"@.len() != "medium.release.artists"@.len());
                reveal_strlit("medium");
                assert("medium"@.len() != "medium.release.artists"@.len());
                reveal_strlit("medium.release");
                assert("medium.release"@.len() != "medium.release.artists"@.len());
            },
            TrackInclude::MediumReleaseGenres => {
                reveal_strlit("medium.release.genres");
                reveal_strlit("artists");
                assert("artists"@.len() != "medium.release.genres"@.len());
                reveal_strlit("medium");
                assert("medium"@.len() != "medium.release.genres"@.len());
                reveal_strlit("medium.release");
                assert("medium.release"@.len() != "medium.release.genres"@.len());
                reveal_strlit("medium.release.artists");
                assert("medium.release.artists"@.len() != "medium.release.genres"@.len());
            },
            TrackInclude::Recorders => {
                reveal_strlit("recorders");
                reveal_strlit("artists");
                assert("artists"@.len() != "recorders"@.len());
                reveal_strlit("medium");
                assert("medium"@.len() != "recorders"@.len());
                reveal_strlit("medium.release");
                assert("medium.release"@.len() != "recorders"@.len());
                reveal_strlit("medium.release.artists");
                assert("medium.release.artists"@.len() != "recorders"@.len());
                reveal_strlit("medium.release.genres");
                assert("medium.release.genres"@.len() != "recorders"@.len());
            },
            TrackInclude::Genres => {
                reveal_strlit("genres");
                reveal_strlit("artists");
                assert("artists"@.len() != "genres"@.len());
                reveal_strlit("medium");
                assert("medium"@[0] != "genres"@[0]);
                reveal_strlit("medium.release");
                assert("medium.release"@.len() != "genres"@.len());
                reveal_strlit("medium.release.artists");
                assert("medium.release.artists"@.len() != "genres"@.len());
                reveal_strlit("medium.release.genres");
                assert("medium.release.genres"@.len() != "genres"@.len());
                reveal_strlit("recorders");
                assert("recorders"@.len() != "genres"@.len());
            },
        }
    }

    proof fn lemma_from_name_named(s: Seq<char>) {
    }

    proof fn lemma_name_plain(a: Self) {
        reveal_strlit("artists");
        reveal_strlit("medium");
        reveal_strlit("medium.release");
        reveal_strlit("medium.release.artists");
        reveal_strlit("medium.release.genres");
        reveal_strlit("recorders");
        reveal_strlit("genres");
    }

    fn name(&self) -> (r: &'static str) {
        match self {
            TrackInclude::Artists => "artists",
            TrackInclude::Medium => "medium",
            TrackInclude::MediumRelease => "medium.release",
            TrackInclude::MediumReleaseArtists => "medium.release.artists",
            TrackInclude::MediumReleaseGenres => "medium.release.genres",
            TrackInclude::Recorders => "recorders",
            TrackInclude::Genres => "genres",
        }
    }

    fn from_name(s: &str) -> (r: Option<Self>) {
        if str_equals(s, "artists") {
            Some(TrackInclude::Artists)
        } else if str_equals(s, "medium") {
            Some(TrackInclude::Medium)
        } else if str_equals(s, "medium.release") {
            Some(TrackInclude::MediumRelease)
        } else if str_equals(s, "medium.release.artists") {
            Some(TrackInclude::MediumReleaseArtists)
        } else if str_equals(s, "medium.release.genres") {
            Some(TrackInclude::MediumReleaseGenres)
        } else if str_equals(s, "recorders") {
            Some(TrackInclude::Recorders)
        } else if str_equals(s, "genres") {
            Some(TrackInclude::Genres)
        } else {
            None
        }
    }

    fn same(&self, other: &Self) -> (r: bool) {
        *self == *other
    }
}

/// The keys by which tracks may be filtered.
#[derive(PartialEq, Eq, Structural, Clone, Copy, Debug, Hash)]
pub enum TrackFilter {
    Id,
    Title,
    Track,
    Disc,
    Bpm,
    RecordingMbid,
    TrackMbid,
    Comments,
    Mimetype,
    Duration,
    Framerate,
    Framecount,
    Channels,
    Bitrate,
    Bitdepth,
    Size,
    Include(TrackInclude),
}

impl IntoColumn<TrackColumn> for TrackFilter {
    open spec fn spec_column(&self) -> Option<TrackColumn> {
        match self {
            TrackFilter::Id => Some(TrackColumn::Id),
            TrackFilter::Title => Some(TrackColumn::Title),
            TrackFilter::Track => Some(TrackColumn::Number),
            TrackFilter::RecordingMbid => Some(TrackColumn::RecordingId),
            TrackFilter::TrackMbid => Some(TrackColumn::Id),
            TrackFilter::Mimetype => Some(TrackColumn::Format),
            TrackFilter::Duration => Some(TrackColumn::Length),
            _ => None,
        }
    }

    fn column(&self) -> (r: Option<TrackColumn>) {
        match self {
            TrackFilter::Id => Some(TrackColumn::Id),
            TrackFilter::Title => Some(TrackColumn::Title),
            TrackFilter::Track => Some(TrackColumn::Number),
            TrackFilter::RecordingMbid => Some(TrackColumn::RecordingId),
            TrackFilter::TrackMbid => Some(TrackColumn::Id),
            TrackFilter::Mimetype => Some(TrackColumn::Format),
            TrackFilter::Duration => Some(TrackColumn::Length),
            _ => None,
        }
    }
}

/// A token and the moment it expires, in seconds since the Unix epoch.
pub struct Token {
    pub value: String,
    pub expires_at: i64,
}

/// The attributes of an authentication: an access token and, where one was
/// issued, a refresh token.
pub struct AuthAttributes {
    pub token: Token,
    pub refresh: Option<Token>,
}

/// The relationships of an authentication.
#[derive(PartialEq, Eq, Structural, Clone, Copy, Debug, Hash)]
pub enum AuthRelation {
    User,
}

/// The attributes of a user.
pub struct UserAttributes {
    pub first_name: Option<String>,
    pub last_name: Option<String>,
}

/// The relationships of a user.
#[derive(PartialEq, Eq, Structural, Clone, Copy, Debug, Hash)]
pub enum UserRelation {
    Scrobbles,
    Connections,
}

/// The related resources a request for users may include.
#[derive(PartialEq, Eq, Structural, Clone, Copy, Debug, Hash)]
pub enum UserInclude {
    Scrobbles,
    ScrobblesTracks,
    ScrobblesTracksArtists,
    ScrobblesTracksMedium,
    ScrobblesTracksMediumRelease,
    ScrobblesTracksMediumReleaseArtists,
    ScrobblesTracksMediumReleaseGenres,
}

impl Named for UserInclude {
    open spec fn spec_name(self) -> Seq<char> {
        match self {
            UserInclude::Scrobbles => "scrobbles"@,
            UserInclude::ScrobblesTracks => "scrobbles.track"@,
            UserInclude::ScrobblesTracksArtists => "scrobbles.track.artists"@,
            UserInclude::ScrobblesTracksMedium => "scrobbles.track.medium"@,
            UserInclude::ScrobblesTracksMediumRelease => "scrobbles.track.medium.release"@,
            UserInclude::ScrobblesTracksMediumReleaseArtists => "scrobbles.track.medium.release.artists"@,
            UserInclude::ScrobblesTracksMediumReleaseGenres => "scrobbles.track.medium.release.genres"@,
        }
    }

    open spec fn spec_from_name(s: Seq<char>) -> Option<Self> {
        if s == "scrobbles"@ {
            Some(UserInclude::Scrobbles)
        } else if s == "scrobbles.track"@ {
            Some(UserInclude::ScrobblesTracks)
        } else if s == "scrobbles.track.artists"@ {
            Some(UserInclude::ScrobblesTracksArtists)
        } else if s == "scrobbles.track.medium"@ {
            Some(UserInclude::ScrobblesTracksMedium)
        } else if s == "scrobbles.track.medium.release"@ {
            Some(UserInclude::ScrobblesTracksMediumRelease)
        } else if s == "scrobbles.track.medium.release.artists"@ {
            Some(UserInclude::ScrobblesTracksMediumReleaseArtists)
        } else if s == "scrobbles.track.medium.release.genres"@ {
            Some(UserInclude::ScrobblesTracksMediumReleaseGenres)
        } else {
            None
        }
    }

    proof fn lemma_name_roundtrip(a: Self) {
        match a {
            UserInclude::Scrobbles => {
                reveal_strlit("scrobbles");
            },
            UserInclude::ScrobblesTracks => {
                reveal_strlit("scrobbles.track");
                reveal_strlit("scrobbles");
                assert("scrobbles"@.len() != "scrobbles.track"@.len());
            },
            UserInclude::ScrobblesTracksArtists => {
                reveal_strlit("scrobbles.track.artists");
                reveal_strlit("scrobbles");
                assert("scrobbles"@.len() != "scrobbles.track.artists"@.len());
                reveal_strlit("scrobbles.track");
                assert("scrobbles.track"@.len() != "scrobbles.track.artists"@.len());
            },
            UserInclude::ScrobblesTracksMedium => {
                reveal_strlit("scrobbles.track.medium");
                reveal_strlit("scrobbles");
                assert("scrobbles"@.len() != "scrobbles.track.medium"@.len());
                reveal_strlit("scrobbles.track");
                assert("scrobbles.track"@.len() != "scrobbles.track.medium"@.len());
                reveal_strlit("scrobbles.track.artists");
                assert("scrobbles.track.artists"@.len() != "scrobbles.track.medium"@.len());
            },
            UserInclude::ScrobblesTracksMediumRelease => {
                reveal_strlit("scrobbles.track.medium.release");
                reveal_strlit("scrobbles");
                assert("scrobbles"@.len() != "scrobbles.track.medium.release"@.len());
                reveal_strlit("scrobbles.track");
                assert("scrobbles.track"@.len() != "scrobbles.track.medium.release"@.len());
                reveal_strlit("scrobbles.track.artists");
                assert("scrobbles.track.artists"@.len() != "scrobbles.track.medium.release"@.len());
                reveal_strlit("scrobbles.track.medium");
                assert("scrobbles.track.medium"@.len() != "scrobbles.track.medium.release"@.len());
            },
            UserInclude::ScrobblesTracksMediumReleaseArtists => {
                reveal_strlit("scrobbles.track.medium.release.artists");
                reveal_strlit("scrobbles");
                assert("scrobbles"@.len() != "scrobbles.track.medium.release.artists"@.len());
                reveal_strlit("scrobbles.track");
                assert("scrobbles.track"@.len() != "scrobbles.track.medium.release.artists"@.len());
                reveal_strlit("scrobbles.track.artists");
                assert("scrobbles.track.artists"@.len() != "scrobbles.track.medium.release.artists"@.len());
                reveal_strlit("scrobbles.track.medium");
                assert("scrobbles.track.medium"@.len() != "scrobbles.track.medium.release.artists"@.len());
                reveal_strlit("scrobbles.track.medium.release");
                assert("scrobbles.track.medium.release"@.len() != "scrobbles.track.medium.release.artists"@.len());
            },
            UserInclude::ScrobblesTracksMediumReleaseGenres => {
                reveal_strlit("scrobbles.track.medium.release.genres");
                reveal_strlit("scrobbles");
                assert("scrobbles"@.len() != "scrobbles.track.medium.release.genres"@.len());
                reveal_strlit("scrobbles.track");
                assert("scrobbles.track"@.len() != "scrobbles.track.medium.release.genres"@.len());
                reveal_strlit("scrobbles.track.artists");
                assert("scrobbles.track.artists"@.len() != "scrobbles.track.medium.release.genres"@.len());
                reveal_strlit("scrobbles.track.medium");
                assert("scrobbles.track.medium"@.len() != "scrobbles.track.medium.release.genres"@.len());
                reveal_strlit("scrobbles.track.medium.release");
                assert("scrobbles.track.medium.release"@.len() != "scrobbles.track.medium.release.genres"@.len());
                reveal_strlit("scrobbles.track.medium.release.artists");
                assert("scrobbles.track.medium.release.artists"@.len() != "scrobbles.track.medium.release.genres"@.len());
            },
        }
    }

    proof fn lemma_from_name_named(s: Seq<char>) {
    }

    proof fn lemma_name_plain(a: Self) {
        reveal_strlit("scrobbles");
        reveal_strlit("scrobbles.track");
        reveal_strlit("scrobbles.track.artists");
        reveal_strlit("scrobbles.track.medium");
        reveal_strlit("scrobbles.track.medium.release");
        reveal_strlit("scrobbles.track.medium.release.artists");
        reveal_strlit("scrobbles.track.medium.release.genres");
    }

    fn name(&self) -> (r: &'static str) {
        match self {
            UserInclude::Scrobbles => "scrobbles",
            UserInclude::ScrobblesTracks => "scrobbles.track",
            UserInclude::ScrobblesTracksArtists => "scrobbles.track.artists",
            UserInclude::ScrobblesTracksMedium => "scrobbles.track.medium",
            UserInclude::ScrobblesTracksMediumRelease => "scrobbles.track.medium.release",
            UserInclude::ScrobblesTracksMediumReleaseArtists => "scrobbles.track.medium.release.artists",
            UserInclude::ScrobblesTracksMediumReleaseGenres => "scrobbles.track.medium.release.genres",
        }
    }

    fn from_name(s: &str) -> (r: Option<Self>) {
        if str_equals(s, "scrobbles") {
            Some(UserInclude::Scrobbles)
        } else if str_equals(s, "scrobbles.track") {
            Some(UserInclude::ScrobblesTracks)
        } else if str_equals(s, "scrobbles.track.artists") {
            Some(UserInclude::ScrobblesTracksArtists)
        } else if str_equals(s, "scrobbles.track.medium") {
            Some(UserInclude::ScrobblesTracksMedium)
        } else if str_equals(s, "scrobbles.track.medium.release") {
            Some(UserInclude::ScrobblesTracksMediumRelease)
        } else if str_equals(s, "scrobbles.track.medium.release.artists") {
            Some(UserInclude::ScrobblesTracksMediumReleaseArtists)
        } else if str_equals(s, "scrobbles.track.medium.release.genres") {
            Some(UserInclude::ScrobblesTracksMediumReleaseGenres)
        } else {
            None
        }
    }

    fn same(&self, other: &Self) -> (r: bool) {
        *self == *other
    }
}

/// The keys by which users may be filtered.
#[derive(PartialEq, Eq, Structural, Clone, Copy, Debug, Hash)]
pub enum UserFilter {
    Id,
    FirstName,
    LastName,
    Include(UserInclude),
}

impl IntoColumn<UserColumn> for UserFilter {
    open spec fn spec_column(&self) -> Option<UserColumn> {
        match self {
            UserFilter::Id => Some(UserColumn::Username),
            UserFilter::FirstName => Some(UserColumn::FirstName),
            UserFilter::LastName => Some(UserColumn::LastName),
            _ => None,
        }
    }

    fn column(&self) -> (r: Option<UserColumn>) {
        match self {
            UserFilter::Id => Some(UserColumn::Username),
            UserFilter::FirstName => Some(UserColumn::FirstName),
            UserFilter::LastName => Some(UserColumn::LastName),
            _ => None,
        }
    }
}

/// The attributes of a scrobble: when the track was played, in seconds since
/// the Unix epoch.
pub struct ScrobbleAttributes {
    pub at: i64,
}

/// The relationships of a scrobble.
#[derive(PartialEq, Eq, Structural, Clone, Copy, Debug, Hash)]
pub enum ScrobbleRelation {
    User,
    Track,
}

/// The related resources a request for scrobbles may include.
#[derive(PartialEq, Eq, Structural, Clone, Copy, Debug, Hash)]
pub enum ScrobbleInclude {
    User,
    Track,
    TrackArtists,
    TrackMedium,
    TrackMediumRelease,
    TrackMediumReleaseArtists,
    TrackMediumReleaseGenres,
}

impl Named for ScrobbleInclude {
    open spec fn spec_name(self) -> Seq<char> {
        match self {
            ScrobbleInclude::User => "user"@,
            ScrobbleInclude::Track => "track"@,
            ScrobbleInclude::TrackArtists => "track.artists"@,
            ScrobbleInclude::TrackMedium => "track.medium"@,
            ScrobbleInclude::TrackMediumRelease => "track.medium.release"@,
            ScrobbleInclude::TrackMediumReleaseArtists => "track.medium.release.artists"@,
            ScrobbleInclude::TrackMediumReleaseGenres => "track.medium.release.genres"@,
        }
    }

    open spec fn spec_from_name(s: Seq<char>) -> Option<Self> {
        if s == "user"@ {
            Some(ScrobbleInclude::User)
        } else if s == "track"@ {
            Some(ScrobbleInclude::Track)
        } else if s == "track.artists"@ {
            Some(ScrobbleInclude::TrackArtists)
        } else if s == "track.medium"@ {
            Some(ScrobbleInclude::TrackMedium)
        } else if s == "track.medium.release"@ {
            Some(ScrobbleInclude::TrackMediumRelease)
        } else if s == "track.medium.release.artists"@ {
            Some(ScrobbleInclude::TrackMediumReleaseArtists)
        } else if s == "track.medium.release.genres"@ {
            Some(ScrobbleInclude::TrackMediumReleaseGenres)
        } else {
            None
        }
    }

    proof fn lemma_name_roundtrip(a: Self) {
        match a {
            ScrobbleInclude::User => {
                reveal_strlit("user");
            },
            ScrobbleInclude::Track => {
                reveal_strlit("track");
                reveal_strlit("user");
                assert("user"@.len() != "track"@.len());
            },
            ScrobbleInclude::TrackArtists => {
                reveal_strlit("track.artists");
                reveal_strlit("user");
                assert("user"@.len() != "track.artists"@.len());
                reveal_strlit("track");
                assert("track"@.len() != "track.artists"@.len());
            },
            ScrobbleInclude::TrackMedium => {
                reveal_strlit("track.medium");
                reveal_strlit("user");
                assert("user"@.len() != "track.medium"@.len());
                reveal_strlit("track");
                assert("track"@.len() != "track.medium"@.len());
                reveal_strlit("track.artists");
                assert("track.artists"@.len() != "track.medium"@.len());
            },
            ScrobbleInclude::TrackMediumRelease => {
                reveal_strlit("track.medium.release");
                reveal_strlit("user");
                assert("user"@.len() != "track.medium.release"@.len());
                reveal_strlit("track");
                assert("track"@.len() != "track.medium.release"@.len());
                reveal_strlit("track.artists");
                assert("track.artists"@.len() != "track.medium.release"@.len());
                reveal_strlit("track.medium");
                assert("track.medium"@.len() != "track.medium.release"@.len());
            },
            ScrobbleInclude::TrackMediumReleaseArtists => {
                reveal_strlit("track.medium.release.artists");
                reveal_strlit("user");
                assert("user"@.len() != "track.medium.release.artists"@.len());
                reveal_strlit("track");
                assert("track"@.len() != "track.medium.release.artists"@.len());
                reveal_strlit("track.artists");
                assert("track.artists"@.len() != "track.medium.release.artists"@.len());
                reveal_strlit("track.medium");
                assert("track.medium"@.len() != "track.medium.release.artists"@.len());
                reveal_strlit("track.medium.release");
                assert("track.medium.release"@.len() != "track.medium.release.artists"@.len());
            },
            ScrobbleInclude::TrackMediumReleaseGenres => {
                reveal_strlit("track.medium.release.genres");
                reveal_strlit("user");
                assert("user"@.len() != "track.medium.release.genres"@.len());
                reveal_strlit("track");
                assert("track"@.len() != "track.medium.release.genres"@.len());
                reveal_strlit("track.artists");
                assert("track.artists"@.len() != "track.medium.release.genres"@.len());
                reveal_strlit("track.medium");
                assert("track.medium"@.len() != "track.medium.release.genres"@.len());
                reveal_strlit("track.medium.release");
                assert("track.medium.release"@.len() != "track.medium.release.genres"@.len());
                reveal_strlit("track.medium.release.artists");
                assert("track.medium.release.artists"@.len() != "track.medium.release.genres"@.len());
            },
        }
    }

    proof fn lemma_from_name_named(s: Seq<char>) {
    }

    proof fn lemma_name_plain(a: Self) {
        reveal_strlit("user");
        reveal_strlit("track");
        reveal_strlit("track.artists");
        reveal_strlit("track.medium");
        reveal_strlit("track.medium.release");
        reveal_strlit("track.medium.release.artists");
        reveal_strlit("track.medium.release.genres");
    }

    fn name(&self) -> (r: &'static str) {
        match self {
            ScrobbleInclude::User => "user",
            ScrobbleInclude::Track => "track",
            ScrobbleInclude::TrackArtists => "track.artists",
            ScrobbleInclude::TrackMedium => "track.medium",
            ScrobbleInclude::TrackMediumRelease => "track.medium.release",
            ScrobbleInclude::TrackMediumReleaseArtists => "track.medium.release.artists",
            ScrobbleInclude::TrackMediumReleaseGenres => "track.medium.release.genres",
        }
    }

    fn from_name(s: &str) -> (r: Option<Self>) {
        if str_equals(s, "user") {
            Some(ScrobbleInclude::User)
        } else if str_equals(s, "track") {
            Some(ScrobbleInclude::Track)
        } else if str_equals(s, "track.artists") {
            Some(ScrobbleInclude::TrackArtists)
        } else if str_equals(s, "track.medium") {
            Some(ScrobbleInclude::TrackMedium)
        } else if str_equals(s, "track.medium.release") {
            Some(ScrobbleInclude::TrackMediumRelease)
        } else if str_equals(s, "track.medium.release.artists") {
            Some(ScrobbleInclude::TrackMediumReleaseArtists)
        } else if str_equals(s, "track.medium.release.genres") {
            Some(ScrobbleInclude::TrackMediumReleaseGenres)
        } else {
            None
        }
    }

    fn same(&self, other: &Self) -> (r: bool) {
        *self == *other
    }
}

/// The keys by which scrobbles may be filtered.
#[derive(PartialEq, Eq, Structural, Clone, Copy, Debug, Hash)]
pub enum ScrobbleFilter {
    Id,
    At,
    Include(ScrobbleInclude),
}

impl IntoColumn<ScrobbleColumn> for ScrobbleFilter {
    open spec fn spec_column(&self) -> Option<ScrobbleColumn> {
        match self {
            ScrobbleFilter::Id => Some(ScrobbleColumn::Id),
            ScrobbleFilter::At => Some(ScrobbleColumn::At),
            _ => None,
        }
    }

    fn column(&self) -> (r: Option<ScrobbleColumn>) {
        match self {
            ScrobbleFilter::Id => Some(ScrobbleColumn::Id),
            ScrobbleFilter::At => Some(ScrobbleColumn::At),
            _ => None,
        }
    }
}

/// How a connection with an outside service is made.
#[derive(PartialEq, Eq, Structural, Clone, Copy, Debug, Hash)]
pub enum ConnectionFlow {
    Redirect,
}

/// The attributes of a connection: the service's home page and how the
/// connection is made.
pub struct ConnectionAttributes {
    pub homepage: String,
    pub flow: ConnectionFlow,
}

/// What is shown of a user's account with a connected service.
pub struct ConnectionMetaAttributes {
    pub username: String,
    pub profile_url: String,
}

/// The attributes of a genre.
pub struct GenreAttributes {
    pub name: String,
    pub disambiguation: String,
}

/// The relationships of a genre.
#[derive(PartialEq, Eq, Structural, Clone, Copy, Debug, Hash)]
pub enum GenreRelation {
    Tracks,
    Releases,
}

/// The related resources a request for genres may include.
#[derive(PartialEq, Eq, Structural, Clone, Copy, Debug, Hash)]
pub enum GenreInclude {
    Tracks,
    Releases,
}

impl Named for GenreInclude {
    open spec fn spec_name(self) -> Seq<char> {
        match self {
            GenreInclude::Tracks => "tracks"@,
            GenreInclude::Releases => "releases"@,
        }
    }

    open spec fn spec_from_name(s: Seq<char>) -> Option<Self> {
        if s == "tracks"@ {
            Some(GenreInclude::Tracks)
        } else if s == "releases"@ {
            Some(GenreInclude::Releases)
        } else {
            None
        }
    }

    proof fn lemma_name_roundtrip(a: Self) {
        match a {
            GenreInclude::Tracks => {
                reveal_strlit("tracks");
            },
            GenreInclude::Releases => {
                reveal_strlit("releases");
                reveal_strlit("tracks");
                assert("tracks"@.len() != "releases"@.len());
            },
        }
    }

    proof fn lemma_from_name_named(s: Seq<char>) {
    }

    proof fn lemma_name_plain(a: Self) {
        reveal_strlit("tracks");
        reveal_strlit("releases");
    }

    fn name(&self) -> (r: &'static str) {
        match self {
            GenreInclude::Tracks => "tracks",
            GenreInclude::Releases => "releases",
        }
    }

    fn from_name(s: &str) -> (r: Option<Self>) {
        if str_equals(s, "tracks") {
            Some(GenreInclude::Tracks)
        } else if str_equals(s, "releases") {
            Some(GenreInclude::Releases)
        } else {
            None
        }
    }

    fn same(&self, other: &Self) -> (r: bool) {
        *self == *other
    }
}

/// The keys by which genres may be filtered.
#[derive(PartialEq, Eq, Structural, Clone, Copy, Debug, Hash)]
pub enum GenreFilter {
    Name,
    Disambiguation,
    Include(GenreInclude),
}

impl IntoColumn<GenreColumn> for GenreFilter {
    open spec fn spec_column(&self) -> Option<GenreColumn> {
        match self {
            GenreFilter::Name => Some(GenreColumn::Name),
            GenreFilter::Disambiguation => Some(GenreColumn::Disambiguation),
            _ => None,
        }
    }

    fn column(&self) -> (r: Option<GenreColumn>) {
        match self {
            GenreFilter::Name => Some(GenreColumn::Name),
            GenreFilter::Disambiguation => Some(GenreColumn::Disambiguation),
            _ => None,
        }
    }
}

/// How often a genre occurs among the tracks or releases it is related to.
pub struct GenreMetaAttributes {
    pub count: i32,
}

/// Extra information attached to a relationship or a resource.
pub enum Meta {
    ArtistCredit(ArtistCreditAttributes),
    Genre(GenreMetaAttributes),
    Recording(RecordingAttributes),
    Connection(ConnectionMetaAttributes),
}

impl FilterKey for ArtistFilter {
    fn same_key(&self, other: &Self) -> (r: bool) {
        *self == *other
    }
}

impl FilterKey for ReleaseFilter {
    fn same_key(&self, other: &Self) -> (r: bool) {
        *self == *other
    }
}

impl FilterKey for MediumFilter {
    fn same_key(&self, other: &Self) -> (r: bool) {
        *self == *other
    }
}

impl FilterKey for TrackFilter {
    fn same_key(&self, other: &Self) -> (r: bool) {
        *self == *other
    }
}

impl FilterKey for UserFilter {
    fn same_key(&self, other: &Self) -> (r: bool) {
        *self == *other
    }
}

impl FilterKey for ScrobbleFilter {
    fn same_key(&self, other: &Self) -> (r: bool) {
        *self == *other
    }
}

impl FilterKey for GenreFilter {
    fn same_key(&self, other: &Self) -> (r: bool) {
        *self == *other
    }
}

/// The column each artist filter narrows a listing on: each filter that
/// names a stored field gives that field's column, the MusicBrainz id
/// filters give the id columns, and the other filters give none.
pub proof fn lemma_artist_filter_columns(related: ArtistInclude)
    ensures
        IntoColumn::<ArtistColumn>::spec_column(&ArtistFilter::Id) == Some(ArtistColumn::Id),
        IntoColumn::<ArtistColumn>::spec_column(&ArtistFilter::Name) == Some(ArtistColumn::Name),
        IntoColumn::<ArtistColumn>::spec_column(&ArtistFilter::SortName) == Some(ArtistColumn::SortName),
        IntoColumn::<ArtistColumn>::spec_column(&ArtistFilter::Description) == Some(ArtistColumn::Description),
        IntoColumn::<ArtistColumn>::spec_column(&ArtistFilter::Include(related)) is None,
{
}

/// The column each release filter narrows a listing on: each filter that
/// names a stored field gives that field's column, the MusicBrainz id
/// filters give the id columns, and the other filters give none.
pub proof fn lemma_release_filter_columns(related: ReleaseInclude)
    ensures
        IntoColumn::<ReleaseColumn>::spec_column(&ReleaseFilter::Id) == Some(ReleaseColumn::Id),
        IntoColumn::<ReleaseColumn>::spec_column(&ReleaseFilter::Title) == Some(ReleaseColumn::Title),
        IntoColumn::<ReleaseColumn>::spec_column(&ReleaseFilter::Year) == Some(ReleaseColumn::Year),
        IntoColumn::<ReleaseColumn>::spec_column(&ReleaseFilter::Month) == Some(ReleaseColumn::Month),
        IntoColumn::<ReleaseColumn>::spec_column(&ReleaseFilter::Day) == Some(ReleaseColumn::Day),
        IntoColumn::<ReleaseColumn>::spec_column(&ReleaseFilter::OriginalYear) == Some(ReleaseColumn::OriginalYear),
        IntoColumn::<ReleaseColumn>::spec_column(&ReleaseFilter::OriginalMonth) == Some(ReleaseColumn::OriginalMonth),
        IntoColumn::<ReleaseColumn>::spec_column(&ReleaseFilter::OriginalDay) == Some(ReleaseColumn::OriginalDay),
        IntoColumn::<ReleaseColumn>::spec_column(&ReleaseFilter::ReleaseType) == Some(ReleaseColumn::ReleaseType),
        IntoColumn::<ReleaseColumn>::spec_column(&ReleaseFilter::ReleaseMbid) == Some(ReleaseColumn::Id),
        IntoColumn::<ReleaseColumn>::spec_column(&ReleaseFilter::ReleaseGroupMbid) == Some(ReleaseColumn::ReleaseGroupId),
        IntoColumn::<ReleaseColumn>::spec_column(&ReleaseFilter::Disctotal) is None,
        IntoColumn::<ReleaseColumn>::spec_column(&ReleaseFilter::Tracktotal) is None,
        IntoColumn::<ReleaseColumn>::spec_column(&ReleaseFilter::Include(related)) is None,
{
}

/// The column each medium filter narrows a listing on: each filter that
/// names a stored field gives that field's column, the MusicBrainz id
/// filters give the id columns, and the other filters give none.
pub proof fn lemma_medium_filter_columns(related: MediumInclude)
    ensures
        IntoColumn::<MediumColumn>::spec_column(&MediumFilter::Id) == Some(MediumColumn::Id),
        IntoColumn::<MediumColumn>::spec_column(&MediumFilter::Position) == Some(MediumColumn::Position),
        IntoColumn::<MediumColumn>::spec_column(&MediumFilter::Tracks) == Some(MediumColumn::Tracks),
        IntoColumn::<MediumColumn>::spec_column(&MediumFilter::TrackOffset) == Some(MediumColumn::TrackOffset),
        IntoColumn::<MediumColumn>::spec_column(&MediumFilter::Format) == Some(MediumColumn::Format),
        IntoColumn::<MediumColumn>::spec_column(&MediumFilter::Include(related)) is None,
{
}

/// The column each track filter narrows a listing on: each filter that
/// names a stored field gives that field's column, the MusicBrainz id
/// filters give the id columns, and the other filters give none.
pub proof fn lemma_track_filter_columns(related: TrackInclude)
    ensures
        IntoColumn::<TrackColumn>::spec_column(&TrackFilter::Id) == Some(TrackColumn::Id),
        IntoColumn::<TrackColumn>::spec_column(&TrackFilter::Title) == Some(TrackColumn::Title),
        IntoColumn::<TrackColumn>::spec_column(&TrackFilter::Track) == Some(TrackColumn::Number),
        IntoColumn::<TrackColumn>::spec_column(&TrackFilter::RecordingMbid) == Some(TrackColumn::RecordingId),
        IntoColumn::<TrackColumn>::spec_column(&TrackFilter::TrackMbid) == Some(TrackColumn::Id),
        IntoColumn::<TrackColumn>::spec_column(&TrackFilter::Mimetype) == Some(TrackColumn::Format),
        IntoColumn::<TrackColumn>::spec_column(&TrackFilter::Duration) == Some(TrackColumn::Length),
        IntoColumn::<TrackColumn>::spec_column(&TrackFilter::Disc) is None,
        IntoColumn::<TrackColumn>::spec_column(&TrackFilter::Bpm) is None,
        IntoColumn::<TrackColumn>::spec_column(&TrackFilter::Comments) is None,
        IntoColumn::<TrackColumn>::spec_column(&TrackFilter::Framerate) is None,
        IntoColumn::<TrackColumn>::spec_column(&TrackFilter::Framecount) is None,
        IntoColumn::<TrackColumn>::spec_column(&TrackFilter::Channels) is None,
        IntoColumn::<TrackColumn>::spec_column(&TrackFilter::Bitrate) is None,
        IntoColumn::<TrackColumn>::spec_column(&TrackFilter::Bitdepth) is None,
        IntoColumn::<TrackColumn>::spec_column(&TrackFilter::Size) is None,
        IntoColumn::<TrackColumn>::spec_column(&TrackFilter::Include(related)) is None,
{
}

/// The column each user filter narrows a listing on: each filter that
/// names a stored field gives that field's column, the MusicBrainz id
/// filters give the id columns, and the other filters give none.
pub proof fn lemma_user_filter_columns(related: UserInclude)
    ensures
        IntoColumn::<UserColumn>::spec_column(&UserFilter::Id) == Some(UserColumn::Username),
        IntoColumn::<UserColumn>::spec_column(&UserFilter::FirstName) == Some(UserColumn::FirstName),
        IntoColumn::<UserColumn>::spec_column(&UserFilter::LastName) == Some(UserColumn::LastName),
        IntoColumn::<UserColumn>::spec_column(&UserFilter::Include(related)) is None,
{
}

/// The column each scrobble filter narrows a listing on: each filter that
/// names a stored field gives that field's column, the MusicBrainz id
/// filters give the id columns, and the other filters give none.
pub proof fn lemma_scrobble_filter_columns(related: ScrobbleInclude)
    ensures
        IntoColumn::<ScrobbleColumn>::spec_column(&ScrobbleFilter::Id) == Some(ScrobbleColumn::Id),
        IntoColumn::<ScrobbleColumn>::spec_column(&ScrobbleFilter::At) == Some(ScrobbleColumn::At),
        IntoColumn::<ScrobbleColumn>::spec_column(&ScrobbleFilter::Include(related)) is None,
{
}

/// The column each genre filter narrows a listing on: each filter that
/// names a stored field gives that field's column, the MusicBrainz id
/// filters give the id columns, and the other filters give none.
pub proof fn lemma_genre_filter_columns(related: GenreInclude)
    ensures
        IntoColumn::<GenreColumn>::spec_column(&GenreFilter::Name) == Some(GenreColumn::Name),
        IntoColumn::<GenreColumn>::spec_column(&GenreFilter::Disambiguation) == Some(GenreColumn::Disambiguation),
        IntoColumn::<GenreColumn>::spec_column(&GenreFilter::Include(related)) is None,
{
}

} // verus!
