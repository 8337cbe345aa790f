//! The stored columns of the library's records, by which listings are
//! filtered and sorted. Each column is named by its field in snake case.
use vstd::prelude::*;
use crate::names::Named;
use crate::text::str_equals;

verus! {

/// The stored columns of an artist.
#[derive(PartialEq, Eq, Structural, Clone, Copy, Debug, Hash)]
pub enum ArtistColumn {
    Id,
    Name,
    SortName,
    Description,
}

impl Named for ArtistColumn {
    open spec fn spec_name(self) -> Seq<char> {
        match self {
            ArtistColumn::Id => "id"@,
            ArtistColumn::Name => "name"@,
            ArtistColumn::SortName => "sort_name"@,
            ArtistColumn::Description => "description"@,
        }
    }

    open spec fn spec_from_name(s: Seq<char>) -> Option<Self> {
        if s == "id"@ {
            Some(ArtistColumn::Id)
        } else if s == "name"@ {
            Some(ArtistColumn::Name)
        } else if s == "sort_name"@ {
            Some(ArtistColumn::SortName)
        } else if s == "description"@ {
            Some(ArtistColumn::Description)
        } else {
            None
        }
    }

    proof fn lemma_name_roundtrip(a: Self) {
        match a {
            ArtistColumn::Id => {
                reveal_strlit("id");
            },
            ArtistColumn::Name => {
                reveal_strlit("name");
                reveal_strlit("id");
                assert("id"@.len() != "name"@.len());
            },
            ArtistColumn::SortName => {
                reveal_strlit("sort_name");
                reveal_strlit("id");
                assert("id"@.len() != "sort_name"@.len());
                reveal_strlit("name");
                assert("name"@.len() != "sort_name"@.len());
            },
            ArtistColumn::Description => {
                reveal_strlit("description");
                reveal_strlit("id");
                assert("id"@.len() != "description"@.len());
                reveal_strlit("name");
                assert("name"@.len() != "description"@.len());
                reveal_strlit("sort_name");
                assert("sort_name"@.len() != "description"@.len());
            },
        }
    }

    proof fn lemma_from_name_named(s: Seq<char>) {
    }

    proof fn lemma_name_plain(a: Self) {
        reveal_strlit("id");
        reveal_strlit("name");
        reveal_strlit("sort_name");
        reveal_strlit("description");
    }

    fn name(&self) -> (r: &'static str) {
        match self {
            ArtistColumn::Id => "id",
            ArtistColumn::Name => "name",
            ArtistColumn::SortName => "sort_name",
            ArtistColumn::Description => "description",
        }
    }

    fn from_name(s: &str) -> (r: Option<Self>) {
        if str_equals(s, "id") {
            Some(ArtistColumn::Id)
        } else if str_equals(s, "name") {
            Some(ArtistColumn::Name)
        } else if str_equals(s, "sort_name") {
            Some(ArtistColumn::SortName)
        } else if str_equals(s, "description") {
            Some(ArtistColumn::Description)
        } else {
            None
        }
    }

    fn same(&self, other: &Self) -> (r: bool) {
        *self == *other
    }
}

/// The stored columns of a release.
#[derive(PartialEq, Eq, Structural, Clone, Copy, Debug, Hash)]
pub enum ReleaseColumn {
    Id,
    Title,
    ReleaseGroupId,
    ReleaseType,
    Genres,
    Asin,
    Country,
    Label,
    CatalogNo,
    Status,
    Year,
    Month,
    Day,
    OriginalYear,
    OriginalMonth,
    OriginalDay,
    Script,
    Path,
}

impl Named for ReleaseColumn {
    open spec fn spec_name(self) -> Seq<char> {
        match self {
            ReleaseColumn::Id => "id"@,
            ReleaseColumn::Title => "title"@,
            ReleaseColumn::ReleaseGroupId => "release_group_id"@,
            ReleaseColumn::ReleaseType => "release_type"@,
            ReleaseColumn::Genres => "genres"@,
            ReleaseColumn::Asin => "asin"@,
            ReleaseColumn::Country => "country"@,
            ReleaseColumn::Label => "label"@,
            ReleaseColumn::CatalogNo => "catalog_no"@,
            ReleaseColumn::Status => "status"@,
            ReleaseColumn::Year => "year"@,
            ReleaseColumn::Month => "month"@,
            ReleaseColumn::Day => "day"@,
            ReleaseColumn::OriginalYear => "original_year"@,
            ReleaseColumn::OriginalMonth => "original_month"@,
            ReleaseColumn::OriginalDay => "original_day"@,
            ReleaseColumn::Script => "script"@,
            ReleaseColumn::Path => "path"@,
        }
    }

    open spec fn spec_from_name(s: Seq<char>) -> Option<Self> {
        if s == "id"@ {
            Some(ReleaseColumn::Id)
        } else if s == "title"@ {
            Some(ReleaseColumn::Title)
        } else if s == "release_group_id"@ {
            Some(ReleaseColumn::ReleaseGroupId)
        } else if s == "release_type"@ {
            Some(ReleaseColumn::ReleaseType)
        } else if s == "genres"@ {
            Some(ReleaseColumn::Genres)
        } else if s == "asin"@ {
            Some(ReleaseColumn::Asin)
        } else if s == "country"@ {
            Some(ReleaseColumn::Country)
        } else if s == "label"@ {
            Some(ReleaseColumn::Label)
        } else if s == "catalog_no"@ {
            Some(ReleaseColumn::CatalogNo)
        } else if s == "status"@ {
            Some(ReleaseColumn::Status)
        } else if s == "year"@ {
            Some(ReleaseColumn::Year)
        } else if s == "month"@ {
            Some(ReleaseColumn::Month)
        } else if s == "day"@ {
            Some(ReleaseColumn::Day)
        } else if s == "original_year"@ {
            Some(ReleaseColumn::OriginalYear)
        } else if s == "original_month"@ {
            Some(ReleaseColumn::OriginalMonth)
        } else if s == "original_day"@ {
            Some(ReleaseColumn::OriginalDay)
        } else if s == "script"@ {
            Some(ReleaseColumn::Script)
        } else if s == "path"@ {
            Some(ReleaseColumn::Path)
        } else {
            None
        }
    }

    proof fn lemma_name_roundtrip(a: Self) {
        match a {
            ReleaseColumn::Id => {
                reveal_strlit("id");
            },
            ReleaseColumn::Title => {
                reveal_strlit("title");
                reveal_strlit("id");
                assert("id"@.len() != "title"@.len());
            },
            ReleaseColumn::ReleaseGroupId => {
                reveal_strlit("release_group_id");
                reveal_strlit("id");
                assert("id"@.len() != "release_group_id"@.len());
                reveal_strlit("title");
                assert("title"@.len() != "release_group_id"@.len());
            },
            ReleaseColumn::ReleaseType => {
                reveal_strlit("release_type");
                reveal_strlit("id");
                assert("id"@.len() != "release_type"@.len());
                reveal_strlit("title");
                assert("title"@.len() != "release_type"@.len());
                reveal_strlit("release_group_id");
                assert("release_group_id"@.len() != "release_type"@.len());
            },
            ReleaseColumn::Genres => {
                reveal_strlit("genres");
                reveal_strlit("id");
                assert("id"@.len() != "genres"@.len());
                reveal_strlit("title");
                assert("title"@.len() != "genres"@.len());
                reveal_strlit("release_group_id");
                assert("release_group_id"@.len() != "genres"@.len());
                reveal_strlit("release_type");
                assert("release_type"@.len() != "genres"@.len());
            },
            ReleaseColumn::Asin => {
                reveal_strlit("asin");
                reveal_strlit("id");
                assert("id"@.len() != "asin"@.len());
                reveal_strlit("title");
                assert("title"@.len() != "asin"@.len());
                reveal_strlit("release_group_id");
                assert("release_group_id"@.len() != "asin"@.len());
                reveal_strlit("release_type");
                assert("release_type"@.len() != "asin"@.len());
                reveal_strlit("genres");
                assert("genres"@.len() != "asin"@.len());
            },
            ReleaseColumn::Country => {
                reveal_strlit("country");
                reveal_strlit("id");
                assert("id"@.len() != "country"@.len());
                reveal_strlit("title");
                assert("title"@.len() != "country"@.len());
                reveal_strlit("release_group_id");
                assert("release_group_id"@.len() != "country"@.len());
                reveal_strlit("release_type");
                assert("release_type"@.len() != "country"@.len());
                reveal_strlit("genres");
                assert("genres"@.len() != "country"@.len());
                reveal_strlit("asin");
                assert("asin"@.len() != "country"@.len());
            },
            ReleaseColumn::Label => {
                reveal_strlit("label");
                reveal_strlit("id");
                assert("id"@.len() != "label"@.len());
                reveal_strlit("title");
                assert("title"@[0] != "label"@[0]);
                reveal_strlit("release_group_id");
                assert("release_group_id"@.len() != "label"@.len());
                reveal_strlit("release_type");
                assert("release_type"@.len() != "label"@.len());
                reveal_strlit("genres");
                assert("genres"@.len() != "label"@.len());
                reveal_strlit("asin");
                assert("asin"@.len() != "label"@.len());
                reveal_strlit("country");
                assert("country"@.len() != "label"@.len());
            },
            ReleaseColumn::CatalogNo => {
                reveal_strlit("catalog_no");
                reveal_strlit("id");
                assert("id"@.len() != "catalog_no"@.len());
                reveal_strlit("title");
                assert("title"@.len() != "catalog_no"@.len());
                reveal_strlit("release_group_id");
                assert("release_group_id"@.len() != "catalog_no"@.len());
                reveal_strlit("release_type");
                assert("release_type"@.len() != "catalog_no"@.len());
                reveal_strlit("genres");
                assert("genres"@.len() != "catalog_no"@.len());
                reveal_strlit("asin");
                assert("asin"@.len() != "catalog_no"@.len());
                reveal_strlit("country");
                assert("country"@.len() != "catalog_no"@.len());
                reveal_strlit("label");
                assert("label"@.len() != "catalog_no"@.len());
            },
            ReleaseColumn::Status => {
                reveal_strlit("status");
                reveal_strlit("id");
                assert("id"@.len() != "status"@.len());
                reveal_strlit("title");
                assert("title"@.len() != "status"@.len());
                reveal_strlit("release_group_id");
                assert("release_group_id"@.len() != "status"@.len());
                reveal_strlit("release_type");
                assert("release_type"@.len() != "status"@.len());
                reveal_strlit("genres");
                assert("genres"@[0] != "status"@[0]);
                reveal_strlit("asin");
                assert("asin"@.len() != "status"@.len());
                reveal_strlit("country");
                assert("country"@.len() != "status"@.len());
                reveal_strlit("label");
                assert("label"@.len() != "status"@.len());
                reveal_strlit("catalog_no");
                assert("catalog_no"@.len() != "status"@.len());
            },
            ReleaseColumn::Year => {
                reveal_strlit("year");
                reveal_strlit("id");
                assert("id"@.len() != "year"@.len());
                reveal_strlit("title");
                assert("title"@.len() != "year"@.len());
                reveal_strlit("release_group_id");
                assert("release_group_id"@.len() != "year"@.len());
                reveal_strlit("release_type");
                assert("release_type"@.len() != "year"@.len());
                reveal_strlit("genres");
                assert("genres"@.len() != "year"@.len());
                reveal_strlit("asin");
                assert("asin"@[0] != "year"@[0]);
                reveal_strlit("country");
                assert("country"@.len() != "year"@.len());
                reveal_strlit("label");
                assert("label"@.len() != "year"@.len());
                reveal_strlit("catalog_no");
                assert("catalog_no"@.len() != "year"@.len());
                reveal_strlit("status");
                assert("status"@.len() != "year"@.len());
            },
            ReleaseColumn::Month => {
                reveal_strlit("month");
                reveal_strlit("id");
                assert("id"@.len() != "month"@.len());
                reveal_strlit("title");
                assert("title"@[0] != "month"@[0]);
                reveal_strlit("release_group_id");
                assert("release_group_id"@.len() != "month"@.len());
                reveal_strlit("release_type");
                assert("release_type"@.len() != "month"@.len());
                reveal_strlit("genres");
                assert("genres"@.len() != "month"@.len());
                reveal_strlit("asin");
                assert("asin"@.len() != "month"@.len());
                reveal_strlit("country");
                assert("country"@.len() != "month"@.len());
                reveal_strlit("label");
                assert("label"@[0] != "month"@[0]);
                reveal_strlit("catalog_no");
                assert("catalog_no"@.len() != "month"@.len());
                reveal_strlit("status");
                assert("status"@.len() != "month"@.len());
                reveal_strlit("year");
                assert("year"@.len() != "month"@.len());
            },
            ReleaseColumn::Day => {
                reveal_strlit("day");
                reveal_strlit("id");
                assert("id"@.len() != "day"@.len());
                reveal_strlit("title");
                assert("title"@.len() != "day"@.len());
                reveal_strlit("release_group_id");
                assert("release_group_id"@.len() != "day"@.len());
                reveal_strlit("release_type");
                assert("release_type"@.len() != "day"@.len());
                reveal_strlit("genres");
                assert("genres"@.len() != "day"@.len());
                reveal_strlit("asin");
                assert("asin"@.len() != "day"@.len());
                reveal_strlit("country");
                assert("country"@.len() != "day"@.len());
                reveal_strlit("label");
                assert("label"@.len() != "day"@.len());
                reveal_strlit("catalog_no");
                assert("catalog_no"@.len() != "day"@.len());
                reveal_strlit("status");
                assert("status"@.len() != "day"@.len());
                reveal_strlit("year");
                assert("year"@.len() != "day"@.len());
                reveal_strlit("month");
                assert("month"@.len() != "day"@.len());
            },
            ReleaseColumn::OriginalYear => {
                reveal_strlit("original_year");
                reveal_strlit("id");
                assert("id"@.len() != "original_year"@.len());
                reveal_strlit("title");
                assert("title"@.len() != "original_year"@.len());
                reveal_strlit("release_group_id");
                assert("release_group_id"@.len() != "original_year"@.len());
                reveal_strlit("release_type");
                assert("release_type"@.len() != "original_year"@.len());
                reveal_strlit("genres");
                assert("genres"@.len() != "original_year"@.len());
                reveal_strlit("asin");
                assert("asin"@.len() != "original_year"@.len());
                reveal_strlit("country");
                assert("country"@.len() != "original_year"@.len());
                reveal_strlit("label");
                assert("label"@.len() != "original_year"@.len());
                reveal_strlit("catalog_no");
                assert("catalog_no"@.len() != "original_year"@.len());
                reveal_strlit("status");
                assert("status"@.len() != "original_year"@.len());
                reveal_strlit("year");
                assert("year"@.len() != "original_year"@.len());
                reveal_strlit("month");
                assert("month"@.len() != "original_year"@.len());
                reveal_strlit("day");
                assert("day"@.len() != "original_year"@.len());
            },
            ReleaseColumn::OriginalMonth => {
                reveal_strlit("original_month");
                reveal_strlit("id");
                assert("id"@.len() != "original_month"@.len());
                reveal_strlit("title");
                assert("title"@.len() != "original_month"@.len());
                reveal_strlit("release_group_id");
                assert("release_group_id"@.len() != "original_month"@.len());
                reveal_strlit("release_type");
                assert("release_type"@.len() != "original_month"@.len());
                reveal_strlit("genres");
                assert("genres"@.len() != "original_month"@.len());
                reveal_strlit("asin");
                assert("asin"@.len() != "original_month"@.len());
                reveal_strlit("country");
                assert("country"@.len() != "original_month"@.len());
                reveal_strlit("label");
                assert("label"@.len() != "original_month"@.len());
                reveal_strlit("catalog_no");
                assert("catalog_no"@.len() != "original_month"@.len());
                reveal_strlit("status");
                assert("status"@.len() != "original_month"@.len());
                reveal_strlit("year");
                assert("year"@.len() != "original_month"@.len());
                reveal_strlit("month");
                assert("month"@.len() != "original_month"@.len());
                reveal_strlit("day");
                assert("day"@.len() != "original_month"@.len());
                reveal_strlit("original_year");
                assert("original_year"@.len() != "original_month"@.len());
            },
            ReleaseColumn::OriginalDay => {
                reveal_strlit("original_day");
                reveal_strlit("id");
                assert("id"@.len() != "original_day"@.len());
                reveal_strlit("title");
                assert("title"@.len() != "original_day"@.len());
                reveal_strlit("release_group_id");
                assert("release_group_id"@.len() != "original_day"@.len());
                reveal_strlit("release_type");
                assert("release_type"@[0] != "original_day"@[0]);
                reveal_strlit("genres");
                assert("genres"@.len() != "original_day"@.len());
                reveal_strlit("asin");
                assert("asin"@.len() != "original_day"@.len());
                reveal_strlit("country");
                assert("country"@.len() != "original_day"@.len());
                reveal_strlit("label");
                assert("label"@.len() != "original_day"@.len());
                reveal_strlit("catalog_no");
                assert("catalog_no"@.len() != "original_day"@.len());
                reveal_strlit("status");
                assert("status"@.len() != "original_day"@.len());
                reveal_strlit("year");
                assert("year"@.len() != "original_day"@.len());
                reveal_strlit("month");
                assert("month"@.len() != "original_day"@.len());
                reveal_strlit("day");
                assert("day"@.len() != "original_day"@.len());
                reveal_strlit("original_year");
                assert("original_year"@.len() != "original_day"@.len());
                reveal_strlit("original_month");
                assert("original_month"@.len() != "original_day"@.len());
            },
            ReleaseColumn::Script => {
                reveal_strlit("script");
                reveal_strlit("id");
                assert("id"@.len() != "script"@.len());
                reveal_strlit("title");
                assert("title"@.len() != "script"@.len());
                reveal_strlit("release_group_id");
                assert("release_group_id"@.len() != "script"@.len());
                reveal_strlit("release_type");
                assert("release_type"@.len() != "script"@.len());
                reveal_strlit("genres");
                assert("genres"@[0] != "script"@[0]);
                reveal_strlit("asin");
                assert("asin"@.len() != "script"@.len());
                reveal_strlit("country");
                assert("country"@.len() != "script"@.len());
                reveal_strlit("label");
                assert("label"@.len() != "script"@.len());
                reveal_strlit("catalog_no");
                assert("catalog_no"@.len() != "script"@.len());
                reveal_strlit("status");
                assert("status"@[1] != "script"@[1]);
                reveal_strlit("year");
                assert("year"@.len() != "script"@.len());
                reveal_strlit("month");
                assert("month"@.len() != "script"@.len());
                reveal_strlit("day");
                assert("day"@.len() != "script"@.len());
                reveal_strlit("original_year");
                assert("original_year"@.len() != "script"@.len());
                reveal_strlit("original_month");
                assert("original_month"@.len() != "script"@.len());
                reveal_strlit("original_day");
                assert("original_day"@.len() != "script"@.len());
            },
            ReleaseColumn::Path => {
                reveal_strlit("path");
                reveal_strlit("id");
                assert("id"@.len() != "path"@.len());
                reveal_strlit("title");
                assert("title"@.len() != "path"@.len());
                reveal_strlit("release_group_id");
                assert("release_group_id"@.len() != "path"@.len());
                reveal_strlit("release_type");
                assert("release_type"@.len() != "path"@.len());
                reveal_strlit("genres");
                assert("genres"@.len() != "path"@.len());
                reveal_strlit("asin");
                assert("asin"@[0] != "path"@[0]);
                reveal_strlit("country");
                assert("country"@.len() != "path"@.len());
                reveal_strlit("label");
                assert("label"@.len() != "path"@.len());
                reveal_strlit("catalog_no");
                assert("catalog_no"@.len() != "path"@.len());
                reveal_strlit("status");
                assert("status"@.len() != "path"@.len());
                reveal_strlit("year");
                assert("year"@[0] != "path"@[0]);
                reveal_strlit("month");
                assert("month"@.len() != "path"@.len());
                reveal_strlit("day");
                assert("day"@.len() != "path"@.len());
                reveal_strlit("original_year");
                assert("original_year"@.len() != "path"@.len());
                reveal_strlit("original_month");
                assert("original_month"@.len() != "path"@.len());
                reveal_strlit("original_day");
                assert("original_day"@.len() != "path"@.len());
                reveal_strlit("script");
                assert("script"@.len() != "path"@.len());
            },
        }
    }

    proof fn lemma_from_name_named(s: Seq<char>) {
    }

    proof fn lemma_name_plain(a: Self) {
        reveal_strlit("id");
        reveal_strlit("title");
        reveal_strlit("release_group_id");
        reveal_strlit("release_type");
        reveal_strlit("genres");
        reveal_strlit("asin");
        reveal_strlit("country");
        reveal_strlit("label");
        reveal_strlit("catalog_no");
        reveal_strlit("status");
        reveal_strlit("year");
        reveal_strlit("month");
        reveal_strlit("day");
        reveal_strlit("original_year");
        reveal_strlit("original_month");
        reveal_strlit("original_day");
        reveal_strlit("script");
        reveal_strlit("path");
    }

    fn name(&self) -> (r: &'static str) {
        match self {
            ReleaseColumn::Id => "id",
            ReleaseColumn::Title => "title",
            ReleaseColumn::ReleaseGroupId => "release_group_id",
            ReleaseColumn::ReleaseType => "release_type",
            ReleaseColumn::Genres => "genres",
            ReleaseColumn::Asin => "asin",
            ReleaseColumn::Country => "country",
            ReleaseColumn::Label => "label",
            ReleaseColumn::CatalogNo => "catalog_no",
            ReleaseColumn::Status => "status",
            ReleaseColumn::Year => "year",
            ReleaseColumn::Month => "month",
            ReleaseColumn::Day => "day",
            ReleaseColumn::OriginalYear => "original_year",
            ReleaseColumn::OriginalMonth => "original_month",
            ReleaseColumn::OriginalDay => "original_day",
            ReleaseColumn::Script => "script",
            ReleaseColumn::Path => "path",
        }
    }

    fn from_name(s: &str) -> (r: Option<Self>) {
        if str_equals(s, "id") {
            Some(ReleaseColumn::Id)
        } else if str_equals(s, "title") {
            Some(ReleaseColumn::Title)
        } else if str_equals(s, "release_group_id") {
            Some(ReleaseColumn::ReleaseGroupId)
        } else if str_equals(s, "release_type") {
            Some(ReleaseColumn::ReleaseType)
        } else if str_equals(s, "genres") {
            Some(ReleaseColumn::Genres)
        } else if str_equals(s, "asin") {
            Some(ReleaseColumn::Asin)
        } else if str_equals(s, "country") {
            Some(ReleaseColumn::Country)
        } else if str_equals(s, "label") {
            Some(ReleaseColumn::Label)
        } else if str_equals(s, "catalog_no") {
            Some(ReleaseColumn::CatalogNo)
        } else if str_equals(s, "status") {
            Some(ReleaseColumn::Status)
        } else if str_equals(s, "year") {
            Some(ReleaseColumn::Year)
        } else if str_equals(s, "month") {
            Some(ReleaseColumn::Month)
        } else if str_equals(s, "day") {
            Some(ReleaseColumn::Day)
        } else if str_equals(s, "original_year") {
            Some(ReleaseColumn::OriginalYear)
        } else if str_equals(s, "original_month") {
            Some(ReleaseColumn::OriginalMonth)
        } else if str_equals(s, "original_day") {
            Some(ReleaseColumn::OriginalDay)
        } else if str_equals(s, "script") {
            Some(ReleaseColumn::Script)
        } else if str_equals(s, "path") {
            Some(ReleaseColumn::Path)
        } else {
            None
        }
    }

    fn same(&self, other: &Self) -> (r: bool) {
        *self == *other
    }
}

/// The stored columns of a medium.
#[derive(PartialEq, Eq, Structural, Clone, Copy, Debug, Hash)]
pub enum MediumColumn {
    Id,
    ReleaseId,
    Position,
    Tracks,
    TrackOffset,
    Format,
}

impl Named for MediumColumn {
    open spec fn spec_name(self) -> Seq<char> {
        match self {
            MediumColumn::Id => "id"@,
            MediumColumn::ReleaseId => "release_id"@,
            MediumColumn::Position => "position"@,
            MediumColumn::Tracks => "tracks"@,
            MediumColumn::TrackOffset => "track_offset"@,
            MediumColumn::Format => "format"@,
        }
    }

    open spec fn spec_from_name(s: Seq<char>) -> Option<Self> {
        if s == "id"@ {
            Some(MediumColumn::Id)
        } else if s == "release_id"@ {
            Some(MediumColumn::ReleaseId)
        } else if s == "position"@ {
            Some(MediumColumn::Position)
        } else if s == "tracks"@ {
            Some(MediumColumn::Tracks)
        } else if s == "track_offset"@ {
            Some(MediumColumn::TrackOffset)
        } else if s == "format"@ {
            Some(MediumColumn::Format)
        } else {
            None
        }
    }

    proof fn lemma_name_roundtrip(a: Self) {
        match a {
            MediumColumn::Id => {
                reveal_strlit("id");
            },
            MediumColumn::ReleaseId => {
                reveal_strlit("release_id");
                reveal_strlit("id");
                assert("id"@.len() != "release_id"@.len());
            },
            MediumColumn::Position => {
                reveal_strlit("position");
                reveal_strlit("id");
                assert("id"@.len() != "position"@.len());
                reveal_strlit("release_id");
                assert("release_id"@.len() != "position"@.len());
            },
            MediumColumn::Tracks => {
                reveal_strlit("tracks");
                reveal_strlit("id");
                assert("id"@.len() != "tracks"@.len());
                reveal_strlit("release_id");
                assert("release_id"@.len() != "tracks"@.len());
                reveal_strlit("position");
                assert("position"@.len() != "tracks"@.len());
            },
            MediumColumn::TrackOffset => {
                reveal_strlit("track_offset");
                reveal_strlit("id");
                assert("id"@.len() != "track_offset"@.len());
                reveal_strlit("release_id");
                assert("release_id"@.len() != "track_offset"@.len());
                reveal_strlit("position");
                assert("position"@.len() != "track_offset"@.len());
                reveal_strlit("tracks");
                assert("tracks"@.len() != "track_offset"@.len());
            },
            MediumColumn::Format => {
                reveal_strlit("format");
                reveal_strlit("id");
                assert("id"@.len() != "format"@.len());
                reveal_strlit("release_id");
                assert("release_id"@.len() != "format"@.len());
                reveal_strlit("position");
                assert("position"@.len() != "format"@.len());
                reveal_strlit("tracks");
                assert("tracks"@[0] != "format"@[0]);
                reveal_strlit("track_offset");
                assert("track_offset"@.len() != "format"@.len());
            },
        }
    }

    proof fn lemma_from_name_named(s: Seq<char>) {
    }

    proof fn lemma_name_plain(a: Self) {
        reveal_strlit("id");
        reveal_strlit("release_id");
        reveal_strlit("position");
        reveal_strlit("tracks");
        reveal_strlit("track_offset");
        reveal_strlit("format");
    }

    fn name(&self) -> (r: &'static str) {
        match self {
            MediumColumn::Id => "id",
            MediumColumn::ReleaseId => "release_id",
            MediumColumn::Position => "position",
            MediumColumn::Tracks => "tracks",
            MediumColumn::TrackOffset => "track_offset",
            MediumColumn::Format => "format",
        }
    }

    fn from_name(s: &str) -> (r: Option<Self>) {
        if str_equals(s, "id") {
            Some(MediumColumn::Id)
        } else if str_equals(s, "release_id") {
            Some(MediumColumn::ReleaseId)
        } else if str_equals(s, "position") {
            Some(MediumColumn::Position)
        } else if str_equals(s, "tracks") {
            Some(MediumColumn::Tracks)
        } else if str_equals(s, "track_offset") {
            Some(MediumColumn::TrackOffset)
        } else if str_equals(s, "format") {
            Some(MediumColumn::Format)
        } else {
            None
        }
    }

    fn same(&self, other: &Self) -> (r: bool) {
        *self == *other
    }
}

/// The stored columns of a track.
#[derive(PartialEq, Eq, Structural, Clone, Copy, Debug, Hash)]
pub enum TrackColumn {
    Id,
    MediumId,
    Title,
    Length,
    Number,
    Genres,
    RecordingId,
    Format,
    Path,
}

impl Named for TrackColumn {
    open spec fn spec_name(self) -> Seq<char> {
        match self {
            TrackColumn::Id => "id"@,
            TrackColumn::MediumId => "medium_id"@,
            TrackColumn::Title => "title"@,
            TrackColumn::Length => "length"@,
            TrackColumn::Number => "number"@,
            TrackColumn::Genres => "genres"@,
            TrackColumn::RecordingId => "recording_id"@,
            TrackColumn::Format => "format"@,
            TrackColumn::Path => "path"@,
        }
    }

    open spec fn spec_from_name(s: Seq<char>) -> Option<Self> {
        if s == "id"@ {
            Some(TrackColumn::Id)
        } else if s == "medium_id"@ {
            Some(TrackColumn::MediumId)
        } else if s == "title"@ {
            Some(TrackColumn::Title)
        } else if s == "length"@ {
            Some(TrackColumn::Length)
        } else if s == "number"@ {
            Some(TrackColumn::Number)
        } else if s == "genres"@ {
            Some(TrackColumn::Genres)
        } else if s == "recording_id"@ {
            Some(TrackColumn::RecordingId)
        } else if s == "format"@ {
            Some(TrackColumn::Format)
        } else if s == "path"@ {
            Some(TrackColumn::Path)
        } else {
            None
        }
    }

    proof fn lemma_name_roundtrip(a: Self) {
        match a {
            TrackColumn::Id => {
                reveal_strlit("id");
            },
            TrackColumn::MediumId => {
                reveal_strlit("medium_id");
                reveal_strlit("id");
                assert("id"@.len() != "medium_id"@.len());
            },
            TrackColumn::Title => {
                reveal_strlit("title");
                reveal_strlit("id");
                assert("id"@.len() != "title"@.len());
                reveal_strlit("medium_id");
                assert("medium_id"@.len() != "title"@.len());
            },
            TrackColumn::Length => {
                reveal_strlit("length");
                reveal_strlit("id");
                assert("id"@.len() != "length"@.len());
                reveal_strlit("medium_id");
                assert("medium_id"@.len() != "length"@.len());
                reveal_strlit("title");
                assert("title"@.len() != "length"@.len());
            },
            TrackColumn::Number => {
                reveal_strlit("number");
                reveal_strlit("id");
                assert("id"@.len() != "number"@.len());
                reveal_strlit("medium_id");
                assert("medium_id"@.len() != "number"@.len());
                reveal_strlit("title");
                assert("title"@.len() != "number"@.len());
                reveal_strlit("length");
                assert("length"@[0] != "number"@[0]);
            },
            TrackColumn::Genres => {
                reveal_strlit("genres");
                reveal_strlit("id");
                assert("id"@.len() != "genres"@.len());
                reveal_strlit("medium_id");
                assert("medium_id"@.len() != "genres"@.len());
                reveal_strlit("title");
                assert("title"@.len() != "genres"@.len());
                reveal_strlit("length");
                assert("length"@[0] != "genres"@[0]);
                reveal_strlit("number");
                assert("number"@[0] != "genres"@[0]);
            },
            TrackColumn::RecordingId => {
                reveal_strlit("recording_id");
                reveal_strlit("id");
                assert("id"@.len() != "recording_id"@.len());
                reveal_strlit("medium_id");
                assert("medium_id"@.len() != "recording_id"@.len());
                reveal_strlit("title");
                assert("title"@.len() != "recording_id"@.len());
                reveal_strlit("length");
                assert("length"@.len() != "recording_id"@.len());
                reveal_strlit("number");
                assert("number"@.len() != "recording_id"@.len());
                reveal_strlit("genres");
                assert("genres"@.len() != "recording_id"@.len());
            },
            TrackColumn::Format => {
                reveal_strlit("format");
                reveal_strlit("id");
                assert("id"@.len() != "format"@.len());
                reveal_strlit("medium_id");
                assert("medium_id"@.len() != "format"@.len());
                reveal_strlit("title");
                assert("title"@.len() != "format"@.len());
                reveal_strlit("length");
                assert("length"@[0] != "format"@[0]);
                reveal_strlit("number");
                assert("number"@[0] != "format"@[0]);
                reveal_strlit("genres");
                assert("genres"@[0] != "format"@[0]);
                reveal_strlit("recording_id");
                assert("recording_id"@.len() != "format"@.len());
            },
            TrackColumn::Path => {
                reveal_strlit("path");
                reveal_strlit("id");
                assert("id"@.len() != "path"@.len());
                reveal_strlit("medium_id");
                assert("medium_id"@.len() != "path"@.len());
                reveal_strlit("title");
                assert("title"@.len() != "path"@.len());
                reveal_strlit("length");
                assert("length"@.len() != "path"@.len());
                reveal_strlit("number");
                assert("number"@.len() != "path"@.len());
                reveal_strlit("genres");
                assert("genres"@.len() != "path"@.len());
                reveal_strlit("recording_id");
                assert("recording_id"@.len() != "path"@.len());
                reveal_strlit("format");
                assert("format"@.len() != "path"@.len());
            },
        }
    }

    proof fn lemma_from_name_named(s: Seq<char>) {
    }

    proof fn lemma_name_plain(a: Self) {
        reveal_strlit("id");
        reveal_strlit("medium_id");
        reveal_strlit("title");
        reveal_strlit("length");
        reveal_strlit("number");
        reveal_strlit("genres");
        reveal_strlit("recording_id");
        reveal_strlit("format");
        reveal_strlit("path");
    }

    fn name(&self) -> (r: &'static str) {
        match self {
            TrackColumn::Id => "id",
            TrackColumn::MediumId => "medium_id",
            TrackColumn::Title => "title",
            TrackColumn::Length => "length",
            TrackColumn::Number => "number",
            TrackColumn::Genres => "genres",
            TrackColumn::RecordingId => "recording_id",
            TrackColumn::Format => "format",
            TrackColumn::Path => "path",
        }
    }

    fn from_name(s: &str) -> (r: Option<Self>) {
        if str_equals(s, "id") {
            Some(TrackColumn::Id)
        } else if str_equals(s, "medium_id") {
            Some(TrackColumn::MediumId)
        } else if str_equals(s, "title") {
            Some(TrackColumn::Title)
        } else if str_equals(s, "length") {
            Some(TrackColumn::Length)
        } else if str_equals(s, "number") {
            Some(TrackColumn::Number)
        } else if str_equals(s, "genres") {
            Some(TrackColumn::Genres)
        } else if str_equals(s, "recording_id") {
            Some(TrackColumn::RecordingId)
        } else if str_equals(s, "format") {
            Some(TrackColumn::Format)
        } else if str_equals(s, "path") {
            Some(TrackColumn::Path)
        } else {
            None
        }
    }

    fn same(&self, other: &Self) -> (r: bool) {
        *self == *other
    }
}

/// The stored columns of a user.
#[derive(PartialEq, Eq, Structural, Clone, Copy, Debug, Hash)]
pub enum UserColumn {
    Username,
    FirstName,
    LastName,
}

impl Named for UserColumn {
    open spec fn spec_name(self) -> Seq<char> {
        match self {
            UserColumn::Username => "username"@,
            UserColumn::FirstName => "first_name"@,
            UserColumn::LastName => "last_name"@,
        }
    }

    open spec fn spec_from_name(s: Seq<char>) -> Option<Self> {
        if s == "username"@ {
            Some(UserColumn::Username)
        } else if s == "first_name"@ {
            Some(UserColumn::FirstName)
        } else if s == "last_name"@ {
            Some(UserColumn::LastName)
        } else {
            None
        }
    }

    proof fn lemma_name_roundtrip(a: Self) {
        match a {
            UserColumn::Username => {
                reveal_strlit("username");
            },
            UserColumn::FirstName => {
                reveal_strlit("first_name");
                reveal_strlit("username");
                assert("username"@.len() != "first_name"@.len());
            },
            UserColumn::LastName => {
                reveal_strlit("last_name");
                reveal_strlit("username");
                assert("username"@.len() != "last_name"@.len());
                reveal_strlit("first_name");
                assert("first_name"@.len() != "last_name"@.len());
            },
        }
    }

    proof fn lemma_from_name_named(s: Seq<char>) {
    }

    proof fn lemma_name_plain(a: Self) {
        reveal_strlit("username");
        reveal_strlit("first_name");
        reveal_strlit("last_name");
    }

    fn name(&self) -> (r: &'static str) {
        match self {
            UserColumn::Username => "username",
            UserColumn::FirstName => "first_name",
            UserColumn::LastName => "last_name",
        }
    }

    fn from_name(s: &str) -> (r: Option<Self>) {
        if str_equals(s, "username") {
            Some(UserColumn::Username)
        } else if str_equals(s, "first_name") {
            Some(UserColumn::FirstName)
        } else if str_equals(s, "last_name") {
            Some(UserColumn::LastName)
        } else {
            None
        }
    }

    fn same(&self, other: &Self) -> (r: bool) {
        *self == *other
    }
}

/// The stored columns of a scrobble.
#[derive(PartialEq, Eq, Structural, Clone, Copy, Debug, Hash)]
pub enum ScrobbleColumn {
    Id,
    At,
    User,
    Track,
}

impl Named for ScrobbleColumn {
    open spec fn spec_name(self) -> Seq<char> {
        match self {
            ScrobbleColumn::Id => "id"@,
            ScrobbleColumn::At => "at"@,
            ScrobbleColumn::User => "user"@,
            ScrobbleColumn::Track => "track"@,
        }
    }

    open spec fn spec_from_name(s: Seq<char>) -> Option<Self> {
        if s == "id"@ {
            Some(ScrobbleColumn::Id)
        } else if s == "at"@ {
            Some(ScrobbleColumn::At)
        } else if s == "user"@ {
            Some(ScrobbleColumn::User)
        } else if s == "track"@ {
            Some(ScrobbleColumn::Track)
        } else {
            None
        }
    }

    proof fn lemma_name_roundtrip(a: Self) {
        match a {
            ScrobbleColumn::Id => {
                reveal_strlit("id");
            },
            ScrobbleColumn::At => {
                reveal_strlit("at");
                reveal_strlit("id");
                assert("id"@[0] != "at"@[0]);
            },
            ScrobbleColumn::User => {
                reveal_strlit("user");
                reveal_strlit("id");
                assert("id"@.len() != "user"@.len());
                reveal_strlit("at");
                assert("at"@.len() != "user"@.len());
            },
            ScrobbleColumn::Track => {
                reveal_strlit("track");
                reveal_strlit("id");
                assert("id"@.len() != "track"@.len());
                reveal_strlit("at");
                assert("at"@.len() != "track"@.len());
                reveal_strlit("user");
                assert("user"@.len() != "track"@.len());
            },
        }
    }

    proof fn lemma_from_name_named(s: Seq<char>) {
    }

    proof fn lemma_name_plain(a: Self) {
        reveal_strlit("id");
        reveal_strlit("at");
        reveal_strlit("user");
        reveal_strlit("track");
    }

    fn name(&self) -> (r: &'static str) {
        match self {
            ScrobbleColumn::Id => "id",
            ScrobbleColumn::At => "at",
            ScrobbleColumn::User => "user",
            ScrobbleColumn::Track => "track",
        }
    }

    fn from_name(s: &str) -> (r: Option<Self>) {
        if str_equals(s, "id") {
            Some(ScrobbleColumn::Id)
        } else if str_equals(s, "at") {
            Some(ScrobbleColumn::At)
        } else if str_equals(s, "user") {
            Some(ScrobbleColumn::User)
        } else if str_equals(s, "track") {
            Some(ScrobbleColumn::Track)
        } else {
            None
        }
    }

    fn same(&self, other: &Self) -> (r: bool) {
        *self == *other
    }
}

/// The stored columns of a genre.
#[derive(PartialEq, Eq, Structural, Clone, Copy, Debug, Hash)]
pub enum GenreColumn {
    Id,
    Name,
    Disambiguation,
}

impl Named for GenreColumn {
    open spec fn spec_name(self) -> Seq<char> {
        match self {
            GenreColumn::Id => "id"@,
            GenreColumn::Name => "name"@,
            GenreColumn::Disambiguation => "disambiguation"@,
        }
    }

    open spec fn spec_from_name(s: Seq<char>) -> Option<Self> {
        if s == "id"@ {
            Some(GenreColumn::Id)
        } else if s == "name"@ {
            Some(GenreColumn::Name)
        } else if s == "disambiguation"@ {
            Some(GenreColumn::Disambiguation)
        } else {
            None
        }
    }

    proof fn lemma_name_roundtrip(a: Self) {
        match a {
            GenreColumn::Id => {
                reveal_strlit("id");
            },
            GenreColumn::Name => {
                reveal_strlit("name");
                reveal_strlit("id");
                assert("id"@.len() != "name"@.len());
            },
            GenreColumn::Disambiguation => {
                reveal_strlit("disambiguation");
                reveal_strlit("id");
                assert("id"@.len() != "disambiguation"@.len());
                reveal_strlit("name");
                assert("name"@.len() != "disambiguation"@.len());
            },
        }
    }

    proof fn lemma_from_name_named(s: Seq<char>) {
    }

    proof fn lemma_name_plain(a: Self) {
        reveal_strlit("id");
        reveal_strlit("name");
        reveal_strlit("disambiguation");
    }

    fn name(&self) -> (r: &'static str) {
        match self {
            GenreColumn::Id => "id",
            GenreColumn::Name => "name",
            GenreColumn::Disambiguation => "disambiguation",
        }
    }

    fn from_name(s: &str) -> (r: Option<Self>) {
        if str_equals(s, "id") {
            Some(GenreColumn::Id)
        } else if str_equals(s, "name") {
            Some(GenreColumn::Name)
        } else if str_equals(s, "disambiguation") {
            Some(GenreColumn::Disambiguation)
        } else {
            None
        }
    }

    fn same(&self, other: &Self) -> (r: bool) {
        *self == *other
    }
}
} // verus!
