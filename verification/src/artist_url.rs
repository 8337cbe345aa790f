//! Reading the links MusicBrainz lists for an artist: which kind of link
//! each relationship is, and one link of each kind.
use vstd::prelude::*;
use crate::entity::{ArtistUrl, ArtistUrlType, Uuid};
use crate::names::Named;
use crate::text::{copy_string, str_equals};

verus! {

/// The text of a URL as the `url` crate writes it after parsing `text`, or
/// `None` when `text` is not a URL.
pub uninterp spec fn url_text_of(text: Seq<char>) -> Option<Seq<char>>;

/// The domain the `url` crate reads from `text`: `None` when `text` is not a
/// URL or its host is not a domain.
pub uninterp spec fn url_domain_of(text: Seq<char>) -> Option<Seq<char>>;

/// `url::Url::parse` followed by `to_string`: the URL's serialization, or
/// `None` when the text does not parse. Its result is named `url_text_of`.
#[verifier::external_body]
pub(crate) fn url_text(text: &str) -> (r: Option<String>)
    ensures
        crate::text::opt_view(r) == url_text_of(text@),
{
    match url::Url::parse(text) {
        Ok(u) => Some(u.to_string()),
        Err(_) => None,
    }
}

/// `url::Url::parse` followed by `domain`: the URL's domain, or `None` when
/// the text does not parse or names no domain. Its result is named
/// `url_domain_of`.
#[verifier::external_body]
fn url_domain(text: &str) -> (r: Option<String>)
    ensures
        crate::text::opt_view(r) == url_domain_of(text@),
{
    match url::Url::parse(text) {
        Ok(u) => match u.domain() {
            Some(d) => Some(d.to_string()),
            None => None,
        },
        Err(_) => None,
    }
}


/// The kinds of URL relationships MusicBrainz lists for an artist; kinds not listed here are `Other`.
#[derive(PartialEq, Eq, Structural, Clone, Copy, Debug, Hash)]
pub enum MusicBrainzRelationType {
    Biography,
    Discogs,
    FreeStreaming,
    Streaming,
    LastFM,
    SongKick,
    SoundCloud,
    AllMusic,
    Homepage,
    SocialNetwork,
    Wikidata,
    Youtube,
    Other,
}

impl Named for MusicBrainzRelationType {
    open spec fn spec_name(self) -> Seq<char> {
        match self {
            MusicBrainzRelationType::Biography => "biography"@,
            MusicBrainzRelationType::Discogs => "discogs"@,
            MusicBrainzRelationType::FreeStreaming => "free streaming"@,
            MusicBrainzRelationType::Streaming => "streaming"@,
            MusicBrainzRelationType::LastFM => "last.fm"@,
            MusicBrainzRelationType::SongKick => "songkick"@,
            MusicBrainzRelationType::SoundCloud => "soundcloud"@,
            MusicBrainzRelationType::AllMusic => "allmusic"@,
            MusicBrainzRelationType::Homepage => "official homepage"@,
            MusicBrainzRelationType::SocialNetwork => "social network"@,
            MusicBrainzRelationType::Wikidata => "wikidata"@,
            MusicBrainzRelationType::Youtube => "youtube"@,
            MusicBrainzRelationType::Other => "other"@,
        }
    }

    open spec fn spec_from_name(s: Seq<char>) -> Option<Self> {
        if s == "biography"@ {
            Some(MusicBrainzRelationType::Biography)
        } else if s == "discogs"@ {
            Some(MusicBrainzRelationType::Discogs)
        } else if s == "free streaming"@ {
            Some(MusicBrainzRelationType::FreeStreaming)
        } else if s == "streaming"@ {
            Some(MusicBrainzRelationType::Streaming)
        } else if s == "last.fm"@ {
            Some(MusicBrainzRelationType::LastFM)
        } else if s == "songkick"@ {
            Some(MusicBrainzRelationType::SongKick)
        } else if s == "soundcloud"@ {
            Some(MusicBrainzRelationType::SoundCloud)
        } else if s == "allmusic"@ {
            Some(MusicBrainzRelationType::AllMusic)
        } else if s == "official homepage"@ {
            Some(MusicBrainzRelationType::Homepage)
        } else if s == "social network"@ {
            Some(MusicBrainzRelationType::SocialNetwork)
        } else if s == "wikidata"@ {
            Some(MusicBrainzRelationType::Wikidata)
        } else if s == "youtube"@ {
            Some(MusicBrainzRelationType::Youtube)
        } else if s == "other"@ {
            Some(MusicBrainzRelationType::Other)
        } else {
            None
        }
    }

    proof fn lemma_name_roundtrip(a: Self) {
        match a {
            MusicBrainzRelationType::Biography => {
                reveal_strlit("biography");
            },
            MusicBrainzRelationType::Discogs => {
                reveal_strlit("discogs");
                reveal_strlit("biography");
                assert("biography"@.len() != "discogs"@.len());
            },
            MusicBrainzRelationType::FreeStreaming => {
                reveal_strlit("free streaming");
                reveal_strlit("biography");
                assert("biography"@.len() != "free streaming"@.len());
                reveal_strlit("discogs");
                assert("discogs"@.len() != "free streaming"@.len());
            },
            MusicBrainzRelationType::Streaming => {
                reveal_strlit("streaming");
                reveal_strlit("biography");
                assert("biography"@[0] != "streaming"@[0]);
                reveal_strlit("discogs");
                assert("discogs"@.len() != "streaming"@.len());
                reveal_strlit("free streaming");
                assert("free streaming"@.len() != "streaming"@.len());
            },
            MusicBrainzRelationType::LastFM => {
                reveal_strlit("last.fm");
                reveal_strlit("biography");
                assert("biography"@.len() != "last.fm"@.len());
                reveal_strlit("discogs");
                assert("discogs"@[0] != "last.fm"@[0]);
                reveal_strlit("free streaming");
                assert("free streaming"@.len() != "last.fm"@.len());
                reveal_strlit("streaming");
                assert("streaming"@.len() != "last.fm"@.len());
            },
            MusicBrainzRelationType::SongKick => {
                reveal_strlit("songkick");
                reveal_strlit("biography");
                assert("biography"@.len() != "songkick"@.len());
                reveal_strlit("discogs");
                assert("discogs"@.len() != "songkick"@.len());
                reveal_strlit("free streaming");
                assert("free streaming"@.len() != "songkick"@.len());
                reveal_strlit("streaming");
                assert("streaming"@.len() != "songkick"@.len());
                reveal_strlit("last.fm");
                assert("last.fm"@.len() != "songkick"@.len());
            },
            MusicBrainzRelationType::SoundCloud => {
                reveal_strlit("soundcloud");
                reveal_strlit("biography");
                assert("biography"@.len() != "soundcloud"@.len());
                reveal_strlit("discogs");
                assert("discogs"@.len() != "soundcloud"@.len());
                reveal_strlit("free streaming");
                assert("free streaming"@.len() != "soundcloud"@.len());
                reveal_strlit("streaming");
                assert("streaming"@.len() != "soundcloud"@.len());
                reveal_strlit("last.fm");
                assert("last.fm"@.len() != "soundcloud"@.len());
                reveal_strlit("songkick");
                assert("songkick"@.len() != "soundcloud"@.len());
            },
            MusicBrainzRelationType::AllMusic => {
                reveal_strlit("allmusic");
                reveal_strlit("biography");
                assert("biography"@.len() != "allmusic"@.len());
                reveal_strlit("discogs");
                assert("discogs"@.len() != "allmusic"@.len());
                reveal_strlit("free streaming");
                assert("free streaming"@.len() != "allmusic"@.len());
                reveal_strlit("streaming");
                assert("streaming"@.len() != "allmusic"@.len());
                reveal_strlit("last.fm");
                assert("last.fm"@.len() != "allmusic"@.len());
                reveal_strlit("songkick");
                assert("songkick"@[0] != "allmusic"@[0]);
                reveal_strlit("soundcloud");
                assert("soundcloud"@.len() != "allmusic"@.len());
            },
            MusicBrainzRelationType::Homepage => {
                reveal_strlit("official homepage");
                reveal_strlit("biography");
                assert("biography"@.len() != "official homepage"@.len());
                reveal_strlit("discogs");
                assert("discogs"@.len() != "official homepage"@.len());
                reveal_strlit("free streaming");
                assert("free streaming"@.len() != "official homepage"@.len());
                reveal_strlit("streaming");
                assert("streaming"@.len() != "official homepage"@.len());
                reveal_strlit("last.fm");
                assert("last.fm"@.len() != "official homepage"@.len());
                reveal_strlit("songkick");
                assert("songkick"@.len() != "official homepage"@.len());
                reveal_strlit("soundcloud");
                assert("soundcloud"@.len() != "official homepage"@.len());
                reveal_strlit("allmusic");
                assert("allmusic"@.len() != "official homepage"@.len());
            },
            MusicBrainzRelationType::SocialNetwork => {
                reveal_strlit("social network");
                reveal_strlit("biography");
                assert("biography"@.len() != "social network"@.len());
                reveal_strlit("discogs");
                assert("discogs"@.len() != "social network"@.len());
                reveal_strlit("free streaming");
                assert("free streaming"@[0] != "social network"@[0]);
                reveal_strlit("streaming");
                assert("streaming"@.len() != "social network"@.len());
                reveal_strlit("last.fm");
                assert("last.fm"@.len() != "social network"@.len());
                reveal_strlit("songkick");
                assert("songkick"@.len() != "social network"@.len());
                reveal_strlit("soundcloud");
                assert("soundcloud"@.len() != "social network"@.len());
                reveal_strlit("allmusic");
                assert("allmusic"@.len() != "social network"@.len());
                reveal_strlit("official homepage");
                assert("official homepage"@.len() != "social network"@.len());
            },
            MusicBrainzRelationType::Wikidata => {
                reveal_strlit("wikidata");
                reveal_strlit("biography");
                assert("biography"@.len() != "wikidata"@.len());
                reveal_strlit("discogs");
                assert("discogs"@.len() != "wikidata"@.len());
                reveal_strlit("free streaming");
                assert("free streaming"@.len() != "wikidata"@.len());
                reveal_strlit("streaming");
                assert("streaming"@.len() != "wikidata"@.len());
                reveal_strlit("last.fm");
                assert("last.fm"@.len() != "wikidata"@.len());
                reveal_strlit("songkick");
                assert("songkick"@[0] != "wikidata"@[0]);
                reveal_strlit("soundcloud");
                assert("soundcloud"@.len() != "wikidata"@.len());
                reveal_strlit("allmusic");
                assert("allmusic"@[0] != "wikidata"@[0]);
                reveal_strlit("official homepage");
                assert("official homepage"@.len() != "wikidata"@.len());
                reveal_strlit("social network");
                assert("social network"@.len() != "wikidata"@.len());
            },
            MusicBrainzRelationType::Youtube => {
                reveal_strlit("youtube");
                reveal_strlit("biography");
                assert("biography"@.len() != "youtube"@.len());
                reveal_strlit("discogs");
                assert("discogs"@[0] != "youtube"@[0]);
                reveal_strlit("free streaming");
                assert("free streaming"@.len() != "youtube"@.len());
                reveal_strlit("streaming");
                assert("streaming"@.len() != "youtube"@.len());
                reveal_strlit("last.fm");
                assert("last.fm"@[0] != "youtube"@[0]);
                reveal_strlit("songkick");
                assert("songkick"@.len() != "youtube"@.len());
                reveal_strlit("soundcloud");
                assert("soundcloud"@.len() != "youtube"@.len());
                reveal_strlit("allmusic");
                assert("allmusic"@.len() != "youtube"@.len());
                reveal_strlit("official homepage");
                assert("official homepage"@.len() != "youtube"@.len());
                reveal_strlit("social network");
                assert("social network"@.len() != "youtube"@.len());
                reveal_strlit("wikidata");
                assert("wikidata"@.len() != "youtube"@.len());
            },
            MusicBrainzRelationType::Other => {
                reveal_strlit("other");
                reveal_strlit("biography");
                assert("biography"@.len() != "other"@.len());
                reveal_strlit("discogs");
                assert("discogs"@.len() != "other"@.len());
                reveal_strlit("free streaming");
                assert("free streaming"@.len() != "other"@.len());
                reveal_strlit("streaming");
                assert("streaming"@.len() != "other"@.len());
                reveal_strlit("last.fm");
                assert("last.fm"@.len() != "other"@.len());
                reveal_strlit("songkick");
                assert("songkick"@.len() != "other"@.len());
                reveal_strlit("soundcloud");
                assert("soundcloud"@.len() != "other"@.len());
                reveal_strlit("allmusic");
                assert("allmusic"@.len() != "other"@.len());
                reveal_strlit("official homepage");
                assert("official homepage"@.len() != "other"@.len());
                reveal_strlit("social network");
                assert("social network"@.len() != "other"@.len());
                reveal_strlit("wikidata");
                assert("wikidata"@.len() != "other"@.len());
                reveal_strlit("youtube");
                assert("youtube"@.len() != "other"@.len());
            },
        }
    }

    proof fn lemma_from_name_named(s: Seq<char>) {
    }

    proof fn lemma_name_plain(a: Self) {
        reveal_strlit("biography");
        reveal_strlit("discogs");
        reveal_strlit("free streaming");
        reveal_strlit("streaming");
        reveal_strlit("last.fm");
        reveal_strlit("songkick");
        reveal_strlit("soundcloud");
        reveal_strlit("allmusic");
        reveal_strlit("official homepage");
        reveal_strlit("social network");
        reveal_strlit("wikidata");
        reveal_strlit("youtube");
        reveal_strlit("other");
    }

    fn name(&self) -> (r: &'static str) {
        match self {
            MusicBrainzRelationType::Biography => "biography",
            MusicBrainzRelationType::Discogs => "discogs",
            MusicBrainzRelationType::FreeStreaming => "free streaming",
            MusicBrainzRelationType::Streaming => "streaming",
            MusicBrainzRelationType::LastFM => "last.fm",
            MusicBrainzRelationType::SongKick => "songkick",
            MusicBrainzRelationType::SoundCloud => "soundcloud",
            MusicBrainzRelationType::AllMusic => "allmusic",
            MusicBrainzRelationType::Homepage => "official homepage",
            MusicBrainzRelationType::SocialNetwork => "social network",
            MusicBrainzRelationType::Wikidata => "wikidata",
            MusicBrainzRelationType::Youtube => "youtube",
            MusicBrainzRelationType::Other => "other",
        }
    }

    fn from_name(s: &str) -> (r: Option<Self>) {
        if str_equals(s, "biography") {
            Some(MusicBrainzRelationType::Biography)
        } else if str_equals(s, "discogs") {
            Some(MusicBrainzRelationType::Discogs)
        } else if str_equals(s, "free streaming") {
            Some(MusicBrainzRelationType::FreeStreaming)
        } else if str_equals(s, "streaming") {
            Some(MusicBrainzRelationType::Streaming)
        } else if str_equals(s, "last.fm") {
            Some(MusicBrainzRelationType::LastFM)
        } else if str_equals(s, "songkick") {
            Some(MusicBrainzRelationType::SongKick)
        } else if str_equals(s, "soundcloud") {
            Some(MusicBrainzRelationType::SoundCloud)
        } else if str_equals(s, "allmusic") {
            Some(MusicBrainzRelationType::AllMusic)
        } else if str_equals(s, "official homepage") {
            Some(MusicBrainzRelationType::Homepage)
        } else if str_equals(s, "social network") {
            Some(MusicBrainzRelationType::SocialNetwork)
        } else if str_equals(s, "wikidata") {
            Some(MusicBrainzRelationType::Wikidata)
        } else if str_equals(s, "youtube") {
            Some(MusicBrainzRelationType::Youtube)
        } else if str_equals(s, "other") {
            Some(MusicBrainzRelationType::Other)
        } else {
            None
        }
    }

    fn same(&self, other: &Self) -> (r: bool) {
        *self == *other
    }
}

/// The kind of relationship a MusicBrainz type names; unknown types are
/// `Other`.
pub fn relation_kind(s: &str) -> (r: MusicBrainzRelationType)
    ensures
        r == match MusicBrainzRelationType::spec_from_name(s@) {
            Some(k) => k,
            None => MusicBrainzRelationType::Other,
        },
{
    match MusicBrainzRelationType::from_name(s) {
        Some(k) => k,
        None => MusicBrainzRelationType::Other,
    }
}

/// The kind of link a relationship of kind `t` to a URL with domain `domain`
/// is, if it is one the library keeps.
pub open spec fn link_kind(t: MusicBrainzRelationType, domain: Option<Seq<char>>) -> Option<ArtistUrlType> {
    match t {
        MusicBrainzRelationType::Biography => Some(ArtistUrlType::Biography),
        MusicBrainzRelationType::Discogs => Some(ArtistUrlType::Discogs),
        MusicBrainzRelationType::LastFM => Some(ArtistUrlType::LastFM),
        MusicBrainzRelationType::AllMusic => Some(ArtistUrlType::AllMusic),
        MusicBrainzRelationType::Youtube => Some(ArtistUrlType::Youtube),
        MusicBrainzRelationType::Homepage => Some(ArtistUrlType::Homepage),
        MusicBrainzRelationType::Wikidata => Some(ArtistUrlType::Wikidata),
        MusicBrainzRelationType::SongKick => Some(ArtistUrlType::SongKick),
        MusicBrainzRelationType::SoundCloud => Some(ArtistUrlType::SoundCloud),
        MusicBrainzRelationType::FreeStreaming => match domain {
            Some(d) => {
                if d == "spotify.com"@ {
                    Some(ArtistUrlType::Spotify)
                } else if d == "open.spotify.com"@ {
                    Some(ArtistUrlType::Spotify)
                } else if d == "deezer.com"@ {
                    Some(ArtistUrlType::Deezer)
                } else if d == "www.deezer.com"@ {
                    Some(ArtistUrlType::Deezer)
                } else {
                    None
                }
            },
            None => None,
        },
        MusicBrainzRelationType::Streaming => match domain {
            Some(d) => {
                if d == "tidal.com"@ {
                    Some(ArtistUrlType::Tidal)
                } else {
                    None
                }
            },
            None => None,
        },
        MusicBrainzRelationType::SocialNetwork => match domain {
            Some(d) => {
                if d == "twitter.com"@ {
                    Some(ArtistUrlType::Twitter)
                } else if d == "www.twitter.com"@ {
                    Some(ArtistUrlType::Twitter)
                } else if d == "facebook.com"@ {
                    Some(ArtistUrlType::Facebook)
                } else if d == "www.facebook.com"@ {
                    Some(ArtistUrlType::Facebook)
                } else if d == "instagram.com"@ {
                    Some(ArtistUrlType::Instagram)
                } else if d == "www.instagram.com"@ {
                    Some(ArtistUrlType::Instagram)
                } else {
                    None
                }
            },
            None => None,
        },
        MusicBrainzRelationType::Other => None,
    }
}

fn link_kind_exec(t: MusicBrainzRelationType, domain: &Option<String>) -> (r: Option<ArtistUrlType>)
    ensures
        r == link_kind(t, crate::text::opt_view(*domain)),
{
    match t {
        MusicBrainzRelationType::Biography => Some(ArtistUrlType::Biography),
        MusicBrainzRelationType::Discogs => Some(ArtistUrlType::Discogs),
        MusicBrainzRelationType::LastFM => Some(ArtistUrlType::LastFM),
        MusicBrainzRelationType::AllMusic => Some(ArtistUrlType::AllMusic),
        MusicBrainzRelationType::Youtube => Some(ArtistUrlType::Youtube),
        MusicBrainzRelationType::Homepage => Some(ArtistUrlType::Homepage),
        MusicBrainzRelationType::Wikidata => Some(ArtistUrlType::Wikidata),
        MusicBrainzRelationType::SongKick => Some(ArtistUrlType::SongKick),
        MusicBrainzRelationType::SoundCloud => Some(ArtistUrlType::SoundCloud),
        MusicBrainzRelationType::FreeStreaming => match domain {
            Some(d) => {
                if str_equals(d.as_str(), "spotify.com") {
                    Some(ArtistUrlType::Spotify)
                } else if str_equals(d.as_str(), "open.spotify.com") {
                    Some(ArtistUrlType::Spotify)
                } else if str_equals(d.as_str(), "deezer.com") {
                    Some(ArtistUrlType::Deezer)
                } else if str_equals(d.as_str(), "www.deezer.com") {
                    Some(ArtistUrlType::Deezer)
                } else {
                    None
                }
            },
            None => None,
        },
        MusicBrainzRelationType::Streaming => match domain {
            Some(d) => {
                if str_equals(d.as_str(), "tidal.com") {
                    Some(ArtistUrlType::Tidal)
                } else {
                    None
                }
            },
            None => None,
        },
        MusicBrainzRelationType::SocialNetwork => match domain {
            Some(d) => {
                if str_equals(d.as_str(), "twitter.com") {
                    Some(ArtistUrlType::Twitter)
                } else if str_equals(d.as_str(), "www.twitter.com") {
                    Some(ArtistUrlType::Twitter)
                } else if str_equals(d.as_str(), "facebook.com") {
                    Some(ArtistUrlType::Facebook)
                } else if str_equals(d.as_str(), "www.facebook.com") {
                    Some(ArtistUrlType::Facebook)
                } else if str_equals(d.as_str(), "instagram.com") {
                    Some(ArtistUrlType::Instagram)
                } else if str_equals(d.as_str(), "www.instagram.com") {
                    Some(ArtistUrlType::Instagram)
                } else {
                    None
                }
            },
            None => None,
        },
        MusicBrainzRelationType::Other => None,
    }
}

/// The link a relationship of kind `t` to the URL written `url` gives: the
/// URL as the `url` crate writes it and the kind of link, when the kind is
/// one the library keeps and the text is a URL.
pub open spec fn parse_spec(url: Seq<char>, t: MusicBrainzRelationType) -> Option<(Seq<char>, ArtistUrlType)> {
    match (link_kind(t, url_domain_of(url)), url_text_of(url)) {
        (Some(k), Some(text)) => Some((text, k)),
        _ => None,
    }
}

/// The link a relationship of kind `t` to the URL written `url` gives.
pub fn parse(url: &str, t: MusicBrainzRelationType) -> (r: Option<(String, ArtistUrlType)>)
    ensures
        match r {
            Some(p) => parse_spec(url@, t) == Some((p.0@, p.1)),
            None => parse_spec(url@, t) is None,
        },
{
    let domain = url_domain(url);
    match link_kind_exec(t, &domain) {
        Some(k) => match url_text(url) {
            Some(text) => Some((text, k)),
            None => None,
        },
        None => None,
    }
}

/// A URL relationship of an artist: its type as MusicBrainz writes it and,
/// where it has one, the URL it points to.
pub struct Relation {
    pub relation_type: String,
    pub url: Option<String>,
}

/// The links the relationships give, in order.
pub open spec fn parsed_links(rels: Seq<Relation>) -> Seq<(Seq<char>, ArtistUrlType)> {
    crate::seqs::filter_map_spec(
        rels,
        |r: Relation|
            match r.url {
                Some(u) => parse_spec(
                    u@,
                    match MusicBrainzRelationType::spec_from_name(r.relation_type@) {
                        Some(k) => k,
                        None => MusicBrainzRelationType::Other,
                    },
                ),
                None => None,
            },
    )
}

/// The kinds of links in the order they are stored.
pub open spec fn url_types() -> Seq<ArtistUrlType> {
    seq![ArtistUrlType::Biography, ArtistUrlType::Discogs, ArtistUrlType::LastFM, ArtistUrlType::AllMusic, ArtistUrlType::Youtube, ArtistUrlType::Homepage, ArtistUrlType::Wikidata, ArtistUrlType::SongKick, ArtistUrlType::SoundCloud, ArtistUrlType::Spotify, ArtistUrlType::Deezer, ArtistUrlType::Tidal, ArtistUrlType::Twitter, ArtistUrlType::Facebook, ArtistUrlType::Instagram]
}

/// The position of a kind of link in the order they are stored.
pub open spec fn url_type_rank(t: ArtistUrlType) -> int {
    match t {
        ArtistUrlType::Biography => 0,
        ArtistUrlType::Discogs => 1,
        ArtistUrlType::LastFM => 2,
        ArtistUrlType::AllMusic => 3,
        ArtistUrlType::Youtube => 4,
        ArtistUrlType::Homepage => 5,
        ArtistUrlType::Wikidata => 6,
        ArtistUrlType::SongKick => 7,
        ArtistUrlType::SoundCloud => 8,
        ArtistUrlType::Spotify => 9,
        ArtistUrlType::Deezer => 10,
        ArtistUrlType::Tidal => 11,
        ArtistUrlType::Twitter => 12,
        ArtistUrlType::Facebook => 13,
        ArtistUrlType::Instagram => 14,
    }
}

/// The first link of kind `t`, if any.
pub open spec fn first_of_kind(links: Seq<(Seq<char>, ArtistUrlType)>, t: ArtistUrlType) -> Option<Seq<char>>
    decreases links.len(),
{
    if links.len() == 0 {
        None
    } else if links[0].1 == t {
        Some(links[0].0)
    } else {
        first_of_kind(links.drop_first(), t)
    }
}

/// One link of each kind that occurs, the first of its kind, ordered by
/// kind.
pub open spec fn artist_urls_spec(links: Seq<(Seq<char>, ArtistUrlType)>) -> Seq<(Seq<char>, ArtistUrlType)> {
    crate::seqs::filter_map_spec(
        url_types(),
        |t: ArtistUrlType|
            match first_of_kind(links, t) {
                Some(u) => Some((u, t)),
                None => None,
            },
    )
}

fn first_link_of_kind(links: &Vec<(String, ArtistUrlType)>, t: ArtistUrlType) -> (r: Option<&String>)
    ensures
        (match r { Some(s) => Some(s@), None => None::<Seq<char>> }) == first_of_kind(links@.map_values(|p: (String, ArtistUrlType)| (p.0@, p.1)), t),
{
    let ghost views = links@.map_values(|p: (String, ArtistUrlType)| (p.0@, p.1));
    let mut i: usize = 0;
    assert(views.skip(0) =~= views);
    while i < links.len()
        invariant
            i <= links.len(),
            views == links@.map_values(|p: (String, ArtistUrlType)| (p.0@, p.1)),
            first_of_kind(views, t) == first_of_kind(views.skip(i as int), t),
        decreases links.len() - i,
    {
        assert(views.skip(i as int)[0] == views[i as int]);
        if links[i].1 == t {
            return Some(&links[i].0);
        }
        assert(views.skip(i as int).drop_first() =~= views.skip(i as int + 1));
        i = i + 1;
    }
    assert(views.skip(i as int).len() == 0);
    None
}

/// The links of an artist to store: of each kind of link that the
/// relationships give, the first, ordered by kind.
pub fn artist_urls(artist_id: Uuid, relations: &Vec<Relation>) -> (r: Vec<ArtistUrl>)
    ensures
        r@.len() == artist_urls_spec(parsed_links(relations@)).len(),
        forall|i: int|
            0 <= i < r@.len() ==> {
                &&& (#[trigger] r@[i]).artist_id == artist_id
                &&& r@[i].url@ == artist_urls_spec(parsed_links(relations@))[i].0
                &&& r@[i].url_type == artist_urls_spec(parsed_links(relations@))[i].1
            },
{
    let ghost f = |r: Relation|
        match r.url {
            Some(u) => parse_spec(
                u@,
                match MusicBrainzRelationType::spec_from_name(r.relation_type@) {
                    Some(k) => k,
                    None => MusicBrainzRelationType::Other,
                },
            ),
            None => None,
        };
    let mut links: Vec<(String, ArtistUrlType)> = Vec::new();
    let mut i: usize = 0;
    while i < relations.len()
        invariant
            i <= relations.len(),
            f == (|r: Relation|
                match r.url {
                    Some(u) => parse_spec(
                        u@,
                        match MusicBrainzRelationType::spec_from_name(r.relation_type@) {
                            Some(k) => k,
                            None => MusicBrainzRelationType::Other,
                        },
                    ),
                    None => None,
                }),
            links@.map_values(|p: (String, ArtistUrlType)| (p.0@, p.1)) == crate::seqs::filter_map_spec(relations@.take(i as int), f),
        decreases relations.len() - i,
    {
        assert(relations@.take(i as int + 1).drop_last() =~= relations@.take(i as int));
        let rel = &relations[i];
        if let Some(u) = &rel.url {
            let kind = relation_kind(rel.relation_type.as_str());
            if let Some(link) = parse(u.as_str(), kind) {
                let ghost before = links@;
                links.push(link);
                assert(links@.map_values(|p: (String, ArtistUrlType)| (p.0@, p.1)) =~= before.map_values(|p: (String, ArtistUrlType)| (p.0@, p.1)).push((link.0@, link.1)));
            }
        }
        i = i + 1;
    }
    assert(relations@.take(relations.len() as int) =~= relations@);
    let ghost links_view = links@.map_values(|p: (String, ArtistUrlType)| (p.0@, p.1));
    let ghost g = |t: ArtistUrlType|
        match first_of_kind(links_view, t) {
            Some(u) => Some((u, t)),
            None => None,
        };
    let kinds: [ArtistUrlType; 15] = [ArtistUrlType::Biography, ArtistUrlType::Discogs, ArtistUrlType::LastFM, ArtistUrlType::AllMusic, ArtistUrlType::Youtube, ArtistUrlType::Homepage, ArtistUrlType::Wikidata, ArtistUrlType::SongKick, ArtistUrlType::SoundCloud, ArtistUrlType::Spotify, ArtistUrlType::Deezer, ArtistUrlType::Tidal, ArtistUrlType::Twitter, ArtistUrlType::Facebook, ArtistUrlType::Instagram];
    assert(kinds@ =~= url_types());
    let mut out: Vec<ArtistUrl> = Vec::new();
    let mut k: usize = 0;
    while k < 15
        invariant
            k <= 15,
            kinds@ == url_types(),
            g == (|t: ArtistUrlType|
                match first_of_kind(links_view, t) {
                    Some(u) => Some((u, t)),
                    None => None,
                }),
            links_view == links@.map_values(|p: (String, ArtistUrlType)| (p.0@, p.1)),
            out@.len() == crate::seqs::filter_map_spec(url_types().take(k as int), g).len(),
            forall|i: int|
                0 <= i < out@.len() ==> {
                    &&& (#[trigger] out@[i]).artist_id == artist_id
                    &&& out@[i].url@ == crate::seqs::filter_map_spec(url_types().take(k as int), g)[i].0
                    &&& out@[i].url_type == crate::seqs::filter_map_spec(url_types().take(k as int), g)[i].1
                },
        decreases 15 - k,
    {
        assert(url_types().take(k as int + 1).drop_last() =~= url_types().take(k as int));
        let t = kinds[k];
        match first_link_of_kind(&links, t) {
            Some(u) => {
                out.push(ArtistUrl { artist_id, url_type: t, url: copy_string(u) });
            },
            None => {},
        }
        k = k + 1;
    }
    assert(url_types().take(15) =~= url_types());
    out
}

/// Which kind of link a MusicBrainz relation of an artist gives: the plain
/// kinds of relation give the link of the same name; a free-streaming link
/// is a Spotify link exactly for the domains spotify.com and
/// open.spotify.com and a Deezer link exactly for deezer.com and
/// www.deezer.com; a streaming link is a Tidal link exactly for tidal.com;
/// a social-network link is a Twitter, Facebook or Instagram link exactly
/// for those sites' domains, with or without `www.`; any other relation
/// gives no link.
pub proof fn lemma_link_kinds(t: MusicBrainzRelationType, domain: Option<Seq<char>>)
    ensures
        t == MusicBrainzRelationType::Biography ==> link_kind(t, domain) == Some(ArtistUrlType::Biography),
        t == MusicBrainzRelationType::Discogs ==> link_kind(t, domain) == Some(ArtistUrlType::Discogs),
        t == MusicBrainzRelationType::LastFM ==> link_kind(t, domain) == Some(ArtistUrlType::LastFM),
        t == MusicBrainzRelationType::AllMusic ==> link_kind(t, domain) == Some(ArtistUrlType::AllMusic),
        t == MusicBrainzRelationType::Youtube ==> link_kind(t, domain) == Some(ArtistUrlType::Youtube),
        t == MusicBrainzRelationType::Homepage ==> link_kind(t, domain) == Some(ArtistUrlType::Homepage),
        t == MusicBrainzRelationType::Wikidata ==> link_kind(t, domain) == Some(ArtistUrlType::Wikidata),
        t == MusicBrainzRelationType::SongKick ==> link_kind(t, domain) == Some(ArtistUrlType::SongKick),
        t == MusicBrainzRelationType::SoundCloud ==> link_kind(t, domain) == Some(ArtistUrlType::SoundCloud),
        t == MusicBrainzRelationType::Other ==> link_kind(t, domain) is None,
        link_kind(t, domain) == Some(ArtistUrlType::Spotify) <==> (t == MusicBrainzRelationType::FreeStreaming && (domain
            == Some("spotify.com"@) || domain == Some("open.spotify.com"@))),
        link_kind(t, domain) == Some(ArtistUrlType::Deezer) <==> (t == MusicBrainzRelationType::FreeStreaming && (domain
            == Some("deezer.com"@) || domain == Some("www.deezer.com"@))),
        link_kind(t, domain) == Some(ArtistUrlType::Tidal) <==> (t == MusicBrainzRelationType::Streaming && domain == Some(
            "tidal.com"@,
        )),
        link_kind(t, domain) == Some(ArtistUrlType::Twitter) <==> (t == MusicBrainzRelationType::SocialNetwork && (domain
            == Some("twitter.com"@) || domain == Some("www.twitter.com"@))),
        link_kind(t, domain) == Some(ArtistUrlType::Facebook) <==> (t == MusicBrainzRelationType::SocialNetwork && (domain
            == Some("facebook.com"@) || domain == Some("www.facebook.com"@))),
        link_kind(t, domain) == Some(ArtistUrlType::Instagram) <==> (t == MusicBrainzRelationType::SocialNetwork && (domain
            == Some("instagram.com"@) || domain == Some("www.instagram.com"@))),
{
    reveal_strlit("spotify.com");
    reveal_strlit("open.spotify.com");
    reveal_strlit("deezer.com");
    reveal_strlit("www.deezer.com");
    reveal_strlit("tidal.com");
    reveal_strlit("twitter.com");
    reveal_strlit("www.twitter.com");
    reveal_strlit("facebook.com");
    reveal_strlit("www.facebook.com");
    reveal_strlit("instagram.com");
    reveal_strlit("www.instagram.com");
    assert("deezer.com"@.len() != "spotify.com"@.len());
    assert("deezer.com"@.len() != "open.spotify.com"@.len());
    assert("www.deezer.com"@.len() != "spotify.com"@.len());
    assert("www.deezer.com"@.len() != "open.spotify.com"@.len());
    assert("www.deezer.com"@.len() != "deezer.com"@.len());
    assert("open.spotify.com"@.len() != "spotify.com"@.len());
    assert("www.twitter.com"@.len() != "twitter.com"@.len());
    assert("facebook.com"@.len() != "twitter.com"@.len());
    assert("facebook.com"@.len() != "www.twitter.com"@.len());
    assert("www.facebook.com"@.len() != "twitter.com"@.len());
    assert("www.facebook.com"@.len() != "www.twitter.com"@.len());
    assert("www.facebook.com"@.len() != "facebook.com"@.len());
    assert("instagram.com"@.len() != "twitter.com"@.len());
    assert("instagram.com"@.len() != "www.twitter.com"@.len());
    assert("instagram.com"@.len() != "facebook.com"@.len());
    assert("instagram.com"@.len() != "www.facebook.com"@.len());
    assert("www.instagram.com"@.len() != "twitter.com"@.len());
    assert("www.instagram.com"@.len() != "www.twitter.com"@.len());
    assert("www.instagram.com"@.len() != "facebook.com"@.len());
    assert("www.instagram.com"@.len() != "www.facebook.com"@.len());
    assert("www.instagram.com"@.len() != "instagram.com"@.len());
}

} // verus!
