//! The URLs of the calls made to MusicBrainz and Last.fm: a base URL, a
//! path read against it and the query parameters of each call.
use vstd::prelude::*;
use crate::entity::{InternalRelease, Uuid};
use crate::imports::{release_search_params, release_search_spec};
use crate::lastfm::{md5_hex_of, pair_views, session_params, session_request_params, signature_text};
use crate::search_result::{uuid_text, uuid_to_string};
use crate::tempo::connections::{url_join, url_join_of};
use crate::text::{opt_view, to_owned_string};
use crate::artist_url::{url_text, url_text_of};
use crate::covers::cover_art_archive_target;
use crate::entity::ConnectionProvider;
use crate::lastfm_images::{url_with_path, url_with_path_of};
use crate::tempo::connections::ConnectionError;
use crate::text::copy_string;

verus! {

/// The URL the `url` crate makes of `base` with the pairs appended to its
/// query: `None` where `base` is not a URL.
pub uninterp spec fn url_with_query_of(base: Seq<char>, pairs: Seq<(Seq<char>, Seq<char>)>) -> Option<Seq<char>>;

/// `url::Url::parse` of `base`, its query serializer (`query_pairs_mut`)
/// extended with the pairs in order, and the URL's serialization; `None`
/// where `base` does not parse. Its result is named `url_with_query_of`.
#[verifier::external_body]
fn url_with_query(base: &str, pairs: &Vec<(String, String)>) -> (r: Option<String>)
    ensures
        opt_view(r) == url_with_query_of(base@, pair_views(pairs@)),
{
    match url::Url::parse(base) {
        Ok(mut u) => {
            u.query_pairs_mut().extend_pairs(pairs.iter());
            Some(u.to_string())
        },
        Err(_) => None,
    }
}

/// The root of the MusicBrainz web service.
pub open spec fn musicbrainz_base() -> Seq<char> {
    "https://musicbrainz.org/ws/2/"@
}

/// The Last.fm web service, asked for JSON answers.
pub open spec fn lastfm_base() -> Seq<char> {
    "https://ws.audioscrobbler.com/2.0/?format=json"@
}

/// The related records a release lookup asks MusicBrainz for, joined by `+`.
pub open spec fn release_includes() -> Seq<char> {
    "artists+artist-credits+release-groups+labels+recordings+genres+work-rels+work-level-rels+artist-rels+recording-rels+instrument-rels+recording-level-rels"@
}

/// The query parameters of a release lookup: what to include, JSON answers.
pub open spec fn lookup_params() -> Seq<(Seq<char>, Seq<char>)> {
    seq![("inc"@, release_includes()), ("fmt"@, "json"@)]
}

/// The URL of the MusicBrainz lookup of the release with the given id:
/// `release/<id>` under the service root with the lookup parameters; `None`
/// where the `url` crate cannot build it.
pub fn release_lookup_url(id: Uuid) -> (r: Option<String>)
    ensures
        match url_join_of(musicbrainz_base(), "release/"@ + uuid_text(id)) {
            Some(u) => opt_view(r) == url_with_query_of(u, lookup_params()),
            None => r is None,
        },
{
    let base = "https://musicbrainz.org/ws/2/";
    let mut path = to_owned_string("release/");
    let id_text = uuid_to_string(id);
    path.append(id_text.as_str());
    let mut params: Vec<(String, String)> = Vec::new();
    params.push((to_owned_string("inc"), to_owned_string("artists+artist-credits+release-groups+labels+recordings+genres+work-rels+work-level-rels+artist-rels+recording-rels+instrument-rels+recording-level-rels")));
    params.push((to_owned_string("fmt"), to_owned_string("json")));
    proof {
        reveal_strlit("release/");
    }
    assert(pair_views(params@) =~= lookup_params());
    match url_join(base, path.as_str()) {
        Ok(u) => url_with_query(u.as_str(), &params),
        Err(_) => None,
    }
}

/// The URL of the MusicBrainz search for releases like the one being
/// imported: `release/` under the service root with the search parameters;
/// `None` where the `url` crate cannot build it.
pub fn release_search_url(release: &InternalRelease, unknown_artist: &str) -> (r: Option<String>)
    ensures
        match url_join_of(musicbrainz_base(), "release/"@) {
            Some(u) => opt_view(r) == url_with_query_of(u, release_search_spec(*release, unknown_artist@)),
            None => r is None,
        },
{
    let params = release_search_params(release, unknown_artist);
    match url_join("https://musicbrainz.org/ws/2/", "release/") {
        Ok(u) => url_with_query(u.as_str(), &params),
        Err(_) => None,
    }
}

/// The URL of the Last.fm call that trades an authentication token for a
/// session: the service URL with the call's parameters and their
/// signature appended; `None` where the `url` crate cannot build it.
pub fn session_url(api_key: &str, token: &str, secret: &str) -> (r: Option<String>)
    ensures
        opt_view(r) == url_with_query_of(
            lastfm_base(),
            session_params(api_key@, token@).push(
                ("api_sig"@, md5_hex_of(signature_text(session_params(api_key@, token@), secret@))),
            ).drop_first(),
        ),
{
    let mut params = session_request_params(api_key, token, secret);
    let ghost all = params@;
    params.remove(0);
    assert(pair_views(params@) =~= pair_views(all).drop_first());
    url_with_query("https://ws.audioscrobbler.com/2.0/?format=json", &params)
}

/// The page where Last.fm asks a user to let an application use the
/// account.
pub open spec fn lastfm_auth_base() -> Seq<char> {
    "http://www.last.fm/api/auth"@
}

/// The path on this server where a service sends a user back after the
/// user connected the account.
pub open spec fn callback_path(provider_name: Seq<char>) -> Seq<char> {
    "tempo/connections/"@ + provider_name + "/callback"@
}

/// The query of the callback address: the id of the pending connection,
/// and the page to return to, where there is one.
pub open spec fn callback_params(id: Seq<char>, redirect: Option<Seq<char>>) -> Seq<(Seq<char>, Seq<char>)> {
    match redirect {
        Some(r) => seq![("id"@, id), ("redirect"@, r)],
        None => seq![("id"@, id)],
    }
}

/// Where a user is sent to connect a Last.fm account: Last.fm's
/// authentication page with the server's API key and the callback address,
/// which is the server's address with the callback path of the service and
/// the callback's query. `None` where the `url` crate cannot build either.
pub open spec fn connection_url_spec(
    server: Seq<char>,
    provider_name: Seq<char>,
    api_key: Seq<char>,
    id: Seq<char>,
    redirect: Option<Seq<char>>,
) -> Option<Seq<char>> {
    match url_with_path_of(server, callback_path(provider_name)) {
        None => None,
        Some(cb_base) => match url_with_query_of(cb_base, callback_params(id, redirect)) {
            None => None,
            Some(cb) => url_with_query_of(lastfm_auth_base(), seq![("api_key"@, api_key), ("cb"@, cb)]),
        },
    }
}

impl ConnectionProvider {
    /// Where a user is sent to connect an account with this service, given
    /// the server's address, the name the service goes by in the server's
    /// paths, the service's settings (its API key, where it is set up), the
    /// id of the pending connection and the page to return to. An error
    /// where the service is not set up; `None` where the addresses cannot
    /// be built.
    pub fn url(
        &self,
        server: &str,
        provider_name: &str,
        api_key: &Option<String>,
        id: &str,
        redirect: &Option<String>,
    ) -> (r: Result<Option<String>, ConnectionError>)
        ensures
            match api_key {
                None => r matches Err(ConnectionError::NotConfigured(n)) && n@ == provider_name@,
                Some(key) => r matches Ok(u) && opt_view(u) == connection_url_spec(server@, provider_name@, key@, id@, opt_view(*redirect)),
            },
    {
        match self {
            ConnectionProvider::LastFM => {
                let key = match api_key {
                    Some(k) => k,
                    None => {
                        return Err(ConnectionError::NotConfigured(to_owned_string(provider_name)));
                    },
                };
                let mut path = to_owned_string("tempo/connections/");
                path.append(provider_name);
                path.append("/callback");
                proof {
                    reveal_strlit("tempo/connections/");
                    reveal_strlit("/callback");
                }
                let cb_base = match url_with_path(server, path.as_str()) {
                    Some(u) => u,
                    None => {
                        return Ok(None);
                    },
                };
                let mut cb_params: Vec<(String, String)> = Vec::new();
                cb_params.push((to_owned_string("id"), to_owned_string(id)));
                match redirect {
                    Some(r) => cb_params.push((to_owned_string("redirect"), copy_string(r))),
                    None => {},
                }
                assert(pair_views(cb_params@) =~= callback_params(id@, opt_view(*redirect)));
                let cb = match url_with_query(cb_base.as_str(), &cb_params) {
                    Some(u) => u,
                    None => {
                        return Ok(None);
                    },
                };
                let mut params: Vec<(String, String)> = Vec::new();
                params.push((to_owned_string("api_key"), copy_string(key)));
                params.push((to_owned_string("cb"), cb));
                assert(pair_views(params@) =~= seq![("api_key"@, key@), ("cb"@, pair_views(params@)[1].1)]);
                Ok(url_with_query("http://www.last.fm/api/auth", &params))
            },
        }
    }
}

/// The text of the Cover Art Archive address of a release or release
/// group: `http://coverartarchive.org/<kind>/<id>`.
pub open spec fn cover_art_archive_text(kind: Seq<char>, id: Uuid) -> Seq<char> {
    "http://coverartarchive.org/"@ + kind + "/"@ + uuid_text(id)
}

/// The URL the Cover Art Archive is asked for the covers of a release:
/// the release group's (or the release's, when it has none) where release
/// groups are preferred, else the release's; `None` where it does not
/// parse.
pub fn cover_art_archive_url(use_release_group: bool, release_id: Uuid, release_group_id: Option<Uuid>) -> (r: Option<String>)
    ensures
        opt_view(r) == url_text_of(
            if use_release_group {
                cover_art_archive_text(
                    "release-group"@,
                    match release_group_id {
                        Some(g) => g,
                        None => release_id,
                    },
                )
            } else {
                cover_art_archive_text("release"@, release_id)
            },
        ),
{
    let (kind, id) = cover_art_archive_target(use_release_group, release_id, release_group_id);
    let mut text = to_owned_string("http://coverartarchive.org/");
    text.append(kind);
    text.append("/");
    let id_text = uuid_to_string(id);
    text.append(id_text.as_str());
    proof {
        reveal_strlit("http://coverartarchive.org/");
        reveal_strlit("/");
    }
    url_text(text.as_str())
}

/// The text of the iTunes album search in a country's store for a term.
pub open spec fn itunes_search_text(country: Seq<char>, artists: Seq<char>, title: Seq<char>) -> Seq<char> {
    "http://itunes.apple.com/search?media=music&entity=album&country="@ + country + "&term="@ + artists + " "@ + title
}

/// The URL of the iTunes album search in the country's store for the
/// credited artists (as written out) followed by the release title; `None`
/// where it does not parse.
pub fn itunes_search_url(country: &str, artists: &str, title: &str) -> (r: Option<String>)
    ensures
        opt_view(r) == url_text_of(itunes_search_text(country@, artists@, title@)),
{
    let mut text = to_owned_string("http://itunes.apple.com/search?media=music&entity=album&country=");
    text.append(country);
    text.append("&term=");
    text.append(artists);
    text.append(" ");
    text.append(title);
    proof {
        reveal_strlit("http://itunes.apple.com/search?media=music&entity=album&country=");
        reveal_strlit("&term=");
        reveal_strlit(" ");
    }
    url_text(text.as_str())
}

/// The text of the address of an artist's Wikipedia extract on MusicBrainz.
pub open spec fn wikipedia_extract_text(id: Uuid) -> Seq<char> {
    "https://musicbrainz.org/artist/"@ + uuid_text(id) + "/wikipedia-extract"@
}

/// The URL of the Wikipedia extract MusicBrainz gives for an artist;
/// `None` where it does not parse.
pub fn wikipedia_extract_url(id: Uuid) -> (r: Option<String>)
    ensures
        opt_view(r) == url_text_of(wikipedia_extract_text(id)),
{
    let mut text = to_owned_string("https://musicbrainz.org/artist/");
    let id_text = uuid_to_string(id);
    text.append(id_text.as_str());
    text.append("/wikipedia-extract");
    proof {
        reveal_strlit("https://musicbrainz.org/artist/");
        reveal_strlit("/wikipedia-extract");
    }
    url_text(text.as_str())
}

/// The last segment of the path of the URL the `url` crate reads from a
/// text: `None` where the text is not a URL or its path has no segments.
pub uninterp spec fn last_path_segment_of(url: Seq<char>) -> Option<Seq<char>>;

/// `url::Url::parse`, then `path_segments` and its last segment; `None`
/// where the text does not parse or the URL cannot be a base. Its result
/// is named `last_path_segment_of`.
#[verifier::external_body]
fn last_path_segment(url: &str) -> (r: Option<String>)
    ensures
        opt_view(r) == last_path_segment_of(url@),
{
    match url::Url::parse(url) {
        Ok(u) => match u.path_segments() {
            Some(segments) => segments.last().map(|s| s.to_string()),
            None => None,
        },
        Err(_) => None,
    }
}

/// The page of an artist image on Last.fm, the address of the image itself
/// and the image's id.
pub struct UrlData {
    pub image_page: String,
    pub image_url: String,
    pub image_id: String,
}

/// The text of the address of a Last.fm image with the given id, at the
/// size that is asked for.
pub open spec fn lastfm_image_text(id: Seq<char>) -> Seq<char> {
    "https://lastfm.freetls.fastly.net/i/u/4096x0/"@ + id + ".jpg#"@ + id
}

/// Where the image shown on a Last.fm image page is: the page's last path
/// segment is the image's id. `None` where the page has no such segment or
/// the image's address does not parse.
pub fn img_url(page: &str) -> (r: Option<UrlData>)
    ensures
        match last_path_segment_of(page@) {
            None => r is None,
            Some(id) => match url_text_of(lastfm_image_text(id)) {
                None => r is None,
                Some(u) => r matches Some(d) && d.image_page@ == page@ && d.image_url@ == u && d.image_id@ == id,
            },
        },
{
    match last_path_segment(page) {
        None => None,
        Some(id) => {
            let mut text = to_owned_string("https://lastfm.freetls.fastly.net/i/u/4096x0/");
            text.append(id.as_str());
            text.append(".jpg#");
            text.append(id.as_str());
            proof {
                reveal_strlit("https://lastfm.freetls.fastly.net/i/u/4096x0/");
                reveal_strlit(".jpg#");
            }
            match url_text(text.as_str()) {
                None => None,
                Some(u) => Some(UrlData { image_page: to_owned_string(page), image_url: u, image_id: id }),
            }
        },
    }
}

/// The page listing an artist's images on Last.fm: `+images` read against
/// the artist's page with a slash appended; `None` where the `url` crate
/// cannot build it.
pub fn artist_images_url(artist_page: &str) -> (r: Option<String>)
    ensures
        match url_join_of(artist_page@ + "/"@, "+images"@) {
            Some(u) => opt_view(r) == Some(u),
            None => r is None,
        },
{
    let mut base = to_owned_string(artist_page);
    base.append("/");
    match url_join(base.as_str(), "+images") {
        Ok(u) => Some(u),
        Err(_) => None,
    }
}

} // verus!
