//! Connections with outside services: what a user's connection shows of
//! the account it links to.
use vstd::prelude::*;
use crate::documents::{ConnectionMetaAttributes, Meta};
use crate::entity::ConnectionProvider;
use crate::text::opt_view;

verus! {

/// An error Last.fm answers an authentication request with.
pub struct LastFMAuthResponseTempoError {
    pub code: usize,
    pub message: String,
}

#[verifier::external_type_specification]
#[verifier::external_body]
pub struct ExUrlParseError(url::ParseError);

/// Why a connection with an outside service could not be made or shown.
pub enum ConnectionError {
    /// The service is not set up on this server.
    NotConfigured(String),
    /// Last.fm refused the request.
    LastFMError(LastFMAuthResponseTempoError),
    /// The answer names no pending connection.
    InvalidCallbackId,
    /// A URL could not be built.
    Url(url::ParseError),
    /// The stored connection data could not be read.
    Parse,
}

/// The URL the `url` crate makes of `input` read relative to `base`:
/// `None` where `base` is not a URL or `input` cannot be read against it.
pub uninterp spec fn url_join_of(base: Seq<char>, input: Seq<char>) -> Option<Seq<char>>;

/// `url::Url::parse` of `base` followed by `Url::join` with `input`, and the
/// serialization of the result. Its result is named `url_join_of`; the
/// error is the one the crate reports.
#[verifier::external_body]
pub(crate) fn url_join(base: &str, input: &str) -> (r: Result<String, url::ParseError>)
    ensures
        match r {
            Ok(u) => url_join_of(base@, input@) == Some(u@),
            Err(_) => url_join_of(base@, input@) is None,
        },
{
    match url::Url::parse(base) {
        Ok(b) => match b.join(input) {
            Ok(u) => Ok(u.to_string()),
            Err(e) => Err(e),
        },
        Err(e) => Err(e),
    }
}

/// The page of a Last.fm user, which profile links are read against.
pub open spec fn lastfm_profile_base() -> Seq<char> {
    "https://last.fm/user/"@
}

/// What a connection shows of the account it links to: for Last.fm, the
/// account's name and its profile page, `None` where the data hold no
/// account or the page's URL cannot be built.
pub open spec fn connection_meta_spec(provider: ConnectionProvider, account: Option<Seq<char>>) -> Option<(Seq<char>, Seq<char>)> {
    match provider {
        ConnectionProvider::LastFM => match account {
            Some(name) => match url_join_of(lastfm_profile_base(), name) {
                Some(url) => Some((name, url)),
                None => None,
            },
            None => None,
        },
    }
}

impl ConnectionProvider {
    /// What a connection with this service shows of the account it links
    /// to, given the account's name as read from the stored data.
    pub fn meta(&self, account: &Option<String>) -> (r: Result<Meta, ConnectionError>)
        ensures
            match connection_meta_spec(*self, opt_view(*account)) {
                Some((name, url)) => r matches Ok(Meta::Connection(c)) && c.username@ == name && c.profile_url@ == url,
                None => r is Err,
            },
            account is None ==> r matches Err(ConnectionError::Parse),
    {
        match self {
            ConnectionProvider::LastFM => match account {
                Some(name) => {
                    let base = "https://last.fm/user/";
                    proof {
                        reveal_strlit("https://last.fm/user/");
                    }
                    match url_join(base, name.as_str()) {
                        Ok(url) => Ok(
                            Meta::Connection(
                                ConnectionMetaAttributes { username: crate::text::copy_string(name), profile_url: url },
                            ),
                        ),
                        Err(e) => Err(ConnectionError::Url(e)),
                    }
                },
                None => Err(ConnectionError::Parse),
            },
        }
    }
}

/// The connections users have started and not finished: the user each
/// callback id was handed out for.
pub struct PendingConnections {
    pub ids: std::collections::HashMap<u128, String>,
}

impl PendingConnections {
    /// No pending connection.
    pub fn new() -> (r: Self)
        ensures
            r.ids@.dom().len() == 0,
    {
        PendingConnections { ids: std::collections::HashMap::new() }
    }

    /// Starts a connection for a user: a new random callback id, which now
    /// names the user; the other pending connections stay as they were.
    pub fn register(&mut self, username: &str) -> (id: u128)
        ensures
            final(self).ids@.dom() == old(self).ids@.dom().insert(id),
            final(self).ids@[id]@ == username@,
            forall|k: u128| k != id && #[trigger] old(self).ids@.contains_key(k) ==> final(self).ids@[k] == old(self).ids@[k],
    {
        broadcast use vstd::std_specs::hash::group_hash_axioms;

        let id = crate::search_result::new_random_uuid();
        self.ids.insert(id, crate::text::to_owned_string(username));
        id
    }

    /// Finishes the connection a callback id names: the user it was handed
    /// out for, once; the id names no connection afterwards.
    pub fn take(&mut self, id: u128) -> (r: Option<String>)
        ensures
            match r {
                Some(u) => old(self).ids@.contains_key(id) && u == old(self).ids@[id],
                None => !old(self).ids@.contains_key(id),
            },
            final(self).ids@ == old(self).ids@.remove(id),
            !final(self).ids@.contains_key(id),
    {
        broadcast use vstd::std_specs::hash::group_hash_axioms;

        self.ids.remove(&id)
    }

    /// The user whose connection a callback finishes; an unknown or already
    /// used callback id is refused.
    pub fn callback_user(&mut self, id: u128) -> (r: Result<String, ConnectionError>)
        ensures
            match r {
                Ok(u) => old(self).ids@.contains_key(id) && u == old(self).ids@[id],
                Err(e) => !old(self).ids@.contains_key(id) && e is InvalidCallbackId,
            },
            final(self).ids@ == old(self).ids@.remove(id),
    {
        match self.take(id) {
            Some(u) => Ok(u),
            None => Err(ConnectionError::InvalidCallbackId),
        }
    }
}

} // verus!
