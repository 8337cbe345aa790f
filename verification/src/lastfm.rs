//! Signing Last.fm API calls: the parameters other than `format`, ordered
//! by name, written name then value one after the other, followed by the
//! shared secret, and hashed with MD5.
use vstd::prelude::*;
use crate::text::str_equals;

verus! {

/// The lower-case hexadecimal MD5 digest of the UTF-8 encoding of a text.
pub uninterp spec fn md5_hex_of(text: Seq<char>) -> Seq<char>;

/// `md5::compute` on the UTF-8 bytes of the text, written with `{:x}`: the
/// digest's 32 lower-case hexadecimal digits. Its result is named
/// `md5_hex_of`.
#[verifier::external_body]
fn md5_hex(text: &str) -> (r: String)
    ensures
        r@ == md5_hex_of(text@),
{
    format!("{:x}", md5::compute(text.as_bytes()))
}

/// Whether `a` comes before `b` in character order (the order of their
/// UTF-8 bytes).
pub open spec fn chars_less(a: Seq<char>, b: Seq<char>) -> bool
    decreases a.len(),
{
    if a.len() == 0 {
        b.len() > 0
    } else if b.len() == 0 {
        false
    } else if a[0] != b[0] {
        a[0] < b[0]
    } else {
        chars_less(a.drop_first(), b.drop_first())
    }
}

/// No text comes before itself.
pub proof fn lemma_chars_less_irreflexive(a: Seq<char>)
    ensures
        !chars_less(a, a),
    decreases a.len(),
{
    if a.len() > 0 {
        lemma_chars_less_irreflexive(a.drop_first());
    }
}

/// Character order is transitive.
pub proof fn lemma_chars_less_transitive(a: Seq<char>, b: Seq<char>, c: Seq<char>)
    requires
        chars_less(a, b),
        chars_less(b, c),
    ensures
        chars_less(a, c),
    decreases a.len(),
{
    if a.len() > 0 && b.len() > 0 && c.len() > 0 && a[0] == b[0] && b[0] == c[0] {
        lemma_chars_less_transitive(a.drop_first(), b.drop_first(), c.drop_first());
    }
}

/// Of two different texts one comes before the other, and never both.
pub proof fn lemma_chars_less_total(a: Seq<char>, b: Seq<char>)
    ensures
        a != b ==> chars_less(a, b) || chars_less(b, a),
        chars_less(a, b) ==> !chars_less(b, a),
    decreases a.len(),
{
    if a.len() > 0 && b.len() > 0 && a[0] == b[0] {
        lemma_chars_less_total(a.drop_first(), b.drop_first());
        if a.drop_first() == b.drop_first() {
            assert forall|i: int| 0 <= i < a.len() implies a[i] == b[i] by {
                if i > 0 {
                    assert(a[i] == a.drop_first()[i - 1]);
                    assert(b[i] == b.drop_first()[i - 1]);
                }
            }
            assert(a =~= b);
        }
    } else if a.len() == 0 && b.len() == 0 {
        assert(a =~= b);
    }
}

/// Whether `a` comes before `b` in character order.
pub fn str_less(a: &str, b: &str) -> (r: bool)
    ensures
        r == chars_less(a@, b@),
{
    let n = a.unicode_len();
    let m = b.unicode_len();
    let mut i: usize = 0;
    assert(a@.skip(0) =~= a@);
    assert(b@.skip(0) =~= b@);
    assert(a@.subrange(0, 0) =~= b@.subrange(0, 0));
    while i < n && i < m
        invariant
            n == a@.len(),
            m == b@.len(),
            i <= n,
            i <= m,
            a@.subrange(0, i as int) == b@.subrange(0, i as int),
            chars_less(a@, b@) == chars_less(a@.skip(i as int), b@.skip(i as int)),
        decreases n - i,
    {
        let x = a.get_char(i);
        let y = b.get_char(i);
        assert(a@.skip(i as int)[0] == x);
        assert(b@.skip(i as int)[0] == y);
        if x != y {
            return x < y;
        }
        assert(a@.skip(i as int).drop_first() =~= a@.skip(i as int + 1));
        assert(b@.skip(i as int).drop_first() =~= b@.skip(i as int + 1));
        assert(a@.subrange(0, i as int + 1) =~= a@.subrange(0, i as int).push(x));
        assert(b@.subrange(0, i as int + 1) =~= b@.subrange(0, i as int).push(y));
        i = i + 1;
    }
    assert(a@.skip(i as int).len() == n - i);
    assert(b@.skip(i as int).len() == m - i);
    i < m
}

/// The characters of each name and value.
pub open spec fn pair_views(pairs: Seq<(String, String)>) -> Seq<(Seq<char>, Seq<char>)> {
    pairs.map_values(|p: (String, String)| (p.0@, p.1@))
}

/// The parameters other than `format`, in order.
pub open spec fn without_format(pairs: Seq<(Seq<char>, Seq<char>)>) -> Seq<(Seq<char>, Seq<char>)>
    decreases pairs.len(),
{
    if pairs.len() == 0 {
        Seq::empty()
    } else {
        let init = without_format(pairs.drop_last());
        if pairs.last().0 == "format"@ {
            init
        } else {
            init.push(pairs.last())
        }
    }
}

/// The position before the first parameter whose name comes after `key`.
pub open spec fn insert_position(sorted: Seq<(Seq<char>, Seq<char>)>, key: Seq<char>) -> int
    decreases sorted.len(),
{
    if sorted.len() == 0 {
        0
    } else if chars_less(key, sorted[0].0) {
        0
    } else {
        1 + insert_position(sorted.drop_first(), key)
    }
}

/// The parameters ordered by name; parameters of the same name keep their
/// order.
pub open spec fn sorted_by_name(pairs: Seq<(Seq<char>, Seq<char>)>) -> Seq<(Seq<char>, Seq<char>)>
    decreases pairs.len(),
{
    if pairs.len() == 0 {
        Seq::empty()
    } else {
        let sorted = sorted_by_name(pairs.drop_last());
        sorted.insert(insert_position(sorted, pairs.last().0), pairs.last())
    }
}

/// Each name followed by its value, one parameter after the other.
pub open spec fn joined_pairs(pairs: Seq<(Seq<char>, Seq<char>)>) -> Seq<char>
    decreases pairs.len(),
{
    if pairs.len() == 0 {
        Seq::empty()
    } else {
        joined_pairs(pairs.drop_last()) + pairs.last().0 + pairs.last().1
    }
}

/// The text that is hashed to sign a call.
pub open spec fn signature_text(pairs: Seq<(Seq<char>, Seq<char>)>, secret: Seq<char>) -> Seq<char> {
    joined_pairs(sorted_by_name(without_format(pairs))) + secret
}

proof fn lemma_insert_position(sorted: Seq<(Seq<char>, Seq<char>)>, key: Seq<char>, j: int)
    requires
        0 <= j <= sorted.len(),
        forall|k: int| 0 <= k < j ==> !chars_less(key, #[trigger] sorted[k].0),
        j < sorted.len() ==> chars_less(key, sorted[j].0),
    ensures
        insert_position(sorted, key) == j,
    decreases j,
{
    if j > 0 {
        lemma_insert_position(sorted.drop_first(), key, j - 1);
    }
}

/// The signature of a Last.fm API call with the given parameters.
pub fn signature(pairs: Vec<(String, String)>, secret: &str) -> (r: String)
    ensures
        r@ == md5_hex_of(signature_text(pair_views(pairs@), secret@)),
{
    let ghost src = pair_views(pairs@);
    let ghost n = pairs.len();
    let mut rest = pairs;
    let mut sorted: Vec<(String, String)> = Vec::new();
    let ghost mut done: int = 0;
    proof {
        reveal_strlit("format");
    }
    while rest.len() > 0
        invariant
            0 <= done <= n,
            n == src.len(),
            rest.len() == n - done,
            pair_views(rest@) == src.skip(done),
            pair_views(sorted@) == sorted_by_name(without_format(src.take(done))),
        decreases rest.len(),
    {
        let ghost rest_before = rest@;
        let (key, value) = rest.remove(0);
        assert(pair_views(rest_before)[0] == (key@, value@));
        assert(src.take(done + 1).drop_last() =~= src.take(done));
        assert(src.take(done + 1).last() == (key@, value@));
        assert(pair_views(rest@) =~= pair_views(rest_before).skip(1));
        assert(src.skip(done).skip(1) =~= src.skip(done + 1));
        let ghost w = without_format(src.take(done));
        if !str_equals(key.as_str(), "format") {
            assert(without_format(src.take(done + 1)) == w.push((key@, value@)));
            assert(w.push((key@, value@)).drop_last() =~= w);
            let mut j: usize = 0;
            while j < sorted.len() && !str_less(key.as_str(), sorted[j].0.as_str())
                invariant
                    j <= sorted.len(),
                    forall|k: int| 0 <= k < j ==> !chars_less(key@, #[trigger] pair_views(sorted@)[k].0),
                decreases sorted.len() - j,
            {
                assert(pair_views(sorted@)[j as int].0 == sorted@[j as int].0@);
                j = j + 1;
            }
            proof {
                if j < sorted.len() {
                    assert(pair_views(sorted@)[j as int].0 == sorted@[j as int].0@);
                }
                lemma_insert_position(pair_views(sorted@), key@, j as int);
            }
            let ghost before = sorted@;
            sorted.insert(j, (key, value));
            assert(pair_views(sorted@) =~= pair_views(before).insert(j as int, (key@, value@)));
        } else {
            assert(without_format(src.take(done + 1)) == w);
        }
        proof {
            done = done + 1;
        }
    }
    assert(src.take(n as int) =~= src);
    let mut text = String::new();
    let mut i: usize = 0;
    while i < sorted.len()
        invariant
            i <= sorted.len(),
            text@ == joined_pairs(pair_views(sorted@).take(i as int)),
        decreases sorted.len() - i,
    {
        assert(pair_views(sorted@).take(i as int + 1).drop_last() =~= pair_views(sorted@).take(i as int));
        text.append(sorted[i].0.as_str());
        text.append(sorted[i].1.as_str());
        i = i + 1;
    }
    assert(pair_views(sorted@).take(sorted.len() as int) =~= pair_views(sorted@));
    text.append(secret);
    md5_hex(text.as_str())
}

/// A `format` parameter does not change the signature.
pub proof fn lemma_format_ignored(pairs: Seq<(Seq<char>, Seq<char>)>, value: Seq<char>, secret: Seq<char>)
    ensures
        signature_text(pairs.push(("format"@, value)), secret) == signature_text(pairs, secret),
{
    assert(pairs.push(("format"@, value)).drop_last() =~= pairs);
}

/// The parameters of a Last.fm scrobble call, before it is signed.
pub open spec fn scrobble_params(
    artists: Seq<char>,
    title: Seq<char>,
    timestamp: i64,
    track_id: u128,
    api_key: Seq<char>,
    session_key: Seq<char>,
) -> Seq<(Seq<char>, Seq<char>)> {
    seq![
        ("artist"@, artists),
        ("track"@, title),
        ("timestamp"@, crate::text::decimal_int(timestamp as int)),
        ("mbid"@, crate::search_result::uuid_text(track_id)),
        ("method"@, "track.scrobble"@),
        ("format"@, "json"@),
        ("api_key"@, api_key),
        ("sk"@, session_key),
    ]
}

/// The form body of a Last.fm call that scrobbles the track with the given
/// id, played at `timestamp` (seconds since the Unix epoch): the call's
/// parameters followed by their signature.
pub fn scrobble_body(
    artists: &str,
    title: &str,
    timestamp: i64,
    track_id: u128,
    api_key: &str,
    session_key: &str,
    secret: &str,
) -> (r: Vec<(String, String)>)
    ensures
        pair_views(r@) == scrobble_params(artists@, title@, timestamp, track_id, api_key@, session_key@).push(
            (
                "api_sig"@,
                md5_hex_of(
                    signature_text(
                        scrobble_params(artists@, title@, timestamp, track_id, api_key@, session_key@),
                        secret@,
                    ),
                ),
            ),
        ),
{
    let s = crate::text::to_owned_string;
    let mut body: Vec<(String, String)> = Vec::new();
    body.push((s("artist"), s(artists)));
    body.push((s("track"), s(title)));
    body.push((s("timestamp"), crate::text::decimal_string(timestamp)));
    body.push((s("mbid"), crate::search_result::uuid_to_string(track_id)));
    body.push((s("method"), s("track.scrobble")));
    body.push((s("format"), s("json")));
    body.push((s("api_key"), s(api_key)));
    body.push((s("sk"), s(session_key)));
    let ghost params = pair_views(body@);
    assert(params =~= scrobble_params(artists@, title@, timestamp, track_id, api_key@, session_key@));
    let mut copy: Vec<(String, String)> = Vec::new();
    let mut i: usize = 0;
    while i < body.len()
        invariant
            i <= body.len(),
            pair_views(copy@) == pair_views(body@).take(i as int),
        decreases body.len() - i,
    {
        let pair = (crate::text::copy_string(&body[i].0), crate::text::copy_string(&body[i].1));
        let ghost before = copy@;
        copy.push(pair);
        assert(pair_views(copy@) =~= pair_views(before).push((pair.0@, pair.1@)));
        assert(pair_views(body@).take(i as int + 1) =~= pair_views(body@).take(i as int).push(pair_views(body@)[i as int]));
        i = i + 1;
    }
    assert(pair_views(body@).take(body.len() as int) =~= pair_views(body@));
    let sig = signature(copy, secret);
    let ghost before = body@;
    body.push((s("api_sig"), sig));
    assert(pair_views(body@) =~= pair_views(before).push(("api_sig"@, sig@)));
    body
}

/// The query parameters of the Last.fm call that trades an authentication
/// token for a session, before it is signed: the base address's `format`
/// followed by the call's own.
pub open spec fn session_params(api_key: Seq<char>, token: Seq<char>) -> Seq<(Seq<char>, Seq<char>)> {
    seq![
        ("format"@, "json"@),
        ("method"@, "auth.getSession"@),
        ("format"@, "json"@),
        ("api_key"@, api_key),
        ("token"@, token),
    ]
}

/// The query parameters of the Last.fm call that trades an authentication
/// token for a session: the call's parameters followed by their signature.
pub fn session_request_params(api_key: &str, token: &str, secret: &str) -> (r: Vec<(String, String)>)
    ensures
        pair_views(r@) == session_params(api_key@, token@).push(
            ("api_sig"@, md5_hex_of(signature_text(session_params(api_key@, token@), secret@))),
        ),
{
    let s = crate::text::to_owned_string;
    let mut params: Vec<(String, String)> = Vec::new();
    params.push((s("format"), s("json")));
    params.push((s("method"), s("auth.getSession")));
    params.push((s("format"), s("json")));
    params.push((s("api_key"), s(api_key)));
    params.push((s("token"), s(token)));
    let mut copy: Vec<(String, String)> = Vec::new();
    copy.push((s("format"), s("json")));
    copy.push((s("method"), s("auth.getSession")));
    copy.push((s("format"), s("json")));
    copy.push((s("api_key"), s(api_key)));
    copy.push((s("token"), s(token)));
    assert(pair_views(copy@) =~= session_params(api_key@, token@));
    assert(pair_views(params@) =~= session_params(api_key@, token@));
    let sig = signature(copy, secret);
    let ghost before = params@;
    params.push((s("api_sig"), sig));
    assert(pair_views(params@) =~= pair_views(before).push(("api_sig"@, sig@)));
    params
}

/// The `application/x-www-form-urlencoded` text `serde_urlencoded::to_string`
/// writes of a sequence of name and value pairs.
pub uninterp spec fn form_encoded_of(pairs: Seq<(Seq<char>, Seq<char>)>) -> Seq<char>;

/// Whether a text is written unchanged in a form body: ASCII letters,
/// digits, `*`, `-`, `.` and `_`.
pub open spec fn is_form_plain(t: Seq<char>) -> bool {
    forall|i: int|
        0 <= i < t.len() ==> {
            let c = #[trigger] t[i];
            ('a' <= c && c <= 'z') || ('A' <= c && c <= 'Z') || ('0' <= c && c <= '9') || c == '*' || c == '-' || c == '.'
                || c == '_'
        }
}

/// Whether every name and value is written unchanged in a form body.
pub open spec fn all_form_plain(pairs: Seq<(Seq<char>, Seq<char>)>) -> bool {
    forall|i: int| 0 <= i < pairs.len() ==> is_form_plain(#[trigger] pairs[i].0) && is_form_plain(pairs[i].1)
}

/// The pairs written `name=value` and joined by `&`.
pub open spec fn form_text(pairs: Seq<(Seq<char>, Seq<char>)>) -> Seq<char>
    decreases pairs.len(),
{
    if pairs.len() == 0 {
        Seq::empty()
    } else if pairs.len() == 1 {
        pairs[0].0 + "="@ + pairs[0].1
    } else {
        form_text(pairs.drop_last()) + "&"@ + pairs.last().0 + "="@ + pairs.last().1
    }
}

/// `serde_urlencoded::to_string` of name and value pairs: its result is
/// named `form_encoded_of`. As the crate's source shows, it does not fail on
/// pairs of texts, and pairs whose names and values hold only characters
/// that are written unchanged are written `name=value`, joined by `&`.
#[verifier::external_body]
fn form_encode(pairs: &Vec<(String, String)>) -> (r: Option<String>)
    ensures
        r is Some,
        r is Some ==> r->0@ == form_encoded_of(pair_views(pairs@)),
        all_form_plain(pair_views(pairs@)) ==> r is Some && r->0@ == form_text(pair_views(pairs@)),
{
    match serde_urlencoded::to_string(pairs) {
        Ok(t) => Some(t),
        Err(_) => None,
    }
}

/// The form-encoded body of a Last.fm scrobble call: the signed parameters
/// of `scrobble_body`, as `serde_urlencoded` writes them.
pub fn scrobble_form(
    artists: &str,
    title: &str,
    timestamp: i64,
    track_id: u128,
    api_key: &str,
    session_key: &str,
    secret: &str,
) -> (r: String)
    ensures
        r@ == form_encoded_of(
            scrobble_params(artists@, title@, timestamp, track_id, api_key@, session_key@).push(
                (
                    "api_sig"@,
                    md5_hex_of(
                        signature_text(
                            scrobble_params(artists@, title@, timestamp, track_id, api_key@, session_key@),
                            secret@,
                        ),
                    ),
                ),
            ),
        ),
{
    let body = scrobble_body(artists, title, timestamp, track_id, api_key, session_key, secret);
    match form_encode(&body) {
        Some(t) => t,
        None => crate::text::to_owned_string(""),
    }
}

} // verus!
