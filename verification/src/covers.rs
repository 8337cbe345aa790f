//! Candidate cover images for a release from the Cover Art Archive and from
//! the iTunes store.
use vstd::prelude::*;
use crate::dates::{number_spec, parse_number};
use crate::entity::{ArtProvider, Cover, Uuid};
use crate::seqs::{converted, filter_map_spec};
use crate::text::{copy_string, str_equals};

verus! {

/// The images the Cover Art Archive lists for a release.
pub struct CoverArtArchive {
    pub images: Vec<Image>,
}

/// An image in the Cover Art Archive and its thumbnails, each under the
/// name of its size.
pub struct Image {
    pub approved: bool,
    pub front: bool,
    pub thumbnails: Vec<(String, String)>,
}

/// The thumbnails the Cover Art Archive offers under fixed names.
pub struct Thumbnails {
    pub the_250: String,
    pub the_500: String,
    pub the_1200: String,
    pub large: String,
    pub small: String,
}

/// The size a thumbnail name stands for: an unsigned decimal number,
/// optionally after a plus sign, that fits a `usize`.
pub open spec fn size_of_name(name: Seq<char>) -> Option<int> {
    if name.len() > 0 && name[0] == '+' {
        number_spec(name.drop_first(), usize::MAX as int)
    } else {
        number_spec(name, usize::MAX as int)
    }
}

/// Reads the size a thumbnail name stands for.
pub fn parse_size(name: &str) -> (r: Option<usize>)
    ensures
        match r {
            Some(v) => size_of_name(name@) == Some(v as int),
            None => size_of_name(name@) is None,
        },
{
    let n = name.unicode_len();
    let digits = if n > 0 && name.get_char(0) == '+' {
        let rest = name.substring_char(1, n);
        assert(rest@ =~= name@.drop_first());
        rest
    } else {
        name
    };
    match parse_number(digits, usize::MAX as u64) {
        Some(v) => Some(v as usize),
        None => None,
    }
}

/// The thumbnails whose names are sizes, with their sizes and addresses.
pub open spec fn sized_thumbnails(ts: Seq<(String, String)>) -> Seq<(int, Seq<char>)> {
    filter_map_spec(
        ts,
        |t: (String, String)|
            match size_of_name(t.0@) {
                Some(n) => Some((n, t.1@)),
                None => None,
            },
    )
}

/// The largest size among the thumbnails and the address of the first
/// thumbnail of that size; `None` when no thumbnail name is a size.
pub open spec fn largest_thumbnail(ts: Seq<(int, Seq<char>)>) -> Option<(int, Seq<char>)>
    decreases ts.len(),
{
    if ts.len() == 0 {
        None
    } else {
        match largest_thumbnail(ts.drop_last()) {
            Some(best) => if ts.last().0 > best.0 {
                Some(ts.last())
            } else {
                Some(best)
            },
            None => Some(ts.last()),
        }
    }
}

/// `out` is the cover of the given provider, address and square size, with
/// the release's title and artist.
pub open spec fn cover_matches(
    out: Cover,
    provider: ArtProvider,
    url: Seq<char>,
    size: int,
    title: Seq<char>,
    artist: Seq<char>,
) -> bool {
    &&& out.provider == provider
    &&& out.url@ == url
    &&& out.width == size
    &&& out.height == size
    &&& out.title@ == title
    &&& out.artist@ == artist
}

/// The largest thumbnail of each front image.
pub open spec fn archive_covers(images: Seq<Image>) -> Seq<(int, Seq<char>)> {
    filter_map_spec(
        images,
        |i: Image|
            if i.front {
                largest_thumbnail(sized_thumbnails(i.thumbnails@))
            } else {
                None
            },
    )
}

/// The largest thumbnail of an image.
fn largest_of(ts: &Vec<(String, String)>) -> (r: Option<(usize, &String)>)
    ensures
        match r {
            Some(p) => largest_thumbnail(sized_thumbnails(ts@)) == Some((p.0 as int, p.1@)),
            None => largest_thumbnail(sized_thumbnails(ts@)) is None,
        },
{
    let ghost f = |t: (String, String)|
        match size_of_name(t.0@) {
            Some(n) => Some((n, t.1@)),
            None => None,
        };
    let mut best: Option<(usize, &String)> = None;
    let mut i: usize = 0;
    while i < ts.len()
        invariant
            i <= ts.len(),
            f == (|t: (String, String)|
                match size_of_name(t.0@) {
                    Some(n) => Some((n, t.1@)),
                    None => None,
                }),
            match best {
                Some(p) => largest_thumbnail(filter_map_spec(ts@.take(i as int), f)) == Some((p.0 as int, p.1@)),
                None => largest_thumbnail(filter_map_spec(ts@.take(i as int), f)) is None,
            },
        decreases ts.len() - i,
    {
        assert(ts@.take(i as int + 1).drop_last() =~= ts@.take(i as int));
        let t = &ts[i];
        let ghost prev = filter_map_spec(ts@.take(i as int), f);
        match parse_size(t.0.as_str()) {
            Some(size) => {
                assert(f(ts@[i as int]) == Some((size as int, t.1@)));
                assert(filter_map_spec(ts@.take(i as int + 1), f) == prev.push((size as int, t.1@)));
                assert(prev.push((size as int, t.1@)).drop_last() =~= prev);
                best = match best {
                    Some((b, url)) => if size > b {
                        Some((size, &t.1))
                    } else {
                        Some((b, url))
                    },
                    None => Some((size, &t.1)),
                };
            },
            None => {
                assert(f(ts@[i as int]) is None);
            },
        }
        i = i + 1;
    }
    assert(ts@.take(ts.len() as int) =~= ts@);
    best
}

impl CoverArtArchive {
    /// One cover for each front image that has a thumbnail named by its
    /// size: the largest, as wide and high as that size.
    pub fn covers(self, title: String, artist: String) -> (r: Vec<Cover>)
        ensures
            converted(
                r@,
                archive_covers(self.images@),
                |c: Cover, s: (int, Seq<char>)|
                    cover_matches(c, ArtProvider::CoverArtArchive, s.1, s.0, title@, artist@),
            ),
    {
        let ghost g = |i: Image|
            if i.front {
                largest_thumbnail(sized_thumbnails(i.thumbnails@))
            } else {
                None
            };
        let ghost rel = |c: Cover, s: (int, Seq<char>)|
            cover_matches(c, ArtProvider::CoverArtArchive, s.1, s.0, title@, artist@);
        let images = &self.images;
        let mut out: Vec<Cover> = Vec::new();
        let mut i: usize = 0;
        while i < images.len()
            invariant
                i <= images.len(),
                g == (|i: Image|
                    if i.front {
                        largest_thumbnail(sized_thumbnails(i.thumbnails@))
                    } else {
                        None
                    }),
                rel == (|c: Cover, s: (int, Seq<char>)|
                    cover_matches(c, ArtProvider::CoverArtArchive, s.1, s.0, title@, artist@)),
                converted(out@, filter_map_spec(images@.take(i as int), g), rel),
            decreases images.len() - i,
        {
            assert(images@.take(i as int + 1).drop_last() =~= images@.take(i as int));
            let image = &images[i];
            if image.front {
                if let Some((size, url)) = largest_of(&image.thumbnails) {
                    let cover = Cover {
                        provider: ArtProvider::CoverArtArchive,
                        url: copy_string(url),
                        width: size,
                        height: size,
                        title: copy_string(&title),
                        artist: copy_string(&artist),
                    };
                    let ghost before = out@;
                    out.push(cover);
                    assert(rel(cover, (size as int, url@)));
                    assert forall|k: int| 0 <= k < out@.len() implies #[trigger] rel(out@[k], filter_map_spec(images@.take(i as int + 1), g)[k]) by {
                        if k < before.len() {
                            assert(rel(before[k], filter_map_spec(images@.take(i as int), g)[k]));
                        }
                    }
                }
            }
            i = i + 1;
        }
        assert(images@.take(images.len() as int) =~= images@);
        out
    }
}

/// Where the Cover Art Archive is asked for covers: the release group
/// (or the release, when it has none) if release groups are preferred,
/// else the release.
pub fn cover_art_archive_target(use_release_group: bool, release_id: Uuid, release_group_id: Option<Uuid>) -> (r: (&'static str, Uuid))
    ensures
        use_release_group ==> r.0@ == "release-group"@ && r.1 == match release_group_id {
            Some(g) => g,
            None => release_id,
        },
        !use_release_group ==> r.0@ == "release"@ && r.1 == release_id,
{
    if use_release_group {
        (
            "release-group",
            match release_group_id {
                Some(g) => g,
                None => release_id,
            },
        )
    } else {
        ("release", release_id)
    }
}

/// The results of an iTunes album search.
pub struct Itunes {
    pub results: Vec<ItunesResult>,
}

/// An album found in the iTunes store and the address of its artwork at
/// 100 by 100 pixels.
pub struct ItunesResult {
    pub artist_name: String,
    pub collection_name: String,
    pub artwork_url_100: String,
}

/// The text with every occurrence of `from`, from left to right and without
/// overlaps, replaced by `to`.
pub open spec fn replace_all(s: Seq<char>, from: Seq<char>, to: Seq<char>) -> Seq<char>
    decreases s.len(),
{
    if from.len() == 0 || s.len() < from.len() {
        s
    } else if s.take(from.len() as int) == from {
        to + replace_all(s.skip(from.len() as int), from, to)
    } else {
        seq![s[0]] + replace_all(s.drop_first(), from, to)
    }
}

/// Whether `from` occurs in `s` at character position `i`.
fn occurs_at(s: &str, from: &str, i: usize) -> (r: bool)
    requires
        i + from@.len() <= s@.len(),
    ensures
        r == (s@.skip(i as int).take(from@.len() as int) == from@),
{
    let m = from.unicode_len();
    let n = s.unicode_len();
    let mut j: usize = 0;
    while j < m
        invariant
            m == from@.len(),
            n == s@.len(),
            i + m <= s@.len(),
            j <= m,
            forall|k: int| 0 <= k < j ==> s@[i + k] == from@[k],
        decreases m - j,
    {
        if s.get_char(i + j) != from.get_char(j) {
            assert(s@.skip(i as int).take(m as int)[j as int] != from@[j as int]);
            return false;
        }
        j = j + 1;
    }
    assert(s@.skip(i as int).take(m as int) =~= from@);
    true
}

/// The text with every match of `from`, taken from left to right without
/// overlaps, replaced by `to`, as `str::replace` documents it, for a
/// non-empty `from`.
fn replace_text(s: &str, from: &str, to: &str) -> (r: String)
    requires
        from@.len() > 0,
    ensures
        r@ == replace_all(s@, from@, to@),
{
    let n = s.unicode_len();
    let m = from.unicode_len();
    let mut out = String::new();
    let mut i: usize = 0;
    assert(s@.skip(0) =~= s@);
    while i < n
        invariant
            n == s@.len(),
            m == from@.len(),
            m > 0,
            i <= n,
            out@ + replace_all(s@.skip(i as int), from@, to@) == replace_all(s@, from@, to@),
        decreases n - i,
    {
        let ghost t = s@.skip(i as int);
        if m <= n - i && occurs_at(s, from, i) {
            assert(t.skip(m as int) =~= s@.skip(i + m));
            assert(replace_all(t, from@, to@) == to@ + replace_all(s@.skip(i + m), from@, to@));
            let ghost before = out@;
            out.append(to);
            assert(out@ + replace_all(s@.skip(i + m), from@, to@) =~= before + replace_all(t, from@, to@));
            i = i + m;
        } else {
            let piece = s.substring_char(i, i + 1);
            assert(t.drop_first() =~= s@.skip(i + 1));
            assert(piece@ =~= seq![t[0]]);
            proof {
                if t.len() < m {
                    assert(replace_all(t, from@, to@) == t);
                    assert(s@.skip(i + 1).len() < m);
                    assert(replace_all(s@.skip(i + 1), from@, to@) == s@.skip(i + 1));
                    assert(t =~= seq![t[0]] + t.drop_first());
                } else {
                    assert(t.take(m as int) != from@);
                    assert(replace_all(t, from@, to@) == seq![t[0]] + replace_all(t.drop_first(), from@, to@));
                }
            }
            let ghost before = out@;
            out.append(piece);
            assert(out@ + replace_all(s@.skip(i + 1), from@, to@) =~= before + replace_all(t, from@, to@));
            i = i + 1;
        }
    }
    assert(s@.skip(n as int) =~= Seq::<char>::empty());
    assert(out@ + replace_all(s@.skip(n as int), from@, to@) =~= out@);
    out
}

/// The sizes, largest first, at which iTunes artwork is asked for, with the
/// text that stands for each in the artwork's address.
pub open spec fn itunes_sizes() -> Seq<(int, Seq<char>)> {
    seq![(5000, "5000x5000"@), (1200, "1200x1200"@), (600, "600x600"@)]
}

/// Three covers for each result, at 5000, 1200 and 600 pixels square: the
/// artwork address with `100x100` replaced by the size.
pub open spec fn itunes_covers_spec(results: Seq<ItunesResult>) -> Seq<(ItunesResult, int, Seq<char>)> {
    crate::seqs::concat(
        results.map_values(
            |r: ItunesResult|
                itunes_sizes().map_values(|s: (int, Seq<char>)| (r, s.0, replace_all(r.artwork_url_100@, "100x100"@, s.1))),
        ),
    )
}

/// The cover made from an iTunes result at a size.
pub open spec fn itunes_cover_matches(c: Cover, s: (ItunesResult, int, Seq<char>)) -> bool {
    cover_matches(c, ArtProvider::Itunes, s.2, s.1, s.0.collection_name@, s.0.artist_name@)
}

impl Itunes {
    /// The candidate covers of the search results.
    pub fn covers(&self) -> (r: Vec<Cover>)
        ensures
            converted(r@, itunes_covers_spec(self.results@), |c: Cover, s: (ItunesResult, int, Seq<char>)| itunes_cover_matches(c, s)),
    {
        let ghost rel = |c: Cover, s: (ItunesResult, int, Seq<char>)| itunes_cover_matches(c, s);
        let ghost per = |r: ItunesResult|
            itunes_sizes().map_values(|s: (int, Seq<char>)| (r, s.0, replace_all(r.artwork_url_100@, "100x100"@, s.1)));
        proof {
            reveal_strlit("100x100");
            reveal_strlit("5000x5000");
            reveal_strlit("1200x1200");
            reveal_strlit("600x600");
        }
        let results = &self.results;
        let mut out: Vec<Cover> = Vec::new();
        let mut i: usize = 0;
        assert(results@.take(0).map_values(per) =~= Seq::<Seq<(ItunesResult, int, Seq<char>)>>::empty());
        while i < results.len()
            invariant
                i <= results.len(),
                rel == (|c: Cover, s: (ItunesResult, int, Seq<char>)| itunes_cover_matches(c, s)),
                per == (|r: ItunesResult|
                    itunes_sizes().map_values(|s: (int, Seq<char>)| (r, s.0, replace_all(r.artwork_url_100@, "100x100"@, s.1)))),
                converted(out@, crate::seqs::concat(results@.take(i as int).map_values(per)), rel),
            decreases results.len() - i,
        {
            proof {
                reveal_strlit("100x100");
                reveal_strlit("5000x5000");
                reveal_strlit("1200x1200");
                reveal_strlit("600x600");
            }
            let result = &results[i];
            let u5000 = replace_text(result.artwork_url_100.as_str(), "100x100", "5000x5000");
            let u1200 = replace_text(result.artwork_url_100.as_str(), "100x100", "1200x1200");
            let u600 = replace_text(result.artwork_url_100.as_str(), "100x100", "600x600");
            let mut batch: Vec<Cover> = Vec::new();
            batch.push(Cover { provider: ArtProvider::Itunes, url: u5000, width: 5000, height: 5000, title: copy_string(&result.collection_name), artist: copy_string(&result.artist_name) });
            batch.push(Cover { provider: ArtProvider::Itunes, url: u1200, width: 1200, height: 1200, title: copy_string(&result.collection_name), artist: copy_string(&result.artist_name) });
            batch.push(Cover { provider: ArtProvider::Itunes, url: u600, width: 600, height: 600, title: copy_string(&result.collection_name), artist: copy_string(&result.artist_name) });
            proof {
                let expected = per(*result);
                assert(expected.len() == 3);
                assert(rel(batch@[0], expected[0]));
                assert(rel(batch@[1], expected[1]));
                assert(rel(batch@[2], expected[2]));
                assert(converted(batch@, expected, rel));
                crate::seqs::lemma_converted_append(out@, batch@, crate::seqs::concat(results@.take(i as int).map_values(per)), expected, rel);
                assert(results@.take(i as int + 1).map_values(per).drop_last() =~= results@.take(i as int).map_values(per));
            }
            out.append(&mut batch);
            i = i + 1;
        }
        assert(results@.take(results.len() as int) =~= results@);
        out
    }
}

/// The country stores iTunes is searched in.
pub open spec fn is_itunes_country_spec(s: Seq<char>) -> bool {
    s == "AE"@
        || s == "AG"@
        || s == "AI"@
        || s == "AL"@
        || s == "AM"@
        || s == "AO"@
        || s == "AR"@
        || s == "AT"@
        || s == "AU"@
        || s == "AZ"@
        || s == "BB"@
        || s == "BE"@
        || s == "BF"@
        || s == "BG"@
        || s == "BH"@
        || s == "BJ"@
        || s == "BM"@
        || s == "BN"@
        || s == "BO"@
        || s == "BR"@
        || s == "BS"@
        || s == "BT"@
        || s == "BW"@
        || s == "BY"@
        || s == "BZ"@
        || s == "CA"@
        || s == "CG"@
        || s == "CH"@
        || s == "CL"@
        || s == "CN"@
        || s == "CO"@
        || s == "CR"@
        || s == "CV"@
        || s == "CY"@
        || s == "CZ"@
        || s == "DE"@
        || s == "DK"@
        || s == "DM"@
        || s == "DO"@
        || s == "DZ"@
        || s == "EC"@
        || s == "EE"@
        || s == "EG"@
        || s == "ES"@
        || s == "FI"@
        || s == "FJ"@
        || s == "FM"@
        || s == "FR"@
        || s == "GB"@
        || s == "GD"@
        || s == "GH"@
        || s == "GM"@
        || s == "GR"@
        || s == "GT"@
        || s == "GW"@
        || s == "GY"@
        || s == "HK"@
        || s == "HN"@
        || s == "HR"@
        || s == "HU"@
        || s == "ID"@
        || s == "IE"@
        || s == "IL"@
        || s == "IN"@
        || s == "IS"@
        || s == "IT"@
        || s == "JM"@
        || s == "JO"@
        || s == "JP"@
        || s == "KE"@
        || s == "KG"@
        || s == "KH"@
        || s == "KN"@
        || s == "KR"@
        || s == "KW"@
        || s == "KY"@
        || s == "KZ"@
        || s == "LA"@
        || s == "LB"@
        || s == "LC"@
        || s == "LK"@
        || s == "LR"@
        || s == "LT"@
        || s == "LU"@
        || s == "LV"@
        || s == "MD"@
        || s == "MG"@
        || s == "MK"@
        || s == "ML"@
        || s == "MN"@
        || s == "MO"@
        || s == "MR"@
        || s == "MS"@
        || s == "MT"@
        || s == "MU"@
        || s == "MW"@
        || s == "MX"@
        || s == "MY"@
        || s == "MZ"@
        || s == "NA"@
        || s == "NE"@
        || s == "NG"@
        || s == "NI"@
        || s == "NL"@
        || s == "NP"@
        || s == "NO"@
        || s == "NZ"@
        || s == "OM"@
        || s == "PA"@
        || s == "PE"@
        || s == "PG"@
        || s == "PH"@
        || s == "PK"@
        || s == "PL"@
        || s == "PT"@
        || s == "PW"@
        || s == "PY"@
        || s == "QA"@
        || s == "RO"@
        || s == "RU"@
        || s == "SA"@
        || s == "SB"@
        || s == "SC"@
        || s == "SE"@
        || s == "SG"@
        || s == "SI"@
        || s == "SK"@
        || s == "SL"@
        || s == "SN"@
        || s == "SR"@
        || s == "ST"@
        || s == "SV"@
        || s == "SZ"@
        || s == "TC"@
        || s == "TD"@
        || s == "TH"@
        || s == "TJ"@
        || s == "TM"@
        || s == "TN"@
        || s == "TR"@
        || s == "TT"@
        || s == "TW"@
        || s == "TZ"@
        || s == "UA"@
        || s == "UG"@
        || s == "US"@
        || s == "UY"@
        || s == "UZ"@
        || s == "VC"@
        || s == "VE"@
        || s == "VG"@
        || s == "VN"@
        || s == "YE"@
        || s == "ZA"@
        || s == "ZW"@
}

/// Whether iTunes has a store for the country code.
pub fn is_itunes_country(s: &str) -> (r: bool)
    ensures
        r == is_itunes_country_spec(s@),
{
    str_equals(s, "AE")
        || str_equals(s, "AG")
        || str_equals(s, "AI")
        || str_equals(s, "AL")
        || str_equals(s, "AM")
        || str_equals(s, "AO")
        || str_equals(s, "AR")
        || str_equals(s, "AT")
        || str_equals(s, "AU")
        || str_equals(s, "AZ")
        || str_equals(s, "BB")
        || str_equals(s, "BE")
        || str_equals(s, "BF")
        || str_equals(s, "BG")
        || str_equals(s, "BH")
        || str_equals(s, "BJ")
        || str_equals(s, "BM")
        || str_equals(s, "BN")
        || str_equals(s, "BO")
        || str_equals(s, "BR")
        || str_equals(s, "BS")
        || str_equals(s, "BT")
        || str_equals(s, "BW")
        || str_equals(s, "BY")
        || str_equals(s, "BZ")
        || str_equals(s, "CA")
        || str_equals(s, "CG")
        || str_equals(s, "CH")
        || str_equals(s, "CL")
        || str_equals(s, "CN")
        || str_equals(s, "CO")
        || str_equals(s, "CR")
        || str_equals(s, "CV")
        || str_equals(s, "CY")
        || str_equals(s, "CZ")
        || str_equals(s, "DE")
        || str_equals(s, "DK")
        || str_equals(s, "DM")
        || str_equals(s, "DO")
        || str_equals(s, "DZ")
        || str_equals(s, "EC")
        || str_equals(s, "EE")
        || str_equals(s, "EG")
        || str_equals(s, "ES")
        || str_equals(s, "FI")
        || str_equals(s, "FJ")
        || str_equals(s, "FM")
        || str_equals(s, "FR")
        || str_equals(s, "GB")
        || str_equals(s, "GD")
        || str_equals(s, "GH")
        || str_equals(s, "GM")
        || str_equals(s, "GR")
        || str_equals(s, "GT")
        || str_equals(s, "GW")
        || str_equals(s, "GY")
        || str_equals(s, "HK")
        || str_equals(s, "HN")
        || str_equals(s, "HR")
        || str_equals(s, "HU")
        || str_equals(s, "ID")
        || str_equals(s, "IE")
        || str_equals(s, "IL")
        || str_equals(s, "IN")
        || str_equals(s, "IS")
        || str_equals(s, "IT")
        || str_equals(s, "JM")
        || str_equals(s, "JO")
        || str_equals(s, "JP")
        || str_equals(s, "KE")
        || str_equals(s, "KG")
        || str_equals(s, "KH")
        || str_equals(s, "KN")
        || str_equals(s, "KR")
        || str_equals(s, "KW")
        || str_equals(s, "KY")
        || str_equals(s, "KZ")
        || str_equals(s, "LA")
        || str_equals(s, "LB")
        || str_equals(s, "LC")
        || str_equals(s, "LK")
        || str_equals(s, "LR")
        || str_equals(s, "LT")
        || str_equals(s, "LU")
        || str_equals(s, "LV")
        || str_equals(s, "MD")
        || str_equals(s, "MG")
        || str_equals(s, "MK")
        || str_equals(s, "ML")
        || str_equals(s, "MN")
        || str_equals(s, "MO")
        || str_equals(s, "MR")
        || str_equals(s, "MS")
        || str_equals(s, "MT")
        || str_equals(s, "MU")
        || str_equals(s, "MW")
        || str_equals(s, "MX")
        || str_equals(s, "MY")
        || str_equals(s, "MZ")
        || str_equals(s, "NA")
        || str_equals(s, "NE")
        || str_equals(s, "NG")
        || str_equals(s, "NI")
        || str_equals(s, "NL")
        || str_equals(s, "NP")
        || str_equals(s, "NO")
        || str_equals(s, "NZ")
        || str_equals(s, "OM")
        || str_equals(s, "PA")
        || str_equals(s, "PE")
        || str_equals(s, "PG")
        || str_equals(s, "PH")
        || str_equals(s, "PK")
        || str_equals(s, "PL")
        || str_equals(s, "PT")
        || str_equals(s, "PW")
        || str_equals(s, "PY")
        || str_equals(s, "QA")
        || str_equals(s, "RO")
        || str_equals(s, "RU")
        || str_equals(s, "SA")
        || str_equals(s, "SB")
        || str_equals(s, "SC")
        || str_equals(s, "SE")
        || str_equals(s, "SG")
        || str_equals(s, "SI")
        || str_equals(s, "SK")
        || str_equals(s, "SL")
        || str_equals(s, "SN")
        || str_equals(s, "SR")
        || str_equals(s, "ST")
        || str_equals(s, "SV")
        || str_equals(s, "SZ")
        || str_equals(s, "TC")
        || str_equals(s, "TD")
        || str_equals(s, "TH")
        || str_equals(s, "TJ")
        || str_equals(s, "TM")
        || str_equals(s, "TN")
        || str_equals(s, "TR")
        || str_equals(s, "TT")
        || str_equals(s, "TW")
        || str_equals(s, "TZ")
        || str_equals(s, "UA")
        || str_equals(s, "UG")
        || str_equals(s, "US")
        || str_equals(s, "UY")
        || str_equals(s, "UZ")
        || str_equals(s, "VC")
        || str_equals(s, "VE")
        || str_equals(s, "VG")
        || str_equals(s, "VN")
        || str_equals(s, "YE")
        || str_equals(s, "ZA")
        || str_equals(s, "ZW")
}

/// The store an iTunes search for a release uses: the release's country
/// when iTunes has a store for it, else the United States.
pub fn itunes_country(country: &Option<String>) -> (r: String)
    ensures
        r@ == match country {
            Some(c) => if is_itunes_country_spec(c@) { c@ } else { "US"@ },
            None => "US"@,
        },
{
    match country {
        Some(c) => if is_itunes_country(c.as_str()) {
            copy_string(c)
        } else {
            crate::text::to_owned_string("US")
        },
        None => crate::text::to_owned_string("US"),
    }
}

/// The covers the providers found, provider by provider in order; a
/// provider whose search failed adds none.
pub open spec fn gathered_covers<E>(results: Seq<Result<Vec<Cover>, E>>) -> Seq<Cover>
    decreases results.len(),
{
    if results.len() == 0 {
        Seq::empty()
    } else {
        gathered_covers(results.drop_last()) + match results.last() {
            Ok(v) => v@,
            Err(_) => Seq::empty(),
        }
    }
}

/// Joins the covers each provider found, in the order the providers were
/// asked, passing over those whose search failed.
pub fn gather_covers<E>(results: Vec<Result<Vec<Cover>, E>>) -> (r: Vec<Cover>)
    ensures
        r@ == gathered_covers(results@),
{
    let ghost src = results@;
    let mut rest = results;
    let mut out: Vec<Cover> = Vec::new();
    let ghost mut done: int = 0;
    while rest.len() > 0
        invariant
            0 <= done <= src.len(),
            rest@ == src.skip(done),
            out@ == gathered_covers(src.take(done)),
        decreases rest.len(),
    {
        let x = rest.remove(0);
        assert(x == src[done]);
        assert(src.take(done + 1).drop_last() =~= src.take(done));
        match x {
            Ok(mut v) => {
                out.append(&mut v);
            },
            Err(_) => {},
        }
        proof {
            done = done + 1;
        }
        assert(rest@ =~= src.skip(done));
    }
    assert(src.take(done) =~= src);
    out
}

/// The iTunes stores searched for covers: every country of the iTunes store
/// list is searched in its own store, and only two-letter codes are
/// countries of the list.
pub proof fn lemma_itunes_countries(s: Seq<char>)
    ensures
        is_itunes_country_spec("AE"@),
        is_itunes_country_spec("AG"@),
        is_itunes_country_spec("AI"@),
        is_itunes_country_spec("AL"@),
        is_itunes_country_spec("AM"@),
        is_itunes_country_spec("AO"@),
        is_itunes_country_spec("AR"@),
        is_itunes_country_spec("AT"@),
        is_itunes_country_spec("AU"@),
        is_itunes_country_spec("AZ"@),
        is_itunes_country_spec("BB"@),
        is_itunes_country_spec("BE"@),
        is_itunes_country_spec("BF"@),
        is_itunes_country_spec("BG"@),
        is_itunes_country_spec("BH"@),
        is_itunes_country_spec("BJ"@),
        is_itunes_country_spec("BM"@),
        is_itunes_country_spec("BN"@),
        is_itunes_country_spec("BO"@),
        is_itunes_country_spec("BR"@),
        is_itunes_country_spec("BS"@),
        is_itunes_country_spec("BT"@),
        is_itunes_country_spec("BW"@),
        is_itunes_country_spec("BY"@),
        is_itunes_country_spec("BZ"@),
        is_itunes_country_spec("CA"@),
        is_itunes_country_spec("CG"@),
        is_itunes_country_spec("CH"@),
        is_itunes_country_spec("CL"@),
        is_itunes_country_spec("CN"@),
        is_itunes_country_spec("CO"@),
        is_itunes_country_spec("CR"@),
        is_itunes_country_spec("CV"@),
        is_itunes_country_spec("CY"@),
        is_itunes_country_spec("CZ"@),
        is_itunes_country_spec("DE"@),
        is_itunes_country_spec("DK"@),
        is_itunes_country_spec("DM"@),
        is_itunes_country_spec("DO"@),
        is_itunes_country_spec("DZ"@),
        is_itunes_country_spec("EC"@),
        is_itunes_country_spec("EE"@),
        is_itunes_country_spec("EG"@),
        is_itunes_country_spec("ES"@),
        is_itunes_country_spec("FI"@),
        is_itunes_country_spec("FJ"@),
        is_itunes_country_spec("FM"@),
        is_itunes_country_spec("FR"@),
        is_itunes_country_spec("GB"@),
        is_itunes_country_spec("GD"@),
        is_itunes_country_spec("GH"@),
        is_itunes_country_spec("GM"@),
        is_itunes_country_spec("GR"@),
        is_itunes_country_spec("GT"@),
        is_itunes_country_spec("GW"@),
        is_itunes_country_spec("GY"@),
        is_itunes_country_spec("HK"@),
        is_itunes_country_spec("HN"@),
        is_itunes_country_spec("HR"@),
        is_itunes_country_spec("HU"@),
        is_itunes_country_spec("ID"@),
        is_itunes_country_spec("IE"@),
        is_itunes_country_spec("IL"@),
        is_itunes_country_spec("IN"@),
        is_itunes_country_spec("IS"@),
        is_itunes_country_spec("IT"@),
        is_itunes_country_spec("JM"@),
        is_itunes_country_spec("JO"@),
        is_itunes_country_spec("JP"@),
        is_itunes_country_spec("KE"@),
        is_itunes_country_spec("KG"@),
        is_itunes_country_spec("KH"@),
        is_itunes_country_spec("KN"@),
        is_itunes_country_spec("KR"@),
        is_itunes_country_spec("KW"@),
        is_itunes_country_spec("KY"@),
        is_itunes_country_spec("KZ"@),
        is_itunes_country_spec("LA"@),
        is_itunes_country_spec("LB"@),
        is_itunes_country_spec("LC"@),
        is_itunes_country_spec("LK"@),
        is_itunes_country_spec("LR"@),
        is_itunes_country_spec("LT"@),
        is_itunes_country_spec("LU"@),
        is_itunes_country_spec("LV"@),
        is_itunes_country_spec("MD"@),
        is_itunes_country_spec("MG"@),
        is_itunes_country_spec("MK"@),
        is_itunes_country_spec("ML"@),
        is_itunes_country_spec("MN"@),
        is_itunes_country_spec("MO"@),
        is_itunes_country_spec("MR"@),
        is_itunes_country_spec("MS"@),
        is_itunes_country_spec("MT"@),
        is_itunes_country_spec("MU"@),
        is_itunes_country_spec("MW"@),
        is_itunes_country_spec("MX"@),
        is_itunes_country_spec("MY"@),
        is_itunes_country_spec("MZ"@),
        is_itunes_country_spec("NA"@),
        is_itunes_country_spec("NE"@),
        is_itunes_country_spec("NG"@),
        is_itunes_country_spec("NI"@),
        is_itunes_country_spec("NL"@),
        is_itunes_country_spec("NP"@),
        is_itunes_country_spec("NO"@),
        is_itunes_country_spec("NZ"@),
        is_itunes_country_spec("OM"@),
        is_itunes_country_spec("PA"@),
        is_itunes_country_spec("PE"@),
        is_itunes_country_spec("PG"@),
        is_itunes_country_spec("PH"@),
        is_itunes_country_spec("PK"@),
        is_itunes_country_spec("PL"@),
        is_itunes_country_spec("PT"@),
        is_itunes_country_spec("PW"@),
        is_itunes_country_spec("PY"@),
        is_itunes_country_spec("QA"@),
        is_itunes_country_spec("RO"@),
        is_itunes_country_spec("RU"@),
        is_itunes_country_spec("SA"@),
        is_itunes_country_spec("SB"@),
        is_itunes_country_spec("SC"@),
        is_itunes_country_spec("SE"@),
        is_itunes_country_spec("SG"@),
        is_itunes_country_spec("SI"@),
        is_itunes_country_spec("SK"@),
        is_itunes_country_spec("SL"@),
        is_itunes_country_spec("SN"@),
        is_itunes_country_spec("SR"@),
        is_itunes_country_spec("ST"@),
        is_itunes_country_spec("SV"@),
        is_itunes_country_spec("SZ"@),
        is_itunes_country_spec("TC"@),
        is_itunes_country_spec("TD"@),
        is_itunes_country_spec("TH"@),
        is_itunes_country_spec("TJ"@),
        is_itunes_country_spec("TM"@),
        is_itunes_country_spec("TN"@),
        is_itunes_country_spec("TR"@),
        is_itunes_country_spec("TT"@),
        is_itunes_country_spec("TW"@),
        is_itunes_country_spec("TZ"@),
        is_itunes_country_spec("UA"@),
        is_itunes_country_spec("UG"@),
        is_itunes_country_spec("US"@),
        is_itunes_country_spec("UY"@),
        is_itunes_country_spec("UZ"@),
        is_itunes_country_spec("VC"@),
        is_itunes_country_spec("VE"@),
        is_itunes_country_spec("VG"@),
        is_itunes_country_spec("VN"@),
        is_itunes_country_spec("YE"@),
        is_itunes_country_spec("ZA"@),
        is_itunes_country_spec("ZW"@),
        is_itunes_country_spec(s) ==> s.len() == 2,
{
    reveal_strlit("AE");
    reveal_strlit("AG");
    reveal_strlit("AI");
    reveal_strlit("AL");
    reveal_strlit("AM");
    reveal_strlit("AO");
    reveal_strlit("AR");
    reveal_strlit("AT");
    reveal_strlit("AU");
    reveal_strlit("AZ");
    reveal_strlit("BB");
    reveal_strlit("BE");
    reveal_strlit("BF");
    reveal_strlit("BG");
    reveal_strlit("BH");
    reveal_strlit("BJ");
    reveal_strlit("BM");
    reveal_strlit("BN");
    reveal_strlit("BO");
    reveal_strlit("BR");
    reveal_strlit("BS");
    reveal_strlit("BT");
    reveal_strlit("BW");
    reveal_strlit("BY");
    reveal_strlit("BZ");
    reveal_strlit("CA");
    reveal_strlit("CG");
    reveal_strlit("CH");
    reveal_strlit("CL");
    reveal_strlit("CN");
    reveal_strlit("CO");
    reveal_strlit("CR");
    reveal_strlit("CV");
    reveal_strlit("CY");
    reveal_strlit("CZ");
    reveal_strlit("DE");
    reveal_strlit("DK");
    reveal_strlit("DM");
    reveal_strlit("DO");
    reveal_strlit("DZ");
    reveal_strlit("EC");
    reveal_strlit("EE");
    reveal_strlit("EG");
    reveal_strlit("ES");
    reveal_strlit("FI");
    reveal_strlit("FJ");
    reveal_strlit("FM");
    reveal_strlit("FR");
    reveal_strlit("GB");
    reveal_strlit("GD");
    reveal_strlit("GH");
    reveal_strlit("GM");
    reveal_strlit("GR");
    reveal_strlit("GT");
    reveal_strlit("GW");
    reveal_strlit("GY");
    reveal_strlit("HK");
    reveal_strlit("HN");
    reveal_strlit("HR");
    reveal_strlit("HU");
    reveal_strlit("ID");
    reveal_strlit("IE");
    reveal_strlit("IL");
    reveal_strlit("IN");
    reveal_strlit("IS");
    reveal_strlit("IT");
    reveal_strlit("JM");
    reveal_strlit("JO");
    reveal_strlit("JP");
    reveal_strlit("KE");
    reveal_strlit("KG");
    reveal_strlit("KH");
    reveal_strlit("KN");
    reveal_strlit("KR");
    reveal_strlit("KW");
    reveal_strlit("KY");
    reveal_strlit("KZ");
    reveal_strlit("LA");
    reveal_strlit("LB");
    reveal_strlit("LC");
    reveal_strlit("LK");
    reveal_strlit("LR");
    reveal_strlit("LT");
    reveal_strlit("LU");
    reveal_strlit("LV");
    reveal_strlit("MD");
    reveal_strlit("MG");
    reveal_strlit("MK");
    reveal_strlit("ML");
    reveal_strlit("MN");
    reveal_strlit("MO");
    reveal_strlit("MR");
    reveal_strlit("MS");
    reveal_strlit("MT");
    reveal_strlit("MU");
    reveal_strlit("MW");
    reveal_strlit("MX");
    reveal_strlit("MY");
    reveal_strlit("MZ");
    reveal_strlit("NA");
    reveal_strlit("NE");
    reveal_strlit("NG");
    reveal_strlit("NI");
    reveal_strlit("NL");
    reveal_strlit("NP");
    reveal_strlit("NO");
    reveal_strlit("NZ");
    reveal_strlit("OM");
    reveal_strlit("PA");
    reveal_strlit("PE");
    reveal_strlit("PG");
    reveal_strlit("PH");
    reveal_strlit("PK");
    reveal_strlit("PL");
    reveal_strlit("PT");
    reveal_strlit("PW");
    reveal_strlit("PY");
    reveal_strlit("QA");
    reveal_strlit("RO");
    reveal_strlit("RU");
    reveal_strlit("SA");
    reveal_strlit("SB");
    reveal_strlit("SC");
    reveal_strlit("SE");
    reveal_strlit("SG");
    reveal_strlit("SI");
    reveal_strlit("SK");
    reveal_strlit("SL");
    reveal_strlit("SN");
    reveal_strlit("SR");
    reveal_strlit("ST");
    reveal_strlit("SV");
    reveal_strlit("SZ");
    reveal_strlit("TC");
    reveal_strlit("TD");
    reveal_strlit("TH");
    reveal_strlit("TJ");
    reveal_strlit("TM");
    reveal_strlit("TN");
    reveal_strlit("TR");
    reveal_strlit("TT");
    reveal_strlit("TW");
    reveal_strlit("TZ");
    reveal_strlit("UA");
    reveal_strlit("UG");
    reveal_strlit("US");
    reveal_strlit("UY");
    reveal_strlit("UZ");
    reveal_strlit("VC");
    reveal_strlit("VE");
    reveal_strlit("VG");
    reveal_strlit("VN");
    reveal_strlit("YE");
    reveal_strlit("ZA");
    reveal_strlit("ZW");
}

} // verus!
