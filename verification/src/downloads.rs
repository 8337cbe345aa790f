//! Listing the downloads directory: a directory, the files in it and the
//! directories under it, as a document whose ids are the percent-encoded
//! paths relative to the downloads directory.
use vstd::prelude::*;
use crate::internal::{abs_path, is_relative_spec, join_spec};
use crate::api_error::Error;
use crate::internal::{DirectoryAttributes, DirectoryRelation, FileEntry, InternalResourceType, ResourceType};
use crate::jsonapi::{Document, DocumentData, Related, Relation, Relationship, Resource, ResourceIdentifier};
use crate::seqs::converted;
use crate::text::{copy_string, opt_view, to_owned_string};

verus! {

/// The extra information a directory resource can carry; directories carry
/// none.
pub struct DirectoryMeta {}

/// A directory as a resource of the internal API.
pub type DirectoryResource = Resource<ResourceType, String, DirectoryAttributes, DirectoryRelation, DirectoryMeta>;

/// An entry of a listed directory as the file system gives it: its name,
/// its path and, for a file, its size in bytes (`None` for a directory).
pub struct DownloadEntry {
    pub name: String,
    pub path: String,
    pub size: Option<u64>,
}

/// The path that joined onto `base` gives `path`, as `Path::strip_prefix`
/// finds it: `None` where `base` is not a prefix of `path`.
pub uninterp spec fn stripped_path_of(path: Seq<char>, base: Seq<char>) -> Option<Seq<char>>;

/// The final component of a path, as `Path::file_name` finds it: `None`
/// where there is none.
pub uninterp spec fn file_name_of(path: Seq<char>) -> Option<Seq<char>>;

/// The text with every character percent-encoded but ASCII letters, digits
/// and `-`, `_`, `.`, `~`, as `urlencoding::encode` writes it.
pub uninterp spec fn url_encoded_of(text: Seq<char>) -> Seq<char>;

/// Whether a character is left as it is by percent-encoding.
pub open spec fn is_unreserved(c: char) -> bool {
    ('0' <= c <= '9') || ('A' <= c <= 'Z') || ('a' <= c <= 'z') || c == '-' || c == '_' || c == '.' || c == '~'
}

/// The upper-case hexadecimal digit of a value below sixteen.
pub open spec fn hex_upper(d: int) -> char {
    if d < 10 {
        (('0' as int) + d) as char
    } else {
        (('A' as int) + d - 10) as char
    }
}

/// Percent-encoding of a text of ASCII characters: each character that is
/// not left as it is becomes `%` and the two upper-case hexadecimal digits
/// of its code.
pub open spec fn ascii_encoded(text: Seq<char>) -> Seq<char>
    decreases text.len(),
{
    if text.len() == 0 {
        Seq::empty()
    } else {
        let c = text.last();
        ascii_encoded(text.drop_last()) + if is_unreserved(c) {
            seq![c]
        } else {
            seq!['%', hex_upper((c as int) / 16), hex_upper((c as int) % 16)]
        }
    }
}

/// `Path::strip_prefix` on the two paths, with the result written as a text.
/// Its result is named `stripped_path_of`.
#[verifier::external_body]
fn strip_prefix(path: &str, base: &str) -> (r: Option<String>)
    ensures
        opt_view(r) == stripped_path_of(path@, base@),
{
    match std::path::Path::new(path).strip_prefix(base) {
        Ok(p) => Some(p.to_string_lossy().into_owned()),
        Err(_) => None,
    }
}

/// `Path::file_name` of the path, written as a text. Its result is named
/// `file_name_of`.
#[verifier::external_body]
fn file_name(path: &str) -> (r: Option<String>)
    ensures
        opt_view(r) == file_name_of(path@),
{
    match std::path::Path::new(path).file_name() {
        Some(n) => Some(n.to_string_lossy().into_owned()),
        None => None,
    }
}

/// `urlencoding::encode`: the percent-encoded text. Its result is named
/// `url_encoded_of`; for a text of ASCII characters the crate's rule is
/// stated as `ascii_encoded`.
#[verifier::external_body]
fn url_encode(text: &str) -> (r: String)
    ensures
        r@ == url_encoded_of(text@),
        (forall|i: int| 0 <= i < text@.len() ==> (text@[i] as int) < 128) ==> r@ == ascii_encoded(text@),
{
    urlencoding::encode(text).into_owned()
}

/// The name a directory is shown with: the final component of its path,
/// or `/` where there is none.
pub open spec fn shown_name(path: Seq<char>) -> Seq<char> {
    match file_name_of(path) {
        Some(n) => n,
        None => "/"@,
    }
}

/// The files among the entries that lie under `downloads`: each with its
/// name, its path relative to `downloads` and its size, in order.
pub open spec fn file_rows(entries: Seq<DownloadEntry>, downloads: Seq<char>) -> Seq<(Seq<char>, Seq<char>, u64)>
    decreases entries.len(),
{
    if entries.len() == 0 {
        Seq::empty()
    } else {
        let e = entries.last();
        let rest = file_rows(entries.drop_last(), downloads);
        match (stripped_path_of(e.path@, downloads), e.size) {
            (Some(rel), Some(size)) => rest.push((e.name@, rel, size)),
            _ => rest,
        }
    }
}

/// The directories among the entries that lie under `downloads`: each with
/// its path and its path relative to `downloads`, in order.
pub open spec fn directory_rows(entries: Seq<DownloadEntry>, downloads: Seq<char>) -> Seq<(Seq<char>, Seq<char>)>
    decreases entries.len(),
{
    if entries.len() == 0 {
        Seq::empty()
    } else {
        let e = entries.last();
        let rest = directory_rows(entries.drop_last(), downloads);
        match (stripped_path_of(e.path@, downloads), e.size) {
            (Some(rel), None) => rest.push((e.path@, rel)),
            _ => rest,
        }
    }
}

/// `f` lists the file `x`: its name, relative path and size.
pub open spec fn is_file_row(f: FileEntry, x: (Seq<char>, Seq<char>, u64)) -> bool {
    f.name@ == x.0 && f.path@ == x.1 && f.size == x.2
}

/// `d` is the directory at `path`, whose path relative to the downloads
/// directory is `rel`, with no files, relationships or extra information.
pub open spec fn is_directory_resource(d: DirectoryResource, path: Seq<char>, rel: Seq<char>) -> bool {
    &&& d.resource_type == ResourceType::Internal(InternalResourceType::Directory)
    &&& d.id@ == url_encoded_of(rel)
    &&& d.attributes.name@ == shown_name(path)
    &&& d.attributes.path@ == rel
    &&& d.attributes.files@.len() == 0
    &&& d.relationships@.len() == 0
    &&& d.meta is None
}

/// `l` points to the directory whose path relative to the downloads
/// directory is `rel`.
pub open spec fn is_directory_link(l: Related<ResourceType, DirectoryMeta>, rel: Seq<char>) -> bool {
    match l {
        Related::String(ri) => ri.resource_type == ResourceType::Internal(InternalResourceType::Directory) && ri.id@ == url_encoded_of(rel) && ri.meta is None,
        _ => false,
    }
}

fn directory_resource(path: &str, rel: String, files: Vec<FileEntry>) -> (d: DirectoryResource)
    ensures
        d.resource_type == ResourceType::Internal(InternalResourceType::Directory),
        d.id@ == url_encoded_of(rel@),
        d.attributes.name@ == shown_name(path@),
        d.attributes.path@ == rel@,
        d.attributes.files@ == files@,
        d.relationships@.len() == 0,
        d.meta is None,
{
    let name = match file_name(path) {
        Some(n) => n,
        None => {
            let root = "/";
            proof {
                reveal_strlit("/");
            }
            to_owned_string(root)
        },
    };
    Resource {
        resource_type: ResourceType::Internal(InternalResourceType::Directory),
        id: url_encode(rel.as_str()),
        attributes: DirectoryAttributes { name, path: rel, files },
        relationships: Vec::new(),
        meta: None,
    }
}

/// The listing of the directory `abs_path` under `downloads`, given the
/// entries in it: the directory, with the files in it and a relationship to
/// each directory in it, which are included. Entries that do not lie under
/// `downloads` are left out. `None` where `abs_path` itself does not lie
/// under `downloads` (the handler answers an internal error).
pub fn directory_document(downloads: &str, abs_path: &str, entries: &Vec<DownloadEntry>) -> (r: Option<Document<DirectoryResource, DirectoryResource>>)
    ensures
        match stripped_path_of(abs_path@, downloads@) {
            None => r is None,
            Some(rel) => r matches Some(doc) && doc.data matches DocumentData::Single(d) && {
                &&& d.resource_type == ResourceType::Internal(InternalResourceType::Directory)
                &&& d.id@ == url_encoded_of(rel)
                &&& d.attributes.name@ == shown_name(abs_path@)
                &&& d.attributes.path@ == rel
                &&& converted(d.attributes.files@, file_rows(entries@, downloads@), |f: FileEntry, x: (Seq<char>, Seq<char>, u64)| is_file_row(f, x))
                &&& d.relationships@.len() == 1
                &&& d.relationships@[0].0 == DirectoryRelation::Directories
                &&& d.relationships@[0].1.data matches Relation::Multi(links) && converted(links@, directory_rows(entries@, downloads@), |l: Related<ResourceType, DirectoryMeta>, x: (Seq<char>, Seq<char>)| is_directory_link(l, x.1))
                &&& d.meta is None
                &&& converted(doc.included@, directory_rows(entries@, downloads@), |e: DirectoryResource, x: (Seq<char>, Seq<char>)| is_directory_resource(e, x.0, x.1))
                &&& doc.links@.len() == 0
            },
        },
{
    let ghost file_rel = |f: FileEntry, x: (Seq<char>, Seq<char>, u64)| is_file_row(f, x);
    let ghost dir_rel = |e: DirectoryResource, x: (Seq<char>, Seq<char>)| is_directory_resource(e, x.0, x.1);
    let ghost link_rel = |l: Related<ResourceType, DirectoryMeta>, x: (Seq<char>, Seq<char>)| is_directory_link(l, x.1);
    let mut files: Vec<FileEntry> = Vec::new();
    let mut directories: Vec<DirectoryResource> = Vec::new();
    let mut links: Vec<Related<ResourceType, DirectoryMeta>> = Vec::new();
    let mut i: usize = 0;
    while i < entries.len()
        invariant
            i <= entries.len(),
            file_rel == (|f: FileEntry, x: (Seq<char>, Seq<char>, u64)| is_file_row(f, x)),
            dir_rel == (|e: DirectoryResource, x: (Seq<char>, Seq<char>)| is_directory_resource(e, x.0, x.1)),
            link_rel == (|l: Related<ResourceType, DirectoryMeta>, x: (Seq<char>, Seq<char>)| is_directory_link(l, x.1)),
            converted(files@, file_rows(entries@.take(i as int), downloads@), file_rel),
            converted(directories@, directory_rows(entries@.take(i as int), downloads@), dir_rel),
            converted(links@, directory_rows(entries@.take(i as int), downloads@), link_rel),
        decreases entries.len() - i,
    {
        let e = &entries[i];
        assert(entries@.take(i as int + 1).drop_last() =~= entries@.take(i as int));
        assert(entries@.take(i as int + 1).last() == *e);
        match strip_prefix(e.path.as_str(), downloads) {
            Some(rel) => match e.size {
                Some(size) => {
                    files.push(FileEntry { name: copy_string(&e.name), path: rel, size });
                },
                None => {
                    let d = directory_resource(e.path.as_str(), rel, Vec::new());
                    let link = Related::String(
                        ResourceIdentifier {
                            resource_type: ResourceType::Internal(InternalResourceType::Directory),
                            id: copy_string(&d.id),
                            meta: None,
                        },
                    );
                    links.push(link);
                    directories.push(d);
                },
            },
            None => {},
        }
        i = i + 1;
    }
    assert(entries@.take(entries.len() as int) =~= entries@);
    match strip_prefix(abs_path, downloads) {
        None => None,
        Some(rel) => {
            let mut relationships: Vec<(DirectoryRelation, Relationship<ResourceType, DirectoryMeta>)> = Vec::new();
            relationships.push((DirectoryRelation::Directories, Relationship { data: Relation::Multi(links) }));
            let main = directory_resource(abs_path, rel, files);
            let main = Resource { relationships, ..main };
            Some(Document { data: DocumentData::Single(main), included: directories, links: Vec::new() })
        },
    }
}

/// The text `urlencoding::decode` reads back from a percent-encoded text:
/// `None` where the decoded bytes are not UTF-8.
pub uninterp spec fn url_decoded_of(text: Seq<char>) -> Option<Seq<char>>;

/// `urlencoding::decode`: the decoded text, or `None` where the crate
/// reports that the bytes are not UTF-8. Its result is named
/// `url_decoded_of`; as its source shows, a text without `%` decodes to
/// itself, and a text `urlencoding::encode` wrote decodes to the text it
/// encoded.
#[verifier::external_body]
fn url_decode(text: &str) -> (r: Option<String>)
    ensures
        opt_view(r) == url_decoded_of(text@),
        (forall|i: int| 0 <= i < text@.len() ==> text@[i] != '%') ==> opt_view(r) == Some(text@),
        forall|t: Seq<char>| #[trigger] url_encoded_of(t) == text@ ==> opt_view(r) == Some(t),
{
    match urlencoding::decode(text) {
        Ok(s) => Some(s.into_owned()),
        Err(_) => None,
    }
}

/// The directory an import of the directory with the given id reads: the
/// id decoded is a path relative to `downloads`. `None` where the id does
/// not decode (the handler answers an internal error); a bad request where
/// the decoded path is not relative. The id a listing gives a directory
/// decodes to the directory's relative path.
pub fn import_directory(downloads: &str, directory_id: &str) -> (r: Option<Result<String, Error>>)
    ensures
        match url_decoded_of(directory_id@) {
            None => r is None,
            Some(p) => r matches Some(res) && if is_relative_spec(p) {
                res matches Ok(d) && d@ == join_spec(downloads@, p)
            } else {
                res matches Err(Error::BadRequest(Some(m))) && m@ == "Path is not relative"@
            },
        },
        forall|rel: Seq<char>|
            #[trigger] url_encoded_of(rel) == directory_id@ && is_relative_spec(rel) ==> (r matches Some(Ok(d)) && d@ == join_spec(downloads@, rel)),
{
    match url_decode(directory_id) {
        None => None,
        Some(p) => Some(abs_path(downloads, Some(p))),
    }
}

} // verus!
