//! Storing an import in the library: which release and cover an import
//! stores, the record and size of the cover, and the track tasks that
//! follow.
use vstd::prelude::*;
use std::collections::HashMap;
use crate::entity::{Image, ImageFormat, ReleaseRating, Uuid};
use crate::imports::Import;
use crate::internal::{InsertTask, TaskName};
use crate::lastfm_images::{sha256_hex, sha256_hex_of};
use crate::text::{copy_opt_string, copy_string, opt_view, to_owned_string};

verus! {

/// What a track task of an import is given: the import, the release stored,
/// the release's track, the index of the source file it comes from, and
/// the path of the stored cover, if any.
pub struct TrackData {
    pub import: Uuid,
    pub release: Uuid,
    pub track: Uuid,
    pub source: usize,
    pub cover: Option<String>,
}

/// Why an import cannot be stored.
pub enum PopulateError {
    /// No release was chosen for the import yet.
    Loading,
    /// The chosen cover is not one of the import's covers.
    MissingCover { selected: i32, count: usize },
    /// The chosen release was not matched against the import's files.
    Unmatched,
}

/// What storing an import takes: the chosen release and, where a cover was
/// chosen, its index among the import's covers.
pub struct PopulatePlan {
    pub release: Uuid,
    pub cover: Option<usize>,
}

/// Whether the chosen cover index names one of `count` covers.
pub open spec fn cover_in_range(selected: i32, count: usize) -> bool {
    0 <= selected && selected < count
}

/// What storing an import takes, checked in the order the import is
/// stored: a release must be chosen, the chosen cover must be one of the
/// import's covers, and the chosen release must have been matched.
pub fn populate_plan<R>(import: &Import<R>) -> (r: Result<PopulatePlan, PopulateError>)
    ensures
        match import.selected_release {
            None => r matches Err(PopulateError::Loading),
            Some(release) => match import.selected_cover {
                Some(i) if !cover_in_range(i, import.covers.len()) => r matches Err(PopulateError::MissingCover { selected, count })
                    && selected == i && count == import.covers.len(),
                _ => if import.release_matches@.contains_key(release) {
                    r matches Ok(p) && p.release == release && p.cover == match import.selected_cover {
                        Some(i) => Some(i as usize),
                        None => None::<usize>,
                    }
                } else {
                    r matches Err(PopulateError::Unmatched)
                },
            },
        },
{
    broadcast use vstd::std_specs::hash::group_hash_axioms;

    let release = match import.selected_release {
        Some(r) => r,
        None => {
            return Err(PopulateError::Loading);
        },
    };
    let cover = match import.selected_cover {
        Some(i) => {
            if i < 0 || i as usize >= import.covers.len() {
                return Err(PopulateError::MissingCover { selected: i, count: import.covers.len() });
            }
            Some(i as usize)
        },
        None => None,
    };
    if import.release_matches.contains_key(&release) {
        Ok(PopulatePlan { release, cover })
    } else {
        Err(PopulateError::Unmatched)
    }
}

/// Whether a track task carries the given assignment of a source file to a
/// release track, for the import, release and cover given, after the task
/// with the given id.
pub open spec fn is_track_task(
    t: InsertTask<TrackData>,
    import: Uuid,
    release: Uuid,
    source: usize,
    track: Uuid,
    cover: Option<Seq<char>>,
    task_id: Seq<char>,
) -> bool {
    &&& t.name == TaskName::ImportTrack
    &&& t.payload matches Some(d) && d.import == import && d.release == release && d.source == source && d.track == track
        && opt_view(d.cover) == cover
    &&& t.depends_on@.len() == 1
    &&& t.depends_on@[0]@ == task_id
    &&& t.duration_seconds == 120
}

/// The source file a track task is given.
pub open spec fn task_source(t: InsertTask<TrackData>) -> usize {
    t.payload->0.source
}

/// The release track a track task is given.
pub open spec fn task_track(t: InsertTask<TrackData>) -> Uuid {
    t.payload->0.track
}

/// One track task for each source file the matched release assigns to one
/// of its tracks: each waits for the task with the given id and may run
/// two minutes. The tasks come in the order the assignment is walked.
pub fn track_tasks(import: Uuid, release: Uuid, rating: &ReleaseRating, cover: &Option<String>, task_id: &String) -> (r: Vec<
    InsertTask<TrackData>,
>)
    ensures
        r@.len() == rating.assignment@.dom().len(),
        forall|i: int|
            0 <= i < r@.len() ==> {
                &&& rating.assignment@.contains_key(#[trigger] task_source(r@[i]))
                &&& is_track_task(r@[i], import, release, task_source(r@[i]), rating.assignment@[task_source(r@[i])], opt_view(*cover), task_id@)
            },
        forall|s: usize|
            #[trigger] rating.assignment@.contains_key(s) ==> exists|i: int| 0 <= i < r@.len() && #[trigger] task_source(r@[i]) == s,
{
    broadcast use vstd::std_specs::hash::group_hash_axioms;

    let mut tasks: Vec<InsertTask<TrackData>> = Vec::new();
    let ghost m = rating.assignment@;
    for entry in it: rating.assignment.iter()
        invariant
            m == rating.assignment@,
            tasks@.len() == it.index(),
            forall|s: usize|
                #[trigger] m.contains_key(s) ==> exists|j: int| 0 <= j < it.seq().len() && *(#[trigger] it.seq()[j]).0 == s,
            forall|i: int|
                #![trigger task_source(tasks@[i])]
                #![trigger it.seq()[i]]
                0 <= i < tasks@.len() ==> task_source(tasks@[i]) == *it.seq()[i].0,
            forall|i: int| 0 <= i < tasks@.len() ==> #[trigger] task_track(tasks@[i]) == *it.seq()[i].1,
            forall|i: int|
                0 <= i < tasks@.len() ==> is_track_task(
                    #[trigger] tasks@[i],
                    import,
                    release,
                    task_source(tasks@[i]),
                    task_track(tasks@[i]),
                    opt_view(*cover),
                    task_id@,
                ),
    {
        let (source, track) = entry;
        let mut depends_on: Vec<String> = Vec::new();
        depends_on.push(copy_string(task_id));
        let task = InsertTask {
            name: TaskName::ImportTrack,
            payload: Some(TrackData { import, release, track: *track, source: *source, cover: copy_opt_string(cover) }),
            depends_on,
            duration_seconds: 120,
        };
        tasks.push(task);
    }
    tasks
}

/// Whether a cover of the given size is shrunk to the largest size the
/// settings allow: where it is wider or taller than that.
pub fn needs_resize(max_width: u32, max_height: u32, width: u32, height: u32) -> (r: bool)
    ensures
        r == (max_width < width || max_height < height),
{
    max_width < width || max_height < height
}

/// The record kept of the cover of a stored release: its id is the digest
/// of the path it is stored at, it is described as the front cover, and
/// its sizes are kept as signed 32-bit numbers.
pub fn cover_image(path: String, role: String, format: ImageFormat, width: u32, height: u32, size: usize) -> (r: Image)
    ensures
        r.id@ == sha256_hex_of(path@),
        r.role == role,
        r.format == format,
        opt_view(r.description) == Some("Front Cover"@),
        r.width == width as i32,
        r.height == height as i32,
        r.size == size as i32,
        r.path == path,
{
    let id = sha256_hex(path.as_str());
    Image {
        id,
        role,
        format,
        description: Some(to_owned_string("Front Cover")),
        width: width as i32,
        height: height as i32,
        size: size as i32,
        path,
    }
}

/// The width and height of the image `image::load_from_memory` decodes from
/// the bytes, or the crate's error message.
pub uninterp spec fn decoded_size_of(bytes: Seq<u8>) -> Result<(u32, u32), Seq<char>>;

/// `image::load_from_memory`, then `width` and `height` of the image: its
/// result is named `decoded_size_of`.
#[verifier::external_body]
fn decoded_size(bytes: &[u8]) -> (r: Result<(u32, u32), String>)
    ensures
        match r {
            Ok(d) => decoded_size_of(bytes@) == Ok::<(u32, u32), Seq<char>>(d),
            Err(e) => decoded_size_of(bytes@) == Err::<(u32, u32), Seq<char>>(e@),
        },
{
    match image::load_from_memory(bytes) {
        Ok(img) => Ok((img.width(), img.height())),
        Err(e) => Err(e.to_string()),
    }
}

/// The bytes the `image` crate writes, in the given format, of the image it
/// decodes from `bytes` resized to exactly `width` by `height` with a
/// Gaussian filter; or the crate's error message.
pub uninterp spec fn resized_image_of(bytes: Seq<u8>, width: u32, height: u32, format: ImageFormat) -> Result<Seq<u8>, Seq<char>>;

/// `image::load_from_memory`, `imageops::resize` to `width` by `height`
/// with `FilterType::Gaussian`, and `DynamicImage::write_to` in the format:
/// its result is named `resized_image_of`. As the crate's source shows, an
/// image that does not decode gives the error of `load_from_memory`.
#[verifier::external_body]
fn resized_image(bytes: &[u8], width: u32, height: u32, format: ImageFormat) -> (r: Result<Vec<u8>, String>)
    ensures
        match r {
            Ok(b) => resized_image_of(bytes@, width, height, format) == Ok::<Seq<u8>, Seq<char>>(b@),
            Err(e) => resized_image_of(bytes@, width, height, format) == Err::<Seq<u8>, Seq<char>>(e@),
        },
        r is Ok ==> decoded_size_of(bytes@) is Ok,
        decoded_size_of(bytes@) is Err ==> r is Err && r->Err_0@ == decoded_size_of(bytes@)->Err_0,
{
    let target = match format {
        ImageFormat::Jpeg => image::ImageFormat::Jpeg,
        ImageFormat::Png => image::ImageFormat::Png,
        ImageFormat::Gif => image::ImageFormat::Gif,
    };
    let img = match image::load_from_memory(bytes) {
        Ok(img) => img,
        Err(e) => return Err(e.to_string()),
    };
    let resized = image::DynamicImage::ImageRgba8(image::imageops::resize(&img, width, height, image::imageops::FilterType::Gaussian));
    let mut out: Vec<u8> = Vec::new();
    match resized.write_to(&mut std::io::Cursor::new(&mut out), target) {
        Ok(()) => Ok(out),
        Err(e) => Err(e.to_string()),
    }
}

/// The bytes the `image` crate writes, in the given format, of the image it
/// decodes from `bytes`; or the crate's error message.
pub uninterp spec fn reencoded_image_of(bytes: Seq<u8>, format: ImageFormat) -> Result<Seq<u8>, Seq<char>>;

/// `image::load_from_memory` and `DynamicImage::write_to` in the format:
/// its result is named `reencoded_image_of`. As the crate's source shows,
/// an image that does not decode gives the error of `load_from_memory`.
#[verifier::external_body]
fn reencoded_image(bytes: &[u8], format: ImageFormat) -> (r: Result<Vec<u8>, String>)
    ensures
        match r {
            Ok(b) => reencoded_image_of(bytes@, format) == Ok::<Seq<u8>, Seq<char>>(b@),
            Err(e) => reencoded_image_of(bytes@, format) == Err::<Seq<u8>, Seq<char>>(e@),
        },
        r is Ok ==> decoded_size_of(bytes@) is Ok,
        decoded_size_of(bytes@) is Err ==> r is Err && r->Err_0@ == decoded_size_of(bytes@)->Err_0,
{
    let target = match format {
        ImageFormat::Jpeg => image::ImageFormat::Jpeg,
        ImageFormat::Png => image::ImageFormat::Png,
        ImageFormat::Gif => image::ImageFormat::Gif,
    };
    let img = match image::load_from_memory(bytes) {
        Ok(img) => img,
        Err(e) => return Err(e.to_string()),
    };
    let mut out: Vec<u8> = Vec::new();
    match img.write_to(&mut std::io::Cursor::new(&mut out), target) {
        Ok(()) => Ok(out),
        Err(e) => Err(e.to_string()),
    }
}

/// The width and height of a downloaded image, or why it does not decode.
pub fn image_size(bytes: &[u8]) -> (r: Result<(u32, u32), String>)
    ensures
        match r {
            Ok(d) => decoded_size_of(bytes@) == Ok::<(u32, u32), Seq<char>>(d),
            Err(e) => decoded_size_of(bytes@) == Err::<(u32, u32), Seq<char>>(e@),
        },
{
    decoded_size(bytes)
}

/// A downloaded cover as the library keeps it: shrunk to the largest size
/// the settings allow where it is wider or taller than that, written in
/// the format of the settings; with the size it has then. The error of the
/// `image` crate where it cannot read or write the cover.
pub fn prepared_cover(bytes: &[u8], max_width: u32, max_height: u32, format: ImageFormat) -> (r: Result<(Vec<u8>, (u32, u32)), String>)
    ensures
        match decoded_size_of(bytes@) {
            Err(m) => r matches Err(e) && e@ == m,
            Ok((w, h)) => if max_width < w || max_height < h {
                match resized_image_of(bytes@, max_width, max_height, format) {
                    Ok(b) => r matches Ok((out, size)) && out@ == b && size == (max_width, max_height),
                    Err(m) => r matches Err(e) && e@ == m,
                }
            } else {
                match reencoded_image_of(bytes@, format) {
                    Ok(b) => r matches Ok((out, size)) && out@ == b && size == (w, h),
                    Err(m) => r matches Err(e) && e@ == m,
                }
            },
        },
{
    let (width, height) = match decoded_size(bytes) {
        Ok(d) => d,
        Err(e) => {
            return Err(e);
        },
    };
    if needs_resize(max_width, max_height, width, height) {
        match resized_image(bytes, max_width, max_height, format) {
            Ok(out) => Ok((out, (max_width, max_height))),
            Err(e) => Err(e),
        }
    } else {
        match reencoded_image(bytes, format) {
            Ok(out) => Ok((out, (width, height))),
            Err(e) => Err(e),
        }
    }
}

} // verus!
