//! Saving the images of a job: which image is due, under which name it is
//! written, and what the job records once it is.
//!
//! Writing a file is left to the caller. It asks for the next step, writes
//! the bytes under the name it is given, and reports where they went.

use crate::error::{BananaError, BananaErrorView};
use crate::job::{Job, JobImage, JobImageView, JobView, Timestamp, images_view};
use crate::text::{decimal, decimal_string, str_eq};
use vstd::prelude::*;
use vstd::string::StringExecFns;

verus! {

/// The error of `base64`'s decoder; the library looks at none of its parts.
#[verifier::external_type_specification]
#[verifier::external_body]
pub struct ExDecodeError(base64::DecodeError);

/// The bytes that a text stands for in standard base64 with padding, as the
/// `base64` crate's `STANDARD` engine decodes it; nothing where the engine
/// rejects the text.
pub uninterp spec fn base64_decoded(text: Seq<char>) -> Option<Seq<u8>>;

/// The text that stands for `bytes` in standard base64 with padding, as the
/// `base64` crate's `STANDARD` engine encodes them.
pub uninterp spec fn base64_encoded(bytes: Seq<u8>) -> Seq<char>;

/// Whether the base64 text of `len` bytes, four characters for every three
/// bytes begun, has a length that the machine can count.
pub open spec fn fits_base64(len: nat) -> bool {
    4 * ((len + 2) / 3) <= usize::MAX
}

/// `Engine::decode` of `base64::engine::general_purpose::STANDARD`. The
/// result depends on the text alone: the bytes it stands for, or the
/// engine's error where it stands for none.
#[verifier::external_body]
fn decode_standard(text: &str) -> (r: Result<Vec<u8>, base64::DecodeError>)
    ensures
        match r {
            Ok(bytes) => base64_decoded(text@) == Some(bytes@),
            Err(_) => base64_decoded(text@) is None,
        },
{
    base64::Engine::decode(&base64::engine::general_purpose::STANDARD, text)
}

/// `Engine::encode` of `base64::engine::general_purpose::STANDARD`. The
/// engine panics where the length of the text overflows, so such input is
/// left out. The result depends on the bytes alone.
#[verifier::external_body]
fn encode_standard(bytes: &[u8]) -> (r: String)
    requires
        fits_base64(bytes@.len()),
    ensures
        r@ == base64_encoded(bytes@),
{
    base64::Engine::encode(&base64::engine::general_purpose::STANDARD, bytes)
}

/// The file extension for a mime type: `png`, `jpg` or `webp`, and `png`
/// for any type that is not known.
pub open spec fn extension_of(mime_type: Seq<char>) -> Seq<char> {
    if mime_type == "image/png"@ {
        "png"@
    } else if mime_type == "image/jpeg"@ {
        "jpg"@
    } else if mime_type == "image/webp"@ {
        "webp"@
    } else {
        "png"@
    }
}

/// The mime type for a file extension: that of `png`, `jpg` or `jpeg`,
/// `webp` and `gif`, and that of `png` for a file without an extension or
/// with one that is not known.
pub open spec fn mime_of_extension(extension: Option<Seq<char>>) -> Seq<char> {
    match extension {
        Some(e) => if e == "png"@ {
            "image/png"@
        } else if e == "jpg"@ || e == "jpeg"@ {
            "image/jpeg"@
        } else if e == "webp"@ {
            "image/webp"@
        } else if e == "gif"@ {
            "image/gif"@
        } else {
            "image/png"@
        },
        None => "image/png"@,
    }
}

/// The name of the file that holds an image: the job's id, an underscore,
/// the image's index, a dot and the extension for its mime type.
pub open spec fn file_name_of(id: Seq<char>, index: nat, mime_type: Seq<char>) -> Seq<char> {
    id + "_"@ + decimal(index) + "."@ + extension_of(mime_type)
}

/// The position of the first image at or after `from` that waits to be
/// saved: the first that holds inline data and no place.
pub open spec fn next_pending(images: Seq<JobImageView>, from: int) -> Option<int>
    decreases images.len() - from,
{
    if from < 0 || from >= images.len() {
        None
    } else if images[from].pending() {
        Some(from)
    } else {
        next_pending(images, from + 1)
    }
}

/// What is to be done next to save the images of a job.
#[derive(Debug, PartialEq, Eq)]
pub enum DownloadStep {
    /// No image is left to save.
    Done,
    /// The image at `position` is to be written as `bytes` to a file named
    /// `file_name`.
    Write { position: usize, file_name: String, bytes: Vec<u8> },
    /// The image at `position` cannot be decoded and is passed over.
    Undecodable { position: usize, error: BananaError },
}

/// The mathematical value of a `DownloadStep`.
pub enum DownloadStepView {
    Done,
    Write { position: nat, file_name: Seq<char>, bytes: Seq<u8> },
    Undecodable { position: nat, error: BananaErrorView },
}

impl View for DownloadStep {
    type V = DownloadStepView;

    open spec fn view(&self) -> DownloadStepView {
        match self {
            DownloadStep::Done => DownloadStepView::Done,
            DownloadStep::Write { position, file_name, bytes } => DownloadStepView::Write {
                position: *position as nat,
                file_name: file_name@,
                bytes: bytes@,
            },
            DownloadStep::Undecodable { position, error } => DownloadStepView::Undecodable {
                position: *position as nat,
                error: error@,
            },
        }
    }
}

/// The step that saving the images of `job` takes next when the images
/// before `from` have been dealt with: the first image from there on that
/// holds inline data and no place is written under its file name, or passed
/// over where its data is no base64. An image that has a place is never
/// handed out.
pub open spec fn download_step(job: JobView, from: int) -> DownloadStepView {
    match next_pending(job.images, from) {
        None => DownloadStepView::Done,
        Some(i) => {
            let image = job.images[i];
            match base64_decoded(image.data->0) {
                Some(bytes) => DownloadStepView::Write {
                    position: i as nat,
                    file_name: file_name_of(job.id, image.index, image.mime_type),
                    bytes,
                },
                None => DownloadStepView::Undecodable {
                    position: i as nat,
                    error: BananaErrorView::ImageError("Failed to decode base64 image"@),
                },
            }
        },
    }
}

/// `job` once the image at `position` was saved at `path`, at time `now`:
/// the image records the place and drops its inline data. A position that
/// holds no image waiting to be saved leaves the job as it is: an image that
/// has a place keeps it.
pub open spec fn with_saved(job: JobView, position: int, path: Seq<char>, now: Timestamp) -> JobView {
    if 0 <= position < job.images.len() && job.images[position].pending() {
        JobView {
            images: job.images.update(position, job.images[position].saved(path)),
            updated_at: now,
            ..job
        }
    } else {
        job
    }
}

/// The file extension for a mime type.
pub fn extension_for(mime_type: &str) -> (r: &'static str)
    ensures
        r@ == extension_of(mime_type@),
{
    if str_eq(mime_type, "image/png") {
        "png"
    } else if str_eq(mime_type, "image/jpeg") {
        "jpg"
    } else if str_eq(mime_type, "image/webp") {
        "webp"
    } else {
        "png"
    }
}

/// The mime type for a file extension.
pub fn mime_for_extension(extension: Option<&str>) -> (r: &'static str)
    ensures
        r@ == mime_of_extension(
            match extension {
                Some(e) => Some(e@),
                None => None,
            },
        ),
{
    match extension {
        Some(e) => {
            if str_eq(e, "png") {
                "image/png"
            } else if str_eq(e, "jpg") || str_eq(e, "jpeg") {
                "image/jpeg"
            } else if str_eq(e, "webp") {
                "image/webp"
            } else if str_eq(e, "gif") {
                "image/gif"
            } else {
                "image/png"
            }
        },
        None => "image/png",
    }
}

/// The name of the file that holds the image `index` of the job `id`.
pub fn image_file_name(id: &str, index: usize, mime_type: &str) -> (r: String)
    ensures
        r@ == file_name_of(id@, index as nat, mime_type@),
{
    let mut name = String::from_str(id);
    name.append("_");
    let digits = decimal_string(index);
    name.append(digits.as_str());
    name.append(".");
    name.append(extension_for(mime_type));
    name
}

/// Whether `len` bytes can be encoded.
fn encodable(len: usize) -> (r: bool)
    ensures
        r == fits_base64(len as nat),
{
    let groups = if len % 3 == 0 {
        len / 3
    } else {
        len / 3 + 1
    };
    groups <= usize::MAX / 4
}

/// Encodes the bytes of an image file for use as a reference image and
/// names its mime type after the file's extension. Fails exactly where the
/// file is too large for its base64 text to be counted.
pub fn encode_reference_image(bytes: &[u8], extension: Option<&str>) -> (r: Result<
    (String, String),
    BananaError,
>)
    ensures
        match r {
            Ok((data, mime_type)) => fits_base64(bytes@.len()) && data@ == base64_encoded(bytes@)
                && mime_type@ == mime_of_extension(
                match extension {
                    Some(e) => Some(e@),
                    None => None,
                },
            ),
            Err(e) => !fits_base64(bytes@.len()) && e@ == BananaErrorView::ImageError(
                "Image is too large to encode"@,
            ),
        },
{
    if encodable(bytes.len()) {
        Ok((encode_standard(bytes), String::from_str(mime_for_extension(extension))))
    } else {
        Err(BananaError::ImageError(String::from_str("Image is too large to encode")))
    }
}

/// Decodes base64 image data; data that is no base64 gives an image error.
pub fn decode_image(data: &str) -> (r: Result<Vec<u8>, BananaError>)
    ensures
        match r {
            Ok(bytes) => base64_decoded(data@) == Some(bytes@),
            Err(e) => base64_decoded(data@) is None && e@ == BananaErrorView::ImageError(
                "Failed to decode base64 image"@,
            ),
        },
{
    match decode_standard(data) {
        Ok(bytes) => Ok(bytes),
        Err(_) => Err(BananaError::ImageError(String::from_str("Failed to decode base64 image"))),
    }
}

/// The position of the first image at or after `from` that waits to be
/// saved: the first that holds inline data and no place.
pub fn find_pending(images: &Vec<JobImage>, from: usize) -> (r: Option<usize>)
    ensures
        match r {
            Some(i) => next_pending(images_view(images@), from as int) == Some(i as int),
            None => next_pending(images_view(images@), from as int) is None,
        },
{
    let mut i = from;
    while i < images.len()
        invariant
            from <= i,
            next_pending(images_view(images@), from as int) == next_pending(
                images_view(images@),
                i as int,
            ),
        decreases images.len() - i,
    {
        assert(images_view(images@)[i as int] == images@[i as int]@);
        if images[i].data.is_some() && images[i].path.is_none() {
            return Some(i);
        }
        i = i + 1;
    }
    None
}

/// The step for the image at `position`, given what decoding its data
/// gave: the bytes are written under the image's file name; data that
/// could not be decoded is reported with the decoder's error.
pub open spec fn step_for_decoded(
    id: Seq<char>,
    position: nat,
    image: JobImageView,
    decoded: Result<Seq<u8>, BananaErrorView>,
) -> DownloadStepView {
    match decoded {
        Ok(bytes) => DownloadStepView::Write {
            position,
            file_name: file_name_of(id, image.index, image.mime_type),
            bytes,
        },
        Err(error) => DownloadStepView::Undecodable { position, error },
    }
}

/// The view of the outcome of decoding.
pub open spec fn decoded_view(decoded: Result<Vec<u8>, BananaError>) -> Result<
    Seq<u8>,
    BananaErrorView,
> {
    match decoded {
        Ok(bytes) => Ok(bytes@),
        Err(error) => Err(error@),
    }
}

/// The step for the image at `position` of the job `id`, given what
/// decoding its data gave.
pub fn step_for(id: &str, position: usize, image: &JobImage, decoded: Result<
    Vec<u8>,
    BananaError,
>) -> (r: DownloadStep)
    ensures
        r@ == step_for_decoded(id@, position as nat, image@, decoded_view(decoded)),
{
    match decoded {
        Ok(bytes) => DownloadStep::Write {
            position,
            file_name: image_file_name(id, image.index, image.mime_type.as_str()),
            bytes,
        },
        Err(error) => DownloadStep::Undecodable { position, error },
    }
}

/// The next step of saving the images of `job`, when the images before
/// `from` have been dealt with.
pub fn next_download(job: &Job, from: usize) -> (r: DownloadStep)
    ensures
        r@ == download_step(job@, from as int),
{
    match find_pending(&job.images, from) {
        None => DownloadStep::Done,
        Some(position) => {
            proof {
                lemma_next_pending(job@.images, from as int);
            }
            let image = &job.images[position];
            assert(job@.images[position as int] == image@);
            match &image.data {
                Some(data) => step_for(job.id.as_str(), position, image, decode_image(data.as_str())),
                None => DownloadStep::Done,
            }
        },
    }
}

/// Records that the image at `position` was saved at `path`: the image
/// keeps the place and drops its inline data. The status of the job stays.
/// A position that holds no image waiting to be saved changes nothing: an
/// image that has a place keeps it, and a position past the end is passed
/// over.
pub fn record_download(job: &mut Job, position: usize, path: String)
    ensures
        final(job)@ == with_saved(old(job)@, position as int, path@, final(job)@.updated_at),
{
    if position < job.images.len() {
        assert(job@.images[position as int] == job.images@[position as int]@);
        if job.images[position].data.is_some() && job.images[position].path.is_none() {
            let ghost before = job@.images;
            let image = JobImage {
                index: job.images[position].index,
                data: None,
                path: Some(path),
                mime_type: job.images[position].mime_type.clone(),
            };
            job.images.set(position, image);
            job.updated_at = Timestamp::now();
            assert(job@.images =~= before.update(position as int, before[position as int].saved(path@)));
        }
    }
}

/// What `next_pending` finds is a position from `from` on that holds an
/// image waiting to be saved, with none such between `from` and it; where
/// it finds nothing, no image from `from` on waits.
pub proof fn lemma_next_pending(images: Seq<JobImageView>, from: int)
    requires
        0 <= from,
    ensures
        match next_pending(images, from) {
            Some(i) => from <= i < images.len() && images[i].pending() && forall|k: int|
                from <= k < i ==> !(#[trigger] images[k]).pending(),
            None => forall|k: int| from <= k < images.len() ==> !(#[trigger] images[k]).pending(),
        },
    decreases images.len() - from,
{
    if from < images.len() && !images[from].pending() {
        lemma_next_pending(images, from + 1);
    }
}

/// An image that was saved is never due again.
pub proof fn lemma_saved_is_not_due(
    job: JobView,
    position: int,
    path: Seq<char>,
    now: Timestamp,
    from: int,
)
    requires
        0 <= from,
        0 <= position < job.images.len(),
        job.images[position].pending(),
    ensures
        next_pending(with_saved(job, position, path, now).images, from) != Some(position),
        with_saved(job, position, path, now).images[position].path == Some(path),
        with_saved(job, position, path, now).images[position].data is None,
        with_saved(job, position, path, now).status == job.status,
{
    lemma_next_pending(with_saved(job, position, path, now).images, from);
}

/// Saving an image touches no other image.
pub proof fn lemma_saving_leaves_the_rest(
    job: JobView,
    position: int,
    path: Seq<char>,
    now: Timestamp,
    other: int,
)
    requires
        0 <= other < job.images.len(),
        other != position,
    ensures
        with_saved(job, position, path, now).images.len() == job.images.len(),
        with_saved(job, position, path, now).images[other] == job.images[other],
{
}

/// Recording a place for an image that is already saved changes nothing:
/// the place recorded first stays.
pub proof fn lemma_saving_twice_is_saving_once(
    job: JobView,
    position: int,
    first: Seq<char>,
    second: Seq<char>,
    earlier: Timestamp,
    later: Timestamp,
)
    ensures
        with_saved(with_saved(job, position, first, earlier), position, second, later)
            == with_saved(job, position, first, earlier),
{
}

/// Once no image of a job waits to be saved, saving its images has nothing
/// to do, wherever it starts: no file is written a second time.
pub proof fn lemma_nothing_left_to_save(job: JobView, from: int)
    requires
        0 <= from,
        forall|i: int| 0 <= i < job.images.len() ==> !(#[trigger] job.images[i]).pending(),
    ensures
        download_step(job, from) == DownloadStepView::Done,
{
    lemma_next_pending(job.images, from);
}

/// Where and when an image was written, for each position at which
/// writing succeeds.
pub type Places = Map<int, (Seq<char>, Timestamp)>;

/// Whether the image at `position` can be saved: it has no place yet and
/// holds inline data that is base64, and writing it succeeds.
pub open spec fn saveable(job: JobView, places: Places, position: int) -> bool {
    &&& job.images[position].pending()
    &&& base64_decoded(job.images[position].data->0) is Some
    &&& places.dom().contains(position)
}

/// The job after one pass over its images from position `from` on: every
/// image that can be saved is recorded at its place, every other is left as
/// it is.
pub open spec fn after_saving(job: JobView, places: Places, from: int) -> JobView
    decreases job.images.len() - from,
{
    match next_pending(job.images, from) {
        None => job,
        Some(i) => if from <= i < job.images.len() {
            if saveable(job, places, i) {
                after_saving(with_saved(job, i, places[i].0, places[i].1), places, i + 1)
            } else {
                after_saving(job, places, i + 1)
            }
        } else {
            job
        },
    }
}

/// A pass over the images changes nothing but the images that can be
/// saved: each of them records its place and drops its data; every other
/// image, the number of images and the status of the job stay.
pub proof fn lemma_saving_touches_the_saveable_only(job: JobView, places: Places, from: int)
    requires
        0 <= from,
    ensures
        after_saving(job, places, from).images.len() == job.images.len(),
        after_saving(job, places, from).status == job.status,
        after_saving(job, places, from).id == job.id,
        forall|k: int|
            0 <= k < job.images.len() ==> (#[trigger] after_saving(job, places, from).images[k])
                == if from <= k && saveable(job, places, k) {
                job.images[k].saved(places[k].0)
            } else {
                job.images[k]
            },
    decreases job.images.len() - from,
{
    lemma_next_pending(job.images, from);
    match next_pending(job.images, from) {
        None => {},
        Some(i) => {
            if saveable(job, places, i) {
                let next = with_saved(job, i, places[i].0, places[i].1);
                lemma_saving_touches_the_saveable_only(next, places, i + 1);
                assert forall|k: int| 0 <= k < job.images.len() implies (#[trigger] after_saving(
                    job,
                    places,
                    from,
                ).images[k]) == if from <= k && saveable(job, places, k) {
                    job.images[k].saved(places[k].0)
                } else {
                    job.images[k]
                } by {
                    if k != i {
                        assert(next.images[k] == job.images[k]);
                    }
                }
            } else {
                lemma_saving_touches_the_saveable_only(job, places, i + 1);
            }
        },
    }
}

/// A pass over a job of which no image can be saved leaves the job as it
/// is.
pub proof fn lemma_nothing_saveable(job: JobView, places: Places, from: int)
    requires
        0 <= from,
        forall|k: int| from <= k < job.images.len() ==> !saveable(job, places, k),
    ensures
        after_saving(job, places, from) == job,
    decreases job.images.len() - from,
{
    lemma_next_pending(job.images, from);
    match next_pending(job.images, from) {
        None => {},
        Some(i) => {
            lemma_nothing_saveable(job, places, i + 1);
        },
    }
}

/// Saving the images of a job twice leaves the job as saving them once
/// does: what the first pass saved is not due in the second, so no place
/// changes and no file is written again.
pub proof fn lemma_saving_is_idempotent(job: JobView, places: Places)
    ensures
        after_saving(after_saving(job, places, 0), places, 0) == after_saving(job, places, 0),
        forall|k: int|
            0 <= k < job.images.len() && saveable(job, places, k) ==> !saveable(
                after_saving(job, places, 0),
                places,
                k,
            ),
{
    let once = after_saving(job, places, 0);
    lemma_saving_touches_the_saveable_only(job, places, 0);
    assert forall|k: int| 0 <= k < once.images.len() implies !saveable(once, places, k) by {
        assert(once.images[k] == if saveable(job, places, k) {
            job.images[k].saved(places[k].0)
        } else {
            job.images[k]
        });
    }
    lemma_nothing_saveable(once, places, 0);
}

/// An image that has a place is left untouched, whether or not it still
/// holds inline data: it is never handed out to be written, recording a
/// place for it changes nothing, and a pass over the images leaves it as it
/// is.
pub proof fn lemma_placed_image_is_untouched(
    job: JobView,
    position: int,
    path: Seq<char>,
    now: Timestamp,
    places: Places,
    from: int,
)
    requires
        0 <= from,
        0 <= position < job.images.len(),
        job.images[position].path is Some,
    ensures
        next_pending(job.images, from) != Some(position),
        !(download_step(job, from) matches DownloadStepView::Write { position: p, .. } && p
            == position),
        !(download_step(job, from) matches DownloadStepView::Undecodable { position: p, .. } && p
            == position),
        with_saved(job, position, path, now) == job,
        after_saving(job, places, from).images[position] == job.images[position],
{
    lemma_next_pending(job.images, from);
    lemma_saving_touches_the_saveable_only(job, places, from);
}

} // verus!
