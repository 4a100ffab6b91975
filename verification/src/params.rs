//! The parameters of one generation request.

use crate::text::{clone_opt, opt_view};
use vstd::prelude::*;
use vstd::string::StringExecFns;

verus! {

/// The fewest images one request may ask for.
pub const MIN_IMAGES: u8 = 1;

/// The most images one request may ask for.
pub const MAX_IMAGES: u8 = 4;

/// Parameters for image generation.
#[derive(Debug)]
pub struct GenerateParams {
    /// The prompt for image generation.
    pub prompt: String,
    /// Aspect ratio, such as `1:1`, `16:9` or `9:16`.
    pub aspect_ratio: String,
    /// Image size: `1K`, `2K` or `4K`.
    pub size: String,
    /// Model to use.
    pub model: String,
    /// Number of images to generate, from one to four.
    pub num_images: u8,
    /// Optional seed for reproducibility.
    pub seed: Option<i64>,
    /// Optional negative prompt: what to avoid.
    pub negative_prompt: Option<String>,
    /// Reference image for editing, base64 encoded.
    pub reference_image: Option<String>,
    /// Mime type of the reference image.
    pub reference_mime_type: Option<String>,
}

/// The mathematical value of a `GenerateParams`.
pub struct GenerateParamsView {
    pub prompt: Seq<char>,
    pub aspect_ratio: Seq<char>,
    pub size: Seq<char>,
    pub model: Seq<char>,
    pub num_images: u8,
    pub seed: Option<i64>,
    pub negative_prompt: Option<Seq<char>>,
    pub reference_image: Option<Seq<char>>,
    pub reference_mime_type: Option<Seq<char>>,
}

impl GenerateParamsView {
    /// The parameters a request starts from: the given prompt and every
    /// other field at its default.
    pub open spec fn initial(prompt: Seq<char>) -> GenerateParamsView {
        GenerateParamsView {
            prompt,
            aspect_ratio: "1:1"@,
            size: "1K"@,
            model: "gemini-3-pro-image-preview"@,
            num_images: 1,
            seed: None,
            negative_prompt: None,
            reference_image: None,
            reference_mime_type: None,
        }
    }

    /// Whether the request edits a reference image.
    pub open spec fn is_edit(self) -> bool {
        self.reference_image is Some
    }
}

/// `num` brought into the range of image counts a request may ask for.
pub open spec fn clamped_images(num: u8) -> u8 {
    if num < MIN_IMAGES {
        MIN_IMAGES
    } else if num > MAX_IMAGES {
        MAX_IMAGES
    } else {
        num
    }
}

impl View for GenerateParams {
    type V = GenerateParamsView;

    open spec fn view(&self) -> GenerateParamsView {
        GenerateParamsView {
            prompt: self.prompt@,
            aspect_ratio: self.aspect_ratio@,
            size: self.size@,
            model: self.model@,
            num_images: self.num_images,
            seed: self.seed,
            negative_prompt: opt_view(self.negative_prompt),
            reference_image: opt_view(self.reference_image),
            reference_mime_type: opt_view(self.reference_mime_type),
        }
    }
}

impl Clone for GenerateParams {
    fn clone(&self) -> (r: Self)
        ensures
            r@ == self@,
    {
        GenerateParams {
            prompt: self.prompt.clone(),
            aspect_ratio: self.aspect_ratio.clone(),
            size: self.size.clone(),
            model: self.model.clone(),
            num_images: self.num_images,
            seed: self.seed,
            negative_prompt: clone_opt(&self.negative_prompt),
            reference_image: clone_opt(&self.reference_image),
            reference_mime_type: clone_opt(&self.reference_mime_type),
        }
    }
}

pub(crate) fn default_aspect_ratio() -> (r: String)
    ensures
        r@ == "1:1"@,
{
    String::from_str("1:1")
}

pub(crate) fn default_size() -> (r: String)
    ensures
        r@ == "1K"@,
{
    String::from_str("1K")
}

pub(crate) fn default_model() -> (r: String)
    ensures
        r@ == "gemini-3-pro-image-preview"@,
{
    String::from_str("gemini-3-pro-image-preview")
}

pub(crate) fn default_num_images() -> (r: u8)
    ensures
        r == 1,
{
    1
}

impl Default for GenerateParams {
    fn default() -> (r: Self)
        ensures
            r@ == GenerateParamsView::initial(Seq::empty()),
    {
        GenerateParams {
            prompt: String::new(),
            aspect_ratio: default_aspect_ratio(),
            size: default_size(),
            model: default_model(),
            num_images: default_num_images(),
            seed: None,
            negative_prompt: None,
            reference_image: None,
            reference_mime_type: None,
        }
    }
}

impl GenerateParams {
    /// Parameters for `prompt`, every other field at its default.
    pub fn new(prompt: &str) -> (r: Self)
        ensures
            r@ == GenerateParamsView::initial(prompt@),
    {
        GenerateParams {
            prompt: String::from_str(prompt),
            aspect_ratio: default_aspect_ratio(),
            size: default_size(),
            model: default_model(),
            num_images: default_num_images(),
            seed: None,
            negative_prompt: None,
            reference_image: None,
            reference_mime_type: None,
        }
    }

    /// Replaces the aspect ratio.
    pub fn with_aspect_ratio(self, ar: &str) -> (r: Self)
        ensures
            r@ == (GenerateParamsView { aspect_ratio: ar@, ..self@ }),
    {
        let mut p = self;
        p.aspect_ratio = String::from_str(ar);
        p
    }

    /// Replaces the size.
    pub fn with_size(self, size: &str) -> (r: Self)
        ensures
            r@ == (GenerateParamsView { size: size@, ..self@ }),
    {
        let mut p = self;
        p.size = String::from_str(size);
        p
    }

    /// Replaces the model.
    pub fn with_model(self, model: &str) -> (r: Self)
        ensures
            r@ == (GenerateParamsView { model: model@, ..self@ }),
    {
        let mut p = self;
        p.model = String::from_str(model);
        p
    }

    /// Sets the number of images, brought into the range from one to four.
    pub fn with_num_images(self, num: u8) -> (r: Self)
        ensures
            r@ == (GenerateParamsView { num_images: clamped_images(num), ..self@ }),
    {
        let mut p = self;
        p.num_images = if num < MIN_IMAGES {
            MIN_IMAGES
        } else if num > MAX_IMAGES {
            MAX_IMAGES
        } else {
            num
        };
        p
    }

    /// Sets the seed.
    pub fn with_seed(self, seed: i64) -> (r: Self)
        ensures
            r@ == (GenerateParamsView { seed: Some(seed), ..self@ }),
    {
        let mut p = self;
        p.seed = Some(seed);
        p
    }

    /// Sets the negative prompt.
    pub fn with_negative_prompt(self, neg: &str) -> (r: Self)
        ensures
            r@ == (GenerateParamsView { negative_prompt: Some(neg@), ..self@ }),
    {
        let mut p = self;
        p.negative_prompt = Some(String::from_str(neg));
        p
    }

    /// Attaches a reference image, which makes the request an edit.
    pub fn with_reference_image(self, base64_data: String, mime_type: String) -> (r: Self)
        ensures
            r@ == (GenerateParamsView {
                reference_image: Some(base64_data@),
                reference_mime_type: Some(mime_type@),
                ..self@
            }),
    {
        let mut p = self;
        p.reference_image = Some(base64_data);
        p.reference_mime_type = Some(mime_type);
        p
    }

    /// Whether this is an edit request, that is, has a reference image.
    pub fn is_edit(&self) -> (r: bool)
        ensures
            r == self@.is_edit(),
    {
        self.reference_image.is_some()
    }
}

} // verus!
