//! Image generation.

use vstd::prelude::*;

use crate::json::JsonValue;
use crate::schema::owned;
use crate::value_objects::{MediaData, Meta};

verus! {

/// A request to generate images from a prompt.
#[derive(Debug)]
pub struct ImagesRequest {
    pub model: String,
    pub prompt: String,
    /// How many images to generate.
    pub n: Option<u32>,
    /// The image size, in the provider's own format (e.g. `"1024x1024"`).
    pub size: Option<String>,
    /// The image quality, in the provider's own format (e.g. `"hd"`).
    pub quality: Option<String>,
    /// The image style, in the provider's own format (e.g. `"vivid"`).
    pub style: Option<String>,
    /// Extra provider-specific fields; only a JSON object has an effect.
    pub provider_options: JsonValue,
}

impl ImagesRequest {
    /// A request targeting `model` for `prompt`, every option left at the
    /// provider's default.
    pub fn new(model: &str, prompt: &str) -> (r: ImagesRequest)
        ensures
            r.model@ == model@,
            r.prompt@ == prompt@,
            r.n is None,
            r.size is None,
            r.quality is None,
            r.style is None,
            r.provider_options is Null,
    {
        ImagesRequest {
            model: owned(model),
            prompt: owned(prompt),
            n: None,
            size: None,
            quality: None,
            style: None,
            provider_options: JsonValue::Null,
        }
    }
}

/// The generated images.
#[derive(Debug)]
pub struct ImagesResponse {
    pub images: Vec<GeneratedImage>,
    pub meta: Meta,
}

/// One generated image.
#[derive(Debug)]
pub struct GeneratedImage {
    /// Where the image is: a URL, or its base64 bytes.
    pub data: MediaData,
    /// The prompt as the provider rewrote it, when it did.
    pub revised_prompt: Option<String>,
}

} // verus!
