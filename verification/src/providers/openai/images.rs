//! OpenAI's Images API (`POST /v1/images/generations`): wire format and
//! mapping. No `response_format` is requested: newer models always return
//! base64 data while older ones return a URL, and [`parse_response`] takes
//! whichever comes back.

use vstd::prelude::*;

use crate::error::Error;
use crate::images::{GeneratedImage, ImagesRequest, ImagesResponse};
use crate::schema::owned;
use crate::value_objects::{copy_opt, MediaData, Meta};

verus! {

/// An image generation request.
#[derive(Debug)]
pub struct ApiRequest {
    pub model: String,
    pub prompt: String,
    pub n: Option<u32>,
    pub size: Option<String>,
    pub quality: Option<String>,
    pub style: Option<String>,
}

/// An image generation response.
#[derive(Debug)]
pub struct ApiResponse {
    pub data: Vec<ApiImage>,
}

/// One generated image: a URL or base64 bytes.
#[derive(Debug)]
pub struct ApiImage {
    pub url: Option<String>,
    pub b64_json: Option<String>,
    pub revised_prompt: Option<String>,
}

/// Builds the image generation request; every setting passes through.
pub fn build_request(request: &ImagesRequest) -> (r: ApiRequest)
    ensures
        r.model@ == request.model@,
        r.prompt@ == request.prompt@,
        r.n == request.n,
        r.size == request.size,
        r.quality == request.quality,
        r.style == request.style,
{
    ApiRequest {
        model: request.model.clone(),
        prompt: request.prompt.clone(),
        n: request.n,
        size: copy_opt(&request.size),
        quality: copy_opt(&request.quality),
        style: copy_opt(&request.style),
    }
}

/// Whether `g` is the image `a` stands for: its URL when it has one,
/// otherwise its base64 bytes.
pub open spec fn image_of(a: ApiImage, g: GeneratedImage) -> bool {
    &&& g.revised_prompt == a.revised_prompt
    &&& match a.url {
        Some(u) => g.data == MediaData::Url(u),
        None => match a.b64_json {
            Some(b) => g.data == MediaData::Base64(b),
            None => false,
        },
    }
}

/// Whether an image has neither a URL nor base64 bytes.
pub open spec fn is_empty_image(a: ApiImage) -> bool {
    a.url is None && a.b64_json is None
}

/// Whether every image has a URL or base64 bytes.
pub open spec fn all_have_data(images: Seq<ApiImage>) -> bool {
    forall|i: int| 0 <= i < images.len() ==> !is_empty_image(#[trigger] images[i])
}

/// Turns an image generation response into an [`ImagesResponse`]. An image
/// with neither a URL nor base64 bytes is an [`Error::Decode`].
pub fn parse_response(response: ApiResponse, provider_name: &str) -> (r: Result<
    ImagesResponse,
    Error,
>)
    ensures
        !all_have_data(response.data@) ==> (r matches Err(
            Error::Decode { provider, message },
        ) && provider@ == provider_name@ && message@
            == "image result had neither a url nor base64 data"@),
        all_have_data(response.data@) ==> (r matches Ok(resp)
            && resp.images@.len() == response.data@.len() && (forall|i: int|
            0 <= i < resp.images@.len() ==> image_of(response.data@[i], #[trigger] resp.images@[i]))
            && resp.meta.id is None && resp.meta.model is None && resp.meta.rate_limits@.len()
            == 0),
{
    let ghost all = response.data@;
    let mut rest = response.data;
    let n = rest.len();
    let mut images: Vec<GeneratedImage> = Vec::new();
    let mut i: usize = 0;
    while i < n
        invariant
            n == all.len(),
            all == response.data@,
            i <= n,
            rest@ == all.subrange(i as int, n as int),
            images@.len() == i,
            forall|j: int| 0 <= j < i ==> !is_empty_image(all[j]),
            forall|j: int| 0 <= j < i ==> image_of(all[j], #[trigger] images@[j]),
        decreases n - i,
    {
        let image = rest.remove(0);
        assert(image == all[i as int]);
        let ApiImage { url, b64_json, revised_prompt } = image;
        let data = match url {
            Some(u) => MediaData::Url(u),
            None => match b64_json {
                Some(b) => MediaData::Base64(b),
                None => {
                    assert(!all_have_data(all)) by {
                        assert(is_empty_image(all[i as int]));
                    }
                    return Err(
                        Error::Decode {
                            provider: owned(provider_name),
                            message: owned("image result had neither a url nor base64 data"),
                        },
                    );
                },
            },
        };
        images.push(GeneratedImage { data, revised_prompt });
        i = i + 1;
        assert(rest@ =~= all.subrange(i as int, n as int));
    }
    Ok(ImagesResponse { images, meta: Meta::empty() })
}

} // verus!
