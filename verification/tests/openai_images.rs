use llmprism::error::Error;
use llmprism::images::ImagesRequest;
use llmprism::providers::openai::images::{build_request, parse_response, ApiImage, ApiResponse};
use llmprism::value_objects::MediaData;

#[test]
fn build_request_passes_quality_and_style_through() {
    let mut request = ImagesRequest::new("dall-e-3", "a lighthouse");
    request.quality = Some("hd".to_string());
    request.style = Some("vivid".to_string());

    let wire_request = build_request(&request);

    assert_eq!(wire_request.quality.as_deref(), Some("hd"));
    assert_eq!(wire_request.style.as_deref(), Some("vivid"));
}

#[test]
fn an_image_prefers_its_url_over_base64() {
    let response = ApiResponse {
        data: vec![
            ApiImage { url: Some("https://x/1.png".to_string()), b64_json: Some("AAAA".to_string()), revised_prompt: None },
            ApiImage { url: None, b64_json: Some("BBBB".to_string()), revised_prompt: Some("a tall lighthouse".to_string()) },
        ],
    };

    let parsed = parse_response(response, "openai").unwrap();

    assert_eq!(parsed.images.len(), 2);
    assert!(matches!(&parsed.images[0].data, MediaData::Url(u) if u == "https://x/1.png"));
    assert!(matches!(&parsed.images[1].data, MediaData::Base64(d) if d == "BBBB"));
    assert_eq!(parsed.images[1].revised_prompt.as_deref(), Some("a tall lighthouse"));
}

#[test]
fn an_image_with_no_data_is_a_decode_error() {
    let response = ApiResponse {
        data: vec![ApiImage { url: None, b64_json: None, revised_prompt: None }],
    };

    let err = parse_response(response, "openai").unwrap_err();

    assert!(matches!(err, Error::Decode { ref provider, ref message }
        if provider == "openai" && message == "image result had neither a url nor base64 data"));
}
