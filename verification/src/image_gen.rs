//! Image generation: the providers, the requests and results, the choice
//! of provider, the results of the providers that only stand in, the
//! DALL-E image size, the decoding of a returned image, and the report.
//! Calling the image services and writing files happen at the caller.

use vstd::prelude::*;
use base64::Engine;
use crate::text::{decimal, opt_view, owned, push_str, str_eq, u64_to_decimal};

verus! {

/// Who makes the image.
#[derive(Clone, Copy, Debug, PartialEq, Eq, Structural)]
pub enum ImageProvider {
    OpenAI,
    StabilityAI,
    Replicate,
    Local,
}

/// The parts of an image request the library reads. The guidance scale,
/// a float, stays with the caller.
pub struct ImageRequest {
    pub prompt: String,
    pub negative_prompt: Option<String>,
    pub width: u32,
    pub height: u32,
    pub steps: Option<u32>,
    pub seed: Option<u64>,
    pub model: Option<String>,
    pub provider: Option<String>,
}

impl Default for ImageRequest {
    /// An empty prompt at 1024x1024 in 30 steps.
    fn default() -> (r: Self)
        ensures
            r.prompt@.len() == 0,
            r.negative_prompt is None,
            r.width == 1024 && r.height == 1024,
            r.steps == Some(30u32),
            r.seed is None && r.model is None && r.provider is None,
    {
        ImageRequest {
            prompt: String::new(),
            negative_prompt: None,
            width: 1024,
            height: 1024,
            steps: Some(30),
            seed: None,
            model: None,
            provider: None,
        }
    }
}

/// What a generation gave.
pub struct ImageResult {
    pub success: bool,
    pub image_path: Option<String>,
    pub image_url: Option<String>,
    pub base64: Option<String>,
    pub prompt: String,
    pub model: String,
    pub generation_time_ms: u64,
    pub seed: Option<u64>,
    pub error: Option<String>,
}

/// The client of the image services.
pub struct ImageGenerator {
    api_key: Option<String>,
    base_url: Option<String>,
}

/// The provider a request names: OpenAI unless it names Stability,
/// Replicate or a local model.
pub open spec fn provider_named(p: Option<Seq<char>>) -> ImageProvider {
    match p {
        None => ImageProvider::OpenAI,
        Some(n) => if n == "stability"@ || n == "stabilityai"@ {
            ImageProvider::StabilityAI
        } else if n == "replicate"@ {
            ImageProvider::Replicate
        } else if n == "local"@ {
            ImageProvider::Local
        } else {
            ImageProvider::OpenAI
        },
    }
}

/// The provider that serves a request.
pub fn provider_for(provider: &Option<String>) -> (r: ImageProvider)
    ensures
        r == provider_named(opt_view(*provider)),
{
    match provider {
        None => ImageProvider::OpenAI,
        Some(n) => {
            let n = n.as_str();
            if str_eq(n, "stability") || str_eq(n, "stabilityai") {
                ImageProvider::StabilityAI
            } else if str_eq(n, "replicate") {
                ImageProvider::Replicate
            } else if str_eq(n, "local") {
                ImageProvider::Local
            } else {
                ImageProvider::OpenAI
            }
        },
    }
}

impl ImageGenerator {
    /// A client with this key and address.
    pub fn new(api_key: Option<String>, base_url: Option<String>) -> (r: Self)
        ensures
            r.key_spec() == api_key && r.base_url_spec() == base_url,
    {
        ImageGenerator { api_key, base_url }
    }

    /// Its API key.
    pub closed spec fn key_spec(&self) -> Option<String> {
        self.api_key
    }

    /// Its service address.
    pub closed spec fn base_url_spec(&self) -> Option<String> {
        self.base_url
    }

    /// The key DALL-E is called with, or the error when there is none.
    pub fn dalle_key(&self) -> (r: Result<String, String>)
        ensures
            match self.key_spec() {
                Some(k) => r == Ok::<String, String>(k),
                None => r matches Err(e) && e@ == "OpenAI API key required for DALL-E"@,
            },
    {
        match &self.api_key {
            Some(k) => Ok(k.clone()),
            None => Err(owned("OpenAI API key required for DALL-E")),
        }
    }

    /// The image that `base64_data` holds, or why it cannot be read.
    pub fn decode_image(&self, base64_data: &str) -> (r: Result<Vec<u8>, String>)
        ensures
            match r {
                Ok(v) => standard_base64_decoded(base64_data@) == Some(v@),
                Err(_) => standard_base64_decoded(base64_data@) is None,
            },
    {
        match decode_standard_base64(base64_data) {
            Ok(v) => Ok(v),
            Err(e) => Err(decode_error_message(&e)),
        }
    }
}

/// The DALL-E image size, `WIDTHxHEIGHT`.
pub fn dalle_size(width: u32, height: u32) -> (r: String)
    ensures
        r@ == decimal(width as nat) + "x"@ + decimal(height as nat),
{
    let mut s = u64_to_decimal(width as u64);
    push_str(&mut s, "x");
    let h = u64_to_decimal(height as u64);
    push_str(&mut s, h.as_str());
    s
}

/// The model a provider's result names.
pub open spec fn provider_model(p: ImageProvider) -> Seq<char> {
    match p {
        ImageProvider::OpenAI => "dall-e-3"@,
        ImageProvider::StabilityAI => "stable-diffusion-xl"@,
        ImageProvider::Replicate => "stability-ai/sdxl"@,
        ImageProvider::Local => "local"@,
    }
}

/// The result of a provider that only stands in: Stability and Replicate
/// succeed with no image, a local model is not configured. DALL-E is
/// called for real, so it has none.
pub fn stand_in_result(provider: ImageProvider, request: &ImageRequest) -> (r: Option<ImageResult>)
    ensures
        provider == ImageProvider::OpenAI ==> r is None,
        provider != ImageProvider::OpenAI ==> (r matches Some(res) && res.success == (provider
            != ImageProvider::Local) && res.image_path is None && res.image_url is None && res.base64 is None
            && res.prompt@ == request.prompt@ && res.model@ == provider_model(provider)
            && res.generation_time_ms == 0 && res.seed == request.seed && (if provider == ImageProvider::Local {
            res.error matches Some(e) && e@ == "Local model not configured"@
        } else {
            res.error is None
        })),
{
    let (model, error): (&str, Option<String>) = match provider {
        ImageProvider::OpenAI => {
            return None;
        },
        ImageProvider::StabilityAI => ("stable-diffusion-xl", None),
        ImageProvider::Replicate => ("stability-ai/sdxl", None),
        ImageProvider::Local => ("local", Some(owned("Local model not configured"))),
    };
    Some(
        ImageResult {
            success: provider != ImageProvider::Local,
            image_path: None,
            image_url: None,
            base64: None,
            prompt: owned(request.prompt.as_str()),
            model: owned(model),
            generation_time_ms: 0,
            seed: request.seed,
            error,
        },
    )
}

/// The result of a DALL-E call: when the service refused, its answer as
/// the error; else the image it returned, as base64 and address where
/// given.
pub fn dalle_result(
    request: &ImageRequest,
    accepted: bool,
    error_text: String,
    b64: Option<String>,
    url: Option<String>,
) -> (r: ImageResult)
    ensures
        r.success == accepted,
        r.prompt@ == request.prompt@,
        r.model@ == "dall-e-3"@,
        r.seed == request.seed,
        r.generation_time_ms == 0,
        r.image_path is None,
        accepted ==> r.base64 == b64 && r.image_url == url && r.error is None,
        !accepted ==> r.base64 is None && r.image_url is None && r.error == Some(error_text),
{
    if accepted {
        ImageResult {
            success: true,
            image_path: None,
            image_url: url,
            base64: b64,
            prompt: owned(request.prompt.as_str()),
            model: owned("dall-e-3"),
            generation_time_ms: 0,
            seed: request.seed,
            error: None,
        }
    } else {
        ImageResult {
            success: false,
            image_path: None,
            image_url: None,
            base64: None,
            prompt: owned(request.prompt.as_str()),
            model: owned("dall-e-3"),
            generation_time_ms: 0,
            seed: request.seed,
            error: Some(error_text),
        }
    }
}

/// The bytes that standard base64 text decodes to, or `None` when it is
/// not valid standard base64.
pub uninterp spec fn standard_base64_decoded(text: Seq<char>) -> Option<Seq<u8>>;

/// The error of a base64 decoding.
#[verifier::external_type_specification]
#[verifier::external_body]
pub struct ExDecodeError(base64::DecodeError);

/// `base64::engine::general_purpose::STANDARD.decode(text)`: the bytes of
/// standard base64 text with padding, or the error that makes it invalid.
#[verifier::external_body]
fn decode_standard_base64(text: &str) -> (r: Result<Vec<u8>, base64::DecodeError>)
    ensures
        match r {
            Ok(v) => standard_base64_decoded(text@) == Some(v@),
            Err(_) => standard_base64_decoded(text@) is None,
        },
{
    base64::engine::general_purpose::STANDARD.decode(text)
}

/// The message of a base64 decoding error (its `Display`).
#[verifier::external_body]
fn decode_error_message(e: &base64::DecodeError) -> (r: String)
{
    e.to_string()
}

/// The report of an image generation.
pub open spec fn image_report(r: ImageResult) -> Seq<char> {
    "## Image Generation Result\n\n- **Status:** "@ + (if r.success {
        "Success"@
    } else {
        "Failed"@
    }) + "\n- **Model:** "@ + r.model@ + "\n- **Prompt:** "@ + r.prompt@ + "\n- **Generation Time:** "@
        + decimal(r.generation_time_ms as nat) + "ms\n"@ + (match r.seed {
        Some(s) => "- **Seed:** "@ + decimal(s as nat) + "\n"@,
        None => Seq::empty(),
    }) + (match r.image_url {
        Some(u) => "\n**Image URL:** "@ + u@ + "\n"@,
        None => Seq::empty(),
    }) + (match r.image_path {
        Some(p) => "\n**Saved to:** "@ + p@ + "\n"@,
        None => Seq::empty(),
    }) + (match r.error {
        Some(e) => "\n**Error:** "@ + e@ + "\n"@,
        None => Seq::empty(),
    })
}

fn push_labelled(md: &mut String, label: &str, v: &Option<String>)
    ensures
        final(md)@ == old(md)@ + (match *v {
            Some(t) => label@ + t@ + "\n"@,
            None => Seq::empty(),
        }),
{
    match v {
        Some(t) => {
            push_str(md, label);
            push_str(md, t.as_str());
            push_str(md, "\n");
        },
        None => {
            assert(md@ =~= md@ + Seq::<char>::empty());
        },
    }
}

/// The result as a Markdown report.
pub fn format_image_result(result: &ImageResult) -> (r: String)
    ensures
        r@ == image_report(*result),
{
    let mut md = owned("## Image Generation Result\n\n- **Status:** ");
    push_str(&mut md, if result.success { "Success" } else { "Failed" });
    push_str(&mut md, "\n- **Model:** ");
    push_str(&mut md, result.model.as_str());
    push_str(&mut md, "\n- **Prompt:** ");
    push_str(&mut md, result.prompt.as_str());
    push_str(&mut md, "\n- **Generation Time:** ");
    let t = u64_to_decimal(result.generation_time_ms);
    push_str(&mut md, t.as_str());
    push_str(&mut md, "ms\n");
    let ghost head = md@;
    match result.seed {
        Some(s) => {
            push_str(&mut md, "- **Seed:** ");
            let d = u64_to_decimal(s);
            push_str(&mut md, d.as_str());
            push_str(&mut md, "\n");
        },
        None => {},
    }
    push_labelled(&mut md, "\n**Image URL:** ", &result.image_url);
    push_labelled(&mut md, "\n**Saved to:** ", &result.image_path);
    push_labelled(&mut md, "\n**Error:** ", &result.error);
    assert(md@ =~= image_report(*result));
    md
}

} // verus!
