//! Vision support: which models take images, the images and requests sent
//! to them, and the base64 text of image bytes. Capturing screenshots and
//! reading files happen at the caller.

use vstd::prelude::*;
use crate::text::{contains_seq, owned, push_str, str_contains};

verus! {

/// Models known to take images (matched as substrings of the model name).
pub open spec fn vision_models() -> Seq<Seq<char>> {
    seq!["gpt-4o"@, "gpt-4o-mini"@, "gpt-4-vision"@]
}

fn vision_model(i: usize) -> (r: &'static str)
    requires
        i < 3,
    ensures
        r@ == vision_models()[i as int],
{
    if i == 0 {
        "gpt-4o"
    } else if i == 1 {
        "gpt-4o-mini"
    } else {
        "gpt-4-vision"
    }
}

/// The model name `m` contains known vision model `i`.
pub open spec fn names_vision_model(m: Seq<char>, i: int) -> bool {
    contains_seq(m, vision_models()[i])
}

/// Whether a model takes images: any model when none is named, else one
/// whose name contains a known vision model's name.
pub open spec fn supports_vision(model: Option<Seq<char>>) -> bool {
    match model {
        Some(m) => exists|i: int| 0 <= i < 3 && #[trigger] names_vision_model(m, i),
        None => true,
    }
}

/// Whether the model takes images.
pub fn model_supports_vision(model: Option<&str>) -> (r: bool)
    ensures
        r == supports_vision(crate::cron::str_opt_view(model)),
{
    match model {
        None => true,
        Some(m) => {
            let mut i: usize = 0;
            while i < 3
                invariant
                    i <= 3,
                    crate::cron::str_opt_view(model) == Some(m@),
                    forall|k: int| 0 <= k < i ==> !#[trigger] names_vision_model(m@, k),
                decreases 3 - i,
            {
                let v = vision_model(i);
                if str_contains(m, v) {
                    assert(names_vision_model(m@, i as int));
                    let ghost mv = crate::cron::str_opt_view(model)->0;
                    assert(mv == m@);
                    assert(names_vision_model(mv, i as int));
                    assert(supports_vision(crate::cron::str_opt_view(model)));
                    return true;
                }
                i = i + 1;
            }
            false
        },
    }
}

/// The base64 alphabet.
pub open spec fn b64_char(i: int) -> char {
    if i < 26 {
        ((65 + i) as u32) as char
    } else if i < 52 {
        ((97 + i - 26) as u32) as char
    } else if i < 62 {
        ((48 + i - 52) as u32) as char
    } else if i == 62 {
        '+'
    } else {
        '/'
    }
}

/// Standard base64 with `=` padding, three bytes to four characters.
pub open spec fn base64_of(d: Seq<u8>) -> Seq<char>
    decreases d.len(),
{
    if d.len() == 0 {
        Seq::empty()
    } else if d.len() == 1 {
        seq![b64_char((d[0] / 4) as int), b64_char(((d[0] % 4) * 16) as int), '=', '=']
    } else if d.len() == 2 {
        seq![
            b64_char((d[0] / 4) as int),
            b64_char(((d[0] % 4) * 16 + d[1] / 16) as int),
            b64_char(((d[1] % 16) * 4) as int),
            '=',
        ]
    } else {
        seq![
            b64_char((d[0] / 4) as int),
            b64_char(((d[0] % 4) * 16 + d[1] / 16) as int),
            b64_char(((d[1] % 16) * 4 + d[2] / 64) as int),
            b64_char((d[2] % 64) as int),
        ] + base64_of(d.subrange(3, d.len() as int))
    }
}

fn b64_digit(i: u32) -> (c: char)
    requires
        i < 64,
    ensures
        c == b64_char(i as int),
{
    if i < 26 {
        char_of(65 + i)
    } else if i < 52 {
        char_of(97 + i - 26)
    } else if i < 62 {
        char_of(48 + i - 52)
    } else if i == 62 {
        '+'
    } else {
        '/'
    }
}

fn char_of(u: u32) -> (c: char)
    requires
        u < 128,
    ensures
        c == (u as char),
{
    let b = u as u8;
    b as char
}

/// The base64 text of `data` (standard alphabet, `=` padding).
pub fn base64_encode(data: &[u8]) -> (r: String)
    ensures
        r@ == base64_of(data@),
{
    let mut out: Vec<char> = Vec::new();
    let mut i: usize = 0;
    assert(data@.subrange(0, data@.len() as int) =~= data@);
    while i < data.len()
        invariant
            i <= data@.len(),
            out@ + base64_of(data@.subrange(i as int, data@.len() as int)) == base64_of(data@),
        decreases data.len() - i,
    {
        let ghost rest = data@.subrange(i as int, data@.len() as int);
        let b0 = data[i] as u32;
        let left = data.len() - i;
        if left == 1 {
            out.push(b64_digit(b0 / 4));
            out.push(b64_digit((b0 % 4) * 16));
            out.push('=');
            out.push('=');
            proof {
                assert(rest =~= seq![data@[i as int]]);
            }
            i = i + 1;
        } else if left == 2 {
            let b1 = data[i + 1] as u32;
            out.push(b64_digit(b0 / 4));
            out.push(b64_digit((b0 % 4) * 16 + b1 / 16));
            out.push(b64_digit((b1 % 16) * 4));
            out.push('=');
            i = i + 2;
        } else {
            let b1 = data[i + 1] as u32;
            let b2 = data[i + 2] as u32;
            out.push(b64_digit(b0 / 4));
            out.push(b64_digit((b0 % 4) * 16 + b1 / 16));
            out.push(b64_digit((b1 % 16) * 4 + b2 / 64));
            out.push(b64_digit(b2 % 64));
            proof {
                assert(rest.subrange(3, rest.len() as int) =~= data@.subrange(i + 3, data@.len() as int));
            }
            i = i + 3;
        }
    }
    crate::text::string_of(out.as_slice())
}

/// Base64 text is four characters for every three bytes or part of them.
pub proof fn lemma_base64_len(d: Seq<u8>)
    ensures
        base64_of(d).len() == 4 * ((d.len() + 2) / 3),
    decreases d.len(),
{
    if d.len() > 2 {
        lemma_base64_len(d.subrange(3, d.len() as int));
    }
}

/// A captured screenshot: where it was written, its size, and when it was
/// taken (RFC 3339, UTC).
pub struct Screenshot {
    pub path: String,
    pub width: u32,
    pub height: u32,
    pub size_bytes: usize,
    pub timestamp: String,
}

impl Screenshot {
    /// The base64 text of the screenshot's file, whose bytes are `contents`.
    pub fn to_base64(&self, contents: &[u8]) -> (r: String)
        ensures
            r@ == base64_of(contents@),
    {
        base64_encode(contents)
    }

    /// The screenshot as a PNG data URL, its file's bytes being `contents`.
    pub fn to_data_url(&self, contents: &[u8]) -> (r: String)
        ensures
            r@ == "data:image/png;base64,"@ + base64_of(contents@),
    {
        let b64 = self.to_base64(contents);
        let mut s = owned("data:image/png;base64,");
        push_str(&mut s, b64.as_str());
        s
    }
}

/// Where an image comes from.
pub enum VisionSource {
    /// A screenshot just captured.
    Screenshot,
    /// A file.
    Path(String),
    /// Base64 data.
    Base64(String),
    /// An address.
    Url(String),
}

/// An image for a vision request.
pub struct VisionImage {
    pub source: VisionSource,
    pub media_type: String,
}

/// The media type that `mime_guess` gives a path by its extension.
pub uninterp spec fn guessed_media_type(path: Seq<char>) -> Seq<char>;

/// `mime_guess::from_path(path).first_or_octet_stream()`, as text: the
/// first media type known for the path's extension, or
/// `application/octet-stream`.
#[verifier::external_body]
fn media_type_of(path: &str) -> (r: String)
    ensures
        r@ == guessed_media_type(path@),
{
    mime_guess::from_path(path).first_or_octet_stream().to_string()
}

impl VisionImage {
    /// An image from a screenshot; `captured` is what capturing it gave.
    pub fn from_screenshot(captured: Result<(), String>) -> (r: Result<Self, String>)
        ensures
            match captured {
                Ok(()) => r matches Ok(img) && img.source is Screenshot && img.media_type@ == "image/png"@,
                Err(e) => r == Err::<Self, String>(e),
            },
    {
        match captured {
            Ok(()) => Ok(VisionImage { source: VisionSource::Screenshot, media_type: owned("image/png") }),
            Err(e) => Err(e),
        }
    }

    /// An image from a file, typed by its extension.
    pub fn from_path(path: &str) -> (r: Self)
        ensures
            r.source matches VisionSource::Path(p) && p@ == path@,
            r.media_type@ == guessed_media_type(path@),
    {
        VisionImage { source: VisionSource::Path(owned(path)), media_type: media_type_of(path) }
    }

    /// An image at an address, taken to be JPEG.
    pub fn from_url(url: &str) -> (r: Self)
        ensures
            r.source matches VisionSource::Url(u) && u@ == url@,
            r.media_type@ == "image/jpeg"@,
    {
        VisionImage { source: VisionSource::Url(owned(url)), media_type: owned("image/jpeg") }
    }
}

/// A vision request: a prompt and its images.
pub struct VisionRequest {
    pub prompt: String,
    pub images: Vec<VisionImage>,
}

impl VisionRequest {
    /// A request with no images.
    pub fn new(prompt: &str) -> (r: Self)
        ensures
            r.prompt@ == prompt@,
            r.images@.len() == 0,
    {
        VisionRequest { prompt: owned(prompt), images: Vec::new() }
    }

    /// The request with a screenshot added; `captured` is what capturing it
    /// gave.
    pub fn with_screenshot(self, captured: Result<(), String>) -> (r: Result<Self, String>)
        ensures
            match captured {
                Ok(()) => r matches Ok(q) && q.prompt == self.prompt && q.images@.len() == self.images@.len()
                    + 1 && q.images@.drop_last() == self.images@ && q.images@.last().source is Screenshot,
                Err(e) => r matches Err(x) && x == e,
            },
    {
        let img = VisionImage::from_screenshot(captured);
        match img {
            Ok(i) => {
                let mut s = self;
                let ghost before = s.images@;
                s.images.push(i);
                assert(s.images@.drop_last() =~= before);
                Ok(s)
            },
            Err(e) => Err(e),
        }
    }

    /// The request with an image file added.
    pub fn with_image(self, path: &str) -> (r: Self)
        ensures
            r.prompt == self.prompt,
            r.images@.len() == self.images@.len() + 1,
            r.images@.drop_last() == self.images@,
            r.images@.last().source matches VisionSource::Path(p) && p@ == path@,
            r.images@.last().media_type@ == guessed_media_type(path@),
    {
        let mut s = self;
        let ghost before = s.images@;
        s.images.push(VisionImage::from_path(path));
        assert(s.images@.drop_last() =~= before);
        s
    }
}

} // verus!
