//! Images as base64 data URLs.
use vstd::prelude::*;
use base64::Engine;

verus! {

/// The image formats that can be embedded.
#[derive(Debug, Clone, Copy, PartialEq, Eq, Structural)]
pub enum Base64ImageEncoder {
    Jpeg,
    Png,
}

/// Why no format could be guessed from a path.
#[derive(Debug, Clone, PartialEq, Eq)]
pub enum GuessError {
    /// The file name has no extension
    NoExtension,
    /// The extension is not one of an image format
    UnknownExtension(String),
}

/// The extension of the file that the path `s` names, as `std::path::Path`
/// reads it.
pub uninterp spec fn path_extension(s: Seq<char>) -> Option<Seq<char>>;

/// Relies on `std::path::Path::extension`: the part of the file name after
/// its last `.`, which depends on the path's text alone.
#[verifier::external_body]
fn extension_of(path: &str) -> (r: Option<String>)
    ensures
        match r {
            Some(e) => path_extension(path@) == Some(e@),
            None => path_extension(path@) is None,
        },
{
    std::path::Path::new(path).extension().map(|e| e.to_string_lossy().into_owned())
}

/// The standard base64 encoding, with padding, of `b`.
pub uninterp spec fn base64_of(b: Seq<u8>) -> Seq<char>;

/// Relies on `base64::Engine::encode` of `BASE64_STANDARD`, which depends on
/// the bytes alone and panics only where the encoded length overflows.
#[verifier::external_body]
fn base64_standard(b: &[u8]) -> (r: String)
    requires
        b@.len() <= usize::MAX / 2,
    ensures
        r@ == base64_of(b@),
{
    base64::prelude::BASE64_STANDARD.encode(b)
}

/// The format whose extension `ext` is.
pub open spec fn format_of_extension(ext: Seq<char>) -> Option<Base64ImageEncoder> {
    if ext == "png"@ {
        Some(Base64ImageEncoder::Png)
    } else if ext == "jpg"@ || ext == "jpeg"@ {
        Some(Base64ImageEncoder::Jpeg)
    } else {
        None
    }
}

impl Base64ImageEncoder {
    /// The format named by the extension of `img_path`.
    pub fn guess(img_path: &str) -> (r: Result<Base64ImageEncoder, GuessError>)
        ensures
            match path_extension(img_path@) {
                None => r == Err::<Base64ImageEncoder, GuessError>(GuessError::NoExtension),
                Some(ext) => match format_of_extension(ext) {
                    Some(f) => r == Ok::<Base64ImageEncoder, GuessError>(f),
                    None => r is Err && r->Err_0 is UnknownExtension
                        && r->Err_0->UnknownExtension_0@ == ext,
                },
            },
    {
        let ext = match extension_of(img_path) {
            Some(e) => e,
            None => return Err(GuessError::NoExtension),
        };
        if ext == String::from_str("png") {
            Ok(Base64ImageEncoder::Png)
        } else if ext == String::from_str("jpg") || ext == String::from_str("jpeg") {
            Ok(Base64ImageEncoder::Jpeg)
        } else {
            Err(GuessError::UnknownExtension(ext))
        }
    }

    pub open spec fn mime_spec(self) -> Seq<char> {
        match self {
            Base64ImageEncoder::Jpeg => "jpeg"@,
            Base64ImageEncoder::Png => "png"@,
        }
    }

    /// The data URL of an image of this format made of `file_bytes`.
    pub fn encode_bytes(self, file_bytes: &[u8]) -> (r: String)
        requires
            file_bytes@.len() <= usize::MAX / 2,
        ensures
            r@ == "data:image/"@ + self.mime_spec() + ";base64,"@ + base64_of(file_bytes@),
    {
        let encoded = base64_standard(file_bytes);
        let mime = match self {
            Base64ImageEncoder::Jpeg => "jpeg",
            Base64ImageEncoder::Png => "png",
        };
        data_url(mime, encoded.as_str())
    }
}

/// `data:image/{mime};base64,{encoded}`.
pub fn data_url(mime: &str, encoded: &str) -> (r: String)
    ensures
        r@ == "data:image/"@ + mime@ + ";base64,"@ + encoded@,
{
    let mut r = String::from_str("data:image/");
    r.append(mime);
    r.append(";base64,");
    r.append(encoded);
    r
}

} // verus!
