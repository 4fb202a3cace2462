//! The media type that a file extension stands for.

use vstd::prelude::*;
use vstd::string::*;

verus! {

/// The top-level media type (`image`, `video`, ...) that `mime_guess` gives
/// for an extension, `application` where it knows none.
pub uninterp spec fn top_level_type_of(ext: Seq<char>) -> Seq<char>;

/// Relies on `mime_guess::MimeGuess::from_ext` and `first_or_octet_stream`:
/// the top-level part of the first media type guessed for the extension.
#[verifier::external_body]
fn guess_top_level_type(ext: &Vec<char>) -> (r: String)
    ensures
        r@ == top_level_type_of(ext@),
{
    let ext: String = ext.iter().collect();
    mime_guess::MimeGuess::from_ext(&ext).first_or_octet_stream().type_().as_str().to_string()
}

/// The extension stands for an image.
pub fn is_image_extension(ext: &Vec<char>) -> (r: bool)
    ensures
        r == (top_level_type_of(ext@) == "image"@),
{
    let t = guess_top_level_type(ext);
    let image = String::from_str("image");
    t == image
}

/// The extension stands for a video.
pub fn is_video_extension(ext: &Vec<char>) -> (r: bool)
    ensures
        r == (top_level_type_of(ext@) == "video"@),
{
    let t = guess_top_level_type(ext);
    let video = String::from_str("video");
    t == video
}

} // verus!
