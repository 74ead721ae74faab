use vstd::prelude::*;
use crate::category::Category;
use crate::error::WallError;

verus! {

/// Whether image bytes carry the signature of a WebP file: "RIFF" at the
/// start and "WEBP" at offset eight.
pub open spec fn is_webp(b: Seq<u8>) -> bool {
    &&& b.len() >= 12
    &&& b[0] == 82u8 && b[1] == 73u8 && b[2] == 70u8 && b[3] == 70u8
    &&& b[8] == 87u8 && b[9] == 69u8 && b[10] == 66u8 && b[11] == 80u8
}

/// What the image crate makes of image bytes re-encoded as PNG, or `None`
/// when they cannot be decoded.
pub uninterp spec fn png_of(b: Seq<u8>) -> Option<Seq<u8>>;

/// Relies on image::load_from_memory and DynamicImage::write_to with
/// ImageFormat::Png: decodes the bytes and encodes the picture as PNG; the
/// outcome depends on the bytes alone.
#[verifier::external_body]
fn reencode_png(bytes: &[u8]) -> (r: Option<Vec<u8>>)
    ensures
        match r {
            Some(v) => png_of(bytes@) == Some(v@),
            None => png_of(bytes@) is None,
        },
{
    let img = image::load_from_memory(bytes).ok()?;
    let mut out = std::io::Cursor::new(Vec::new());
    img.write_to(&mut out, image::ImageFormat::Png).ok()?;
    Some(out.into_inner())
}

/// Whether downloaded bytes must be converted before a desktop can use them.
pub fn needs_conversion(bytes: &[u8]) -> (r: bool)
    ensures
        r == is_webp(bytes@),
{
    bytes.len() >= 12 && bytes[0] == 82u8 && bytes[1] == 73u8 && bytes[2] == 70u8 && bytes[3] == 70u8
        && bytes[8] == 87u8 && bytes[9] == 69u8 && bytes[10] == 66u8 && bytes[11] == 80u8
}

/// The content of the wallpaper file for downloaded bytes: a WebP image is
/// re-encoded as PNG, and any other content is kept byte for byte.
pub fn file_content(bytes: &[u8]) -> (r: Result<Vec<u8>, WallError>)
    ensures
        is_webp(bytes@) ==> match png_of(bytes@) {
            Some(p) => r is Ok && r->Ok_0@ == p,
            None => r == Err::<Vec<u8>, WallError>(WallError::Decode),
        },
        !is_webp(bytes@) ==> r is Ok && r->Ok_0@ == bytes@,
{
    if needs_conversion(bytes) {
        match reencode_png(bytes) {
            Some(v) => Ok(v),
            None => Err(WallError::Decode),
        }
    } else {
        let mut out: Vec<u8> = Vec::new();
        let mut i: usize = 0;
        while i < bytes.len()
            invariant
                i <= bytes@.len(),
                out@ == bytes@.subrange(0, i as int),
            decreases bytes@.len() - i,
        {
            out.push(bytes[i]);
            i = i + 1;
            proof {
                assert(out@ =~= bytes@.subrange(0, i as int));
            }
        }
        proof {
            assert(out@ =~= bytes@);
        }
        Ok(out)
    }
}

/// Where the last path segment of `s` begins, looking at its first `n` characters.
pub open spec fn segment_start(s: Seq<char>, n: int) -> int
    decreases n,
{
    if n <= 0 {
        0
    } else if s[n - 1] == '/' {
        n
    } else {
        segment_start(s, n - 1)
    }
}

/// What follows the last '/' of `s`, or all of `s` when it has none.
pub open spec fn last_segment(s: Seq<char>) -> Seq<char> {
    s.subrange(segment_start(s, s.len() as int), s.len() as int)
}

/// The file name under which a chosen image is kept: the image id with a
/// ".png" extension for the source without pages, else the last segment of
/// the image's address.
pub fn file_name(category: Category, url: &str, image_id: &str) -> (r: String)
    ensures
        r@ == match category {
            Category::OtherAnime => image_id@ + ".png"@,
            _ => last_segment(url@),
        },
{
    match category {
        Category::OtherAnime => {
            let mut name = String::from_str(image_id);
            name.append(".png");
            name
        },
        _ => {
            let n = url.unicode_len();
            let mut k: usize = n;
            while k > 0 && url.get_char(k - 1) != '/'
                invariant
                    n == url@.len(),
                    k <= n,
                    segment_start(url@, n as int) == segment_start(url@, k as int),
                decreases k,
            {
                k = k - 1;
            }
            String::from_str(url.substring_char(k, n))
        },
    }
}

} // verus!
