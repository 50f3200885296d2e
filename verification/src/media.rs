//! Images as the media store keeps them: only files of a known type are
//! taken, and each is kept under the SHA-256 of its content, so that the same
//! image is never kept twice.

use crate::token::{hex_encode, hex_encoding};
use vstd::prelude::*;
use vstd::string::*;

verus! {

/// The types of image file that are taken.
#[derive(Clone, Copy, Debug, PartialEq, Eq, Structural)]
pub enum ImageFileType {
    /// A PNG image.
    Png,
    /// A JPEG image.
    Jpg,
    /// A GIF image.
    Gif,
}

/// Whether a byte string begins with the given bytes.
pub open spec fn begins_with(bytes: Seq<u8>, prefix: Seq<u8>) -> bool {
    prefix.is_prefix_of(bytes)
}

/// Whether a byte string begins as a PNG file does.
pub open spec fn is_png(bytes: Seq<u8>) -> bool {
    begins_with(bytes, seq![0x89u8, 0x50u8, 0x4eu8, 0x47u8, 0x0du8, 0x0au8, 0x1au8, 0x0au8])
}

/// Whether a byte string begins as a JPEG file does: the start-of-image
/// marker and then a JFIF or Adobe segment, or an Exif segment that names
/// itself.
pub open spec fn is_jpg(bytes: Seq<u8>) -> bool {
    ||| begins_with(bytes, seq![0xffu8, 0xd8u8, 0xffu8, 0xe0u8])
    ||| begins_with(bytes, seq![0xffu8, 0xd8u8, 0xffu8, 0xeeu8])
    ||| (begins_with(bytes, seq![0xffu8, 0xd8u8, 0xffu8, 0xe1u8]) && bytes.len() >= 12
        && bytes.subrange(6, 12) == seq![0x45u8, 0x78u8, 0x69u8, 0x66u8, 0u8, 0u8])
}

/// Whether a byte string begins as a GIF file does, of either version.
pub open spec fn is_gif(bytes: Seq<u8>) -> bool {
    ||| begins_with(bytes, seq![0x47u8, 0x49u8, 0x46u8, 0x38u8, 0x37u8, 0x61u8])
    ||| begins_with(bytes, seq![0x47u8, 0x49u8, 0x46u8, 0x38u8, 0x39u8, 0x61u8])
}

/// The type of image that a file's first bytes announce, if any.
pub open spec fn file_type_of(bytes: Seq<u8>) -> Option<ImageFileType> {
    if is_png(bytes) {
        Some(ImageFileType::Png)
    } else if is_jpg(bytes) {
        Some(ImageFileType::Jpg)
    } else if is_gif(bytes) {
        Some(ImageFileType::Gif)
    } else {
        None
    }
}

fn has_prefix(bytes: &[u8], prefix: &[u8]) -> (has: bool)
    ensures
        has == begins_with(bytes@, prefix@),
{
    if prefix.len() > bytes.len() {
        return false;
    }
    let mut i: usize = 0;
    while i < prefix.len()
        invariant
            i <= prefix.len() <= bytes.len(),
            forall|j: int| 0 <= j < i ==> bytes@[j] == prefix@[j],
        decreases prefix.len() - i,
    {
        if bytes[i] != prefix[i] {
            return false;
        }
        i = i + 1;
    }
    assert(prefix@ =~= bytes@.subrange(0, prefix@.len() as int));
    true
}

impl ImageFileType {
    /// The type of image that a file's first bytes announce; `None` where
    /// they announce none that is taken.
    pub fn from_bytes(bytes: &[u8]) -> (file_type: Option<ImageFileType>)
        ensures
            file_type == file_type_of(bytes@),
    {
        let png: [u8; 8] = [0x89, 0x50, 0x4e, 0x47, 0x0d, 0x0a, 0x1a, 0x0a];
        let jfif: [u8; 4] = [0xff, 0xd8, 0xff, 0xe0];
        let adobe: [u8; 4] = [0xff, 0xd8, 0xff, 0xee];
        let exif: [u8; 4] = [0xff, 0xd8, 0xff, 0xe1];
        let gif87: [u8; 6] = [0x47, 0x49, 0x46, 0x38, 0x37, 0x61];
        let gif89: [u8; 6] = [0x47, 0x49, 0x46, 0x38, 0x39, 0x61];
        assert(png@ =~= seq![0x89u8, 0x50u8, 0x4eu8, 0x47u8, 0x0du8, 0x0au8, 0x1au8, 0x0au8]);
        assert(jfif@ =~= seq![0xffu8, 0xd8u8, 0xffu8, 0xe0u8]);
        assert(adobe@ =~= seq![0xffu8, 0xd8u8, 0xffu8, 0xeeu8]);
        assert(exif@ =~= seq![0xffu8, 0xd8u8, 0xffu8, 0xe1u8]);
        assert(gif87@ =~= seq![0x47u8, 0x49u8, 0x46u8, 0x38u8, 0x37u8, 0x61u8]);
        assert(gif89@ =~= seq![0x47u8, 0x49u8, 0x46u8, 0x38u8, 0x39u8, 0x61u8]);
        if has_prefix(bytes, png.as_slice()) {
            Some(ImageFileType::Png)
        } else if has_prefix(bytes, jfif.as_slice()) || has_prefix(bytes, adobe.as_slice()) {
            Some(ImageFileType::Jpg)
        } else if has_prefix(bytes, exif.as_slice()) && bytes.len() >= 12 && bytes[6] == 0x45
            && bytes[7] == 0x78 && bytes[8] == 0x69 && bytes[9] == 0x66 && bytes[10] == 0
            && bytes[11] == 0 {
            assert(bytes@.subrange(6, 12) =~= seq![0x45u8, 0x78u8, 0x69u8, 0x66u8, 0u8, 0u8]);
            Some(ImageFileType::Jpg)
        } else {
            proof {
                if bytes@.len() >= 12 && bytes@.subrange(6, 12) == seq![
                    0x45u8,
                    0x78u8,
                    0x69u8,
                    0x66u8,
                    0u8,
                    0u8,
                ] {
                    let tail = bytes@.subrange(6, 12);
                    assert(tail[0] == bytes@[6] && tail[1] == bytes@[7] && tail[2] == bytes@[8]
                        && tail[3] == bytes@[9] && tail[4] == bytes@[10] && tail[5] == bytes@[11]);
                }
            }
            if has_prefix(bytes, gif87.as_slice()) || has_prefix(bytes, gif89.as_slice()) {
                Some(ImageFileType::Gif)
            } else {
                None
            }
        }
    }

    /// The file extension of the type, as a specification.
    pub open spec fn spec_extension(self) -> Seq<char> {
        match self {
            ImageFileType::Png => "png"@,
            ImageFileType::Jpg => "jpg"@,
            ImageFileType::Gif => "gif"@,
        }
    }

    /// The file extension that goes with the type.
    pub fn extension(&self) -> (extension: &'static str)
        ensures
            extension@ == self.spec_extension(),
    {
        match self {
            ImageFileType::Png => "png",
            ImageFileType::Jpg => "jpg",
            ImageFileType::Gif => "gif",
        }
    }

    /// The media type of the type, as a specification.
    pub open spec fn spec_mimetype(self) -> Seq<char> {
        match self {
            ImageFileType::Png => "image/png"@,
            ImageFileType::Jpg => "image/jpeg"@,
            ImageFileType::Gif => "image/gif"@,
        }
    }

    /// The media type that goes with the type.
    pub fn mimetype(&self) -> (mimetype: &'static str)
        ensures
            mimetype@ == self.spec_mimetype(),
    {
        match self {
            ImageFileType::Png => "image/png",
            ImageFileType::Jpg => "image/jpeg",
            ImageFileType::Gif => "image/gif",
        }
    }
}

/// The SHA-256 digest of a byte string.
pub uninterp spec fn sha256_digest(bytes: Seq<u8>) -> Seq<u8>;

/// Computes the SHA-256 digest of a byte string with `sha2::Sha256::digest`.
/// The digest has 32 bytes.
#[verifier::external_body]
fn sha256(bytes: &[u8]) -> (digest: Vec<u8>)
    ensures
        digest@ == sha256_digest(bytes@),
        digest.len() == 32,
{
    <sha2::Sha256 as sha2::Digest>::digest(bytes).to_vec()
}

/// Why an image is not stored.
#[derive(Clone, Copy, Debug, PartialEq, Eq, Structural)]
pub enum StoreImageError {
    /// The file is of none of the types that are taken.
    InvalidFileType,
}

/// The path under which an image of the given type and digest is kept.
pub open spec fn image_path_of(file_type: ImageFileType, digest: Seq<u8>) -> Seq<char> {
    "/images/"@ + hex_encoding(digest) + "."@ + file_type.spec_extension()
}

/// The path under which an image of the given type and digest is kept.
pub fn path_for(file_type: ImageFileType, digest: &[u8]) -> (path: String)
    ensures
        path@ == image_path_of(file_type, digest@),
{
    let mut path = String::from_str("/images/");
    let name = hex_encode(digest);
    path.append(name.as_str());
    path.append(".");
    path.append(file_type.extension());
    path
}

/// Where and as what an image is to be stored: the path under the bucket
/// and the media type. A file of no known type is refused.
pub fn image_object(image: &[u8]) -> (object: Result<(String, &'static str), StoreImageError>)
    ensures
        match file_type_of(image@) {
            Some(file_type) => object matches Ok((path, mimetype)) && path@ == image_path_of(
                file_type,
                sha256_digest(image@),
            ) && mimetype@ == file_type.spec_mimetype(),
            None => object == Err::<(String, &'static str), StoreImageError>(
                StoreImageError::InvalidFileType,
            ),
        },
{
    let digest = sha256(image);
    match ImageFileType::from_bytes(image) {
        Some(file_type) => Ok((path_for(file_type, digest.as_slice()), file_type.mimetype())),
        None => Err(StoreImageError::InvalidFileType),
    }
}

/// A text without the characters `c` that it begins with.
pub open spec fn without_leading(text: Seq<char>, c: char) -> Seq<char>
    decreases text.len(),
{
    if text.len() > 0 && text[0] == c {
        without_leading(text.drop_first(), c)
    } else {
        text
    }
}

/// A text without the copies of `pattern` that it begins with. An empty
/// pattern takes nothing away.
pub open spec fn without_prefixes(text: Seq<char>, pattern: Seq<char>) -> Seq<char>
    decreases text.len(),
{
    if pattern.len() > 0 && pattern.len() <= text.len() && pattern.is_prefix_of(text) {
        without_prefixes(text.skip(pattern.len() as int), pattern)
    } else {
        text
    }
}

/// Takes the leading characters `c` off a text with
/// `str::trim_start_matches`.
#[verifier::external_body]
fn trim_leading_char<'a>(text: &'a str, c: char) -> (rest: &'a str)
    ensures
        rest@ == without_leading(text@, c),
{
    text.trim_start_matches(c)
}

/// Takes the leading copies of a pattern off a text with
/// `str::trim_start_matches`.
#[verifier::external_body]
fn trim_leading_text<'a>(text: &'a str, pattern: &str) -> (rest: &'a str)
    requires
        pattern@.len() > 0,
    ensures
        rest@ == without_prefixes(text@, pattern@),
{
    text.trim_start_matches(pattern)
}

fn strip_prefixes<'a>(text: &'a str, pattern: &str) -> (rest: &'a str)
    ensures
        rest@ == without_prefixes(text@, pattern@),
{
    if pattern.is_empty() {
        text
    } else {
        trim_leading_text(text, pattern)
    }
}

/// The address at which an image is reached from outside: the address of
/// the store, the bucket, and the image's path under the bucket, each
/// joined to the next by one slash.
pub open spec fn image_uri_of(external_uri: Seq<char>, bucket: Seq<char>, path: Seq<char>) -> Seq<
    char,
> {
    external_uri + seq!['/'] + bucket + seq!['/'] + without_leading(path, '/')
}

/// The address at which an image is reached from outside.
pub fn image_uri(external_uri: &str, bucket: &str, path: &str) -> (uri: String)
    ensures
        uri@ == image_uri_of(external_uri@, bucket@, path@),
{
    proof {
        reveal_strlit("/");
    }
    let mut uri = String::from_str(external_uri);
    uri.append("/");
    uri.append(bucket);
    uri.append("/");
    uri.append(trim_leading_char(path, '/'));
    assert(uri@ =~= image_uri_of(external_uri@, bucket@, path@));
    uri
}

/// The path under the bucket that an address or a path of an image stands
/// for: the address of the store and the bucket are taken off where they
/// lead, and the path begins with exactly one slash.
pub open spec fn image_path_in_bucket(path: Seq<char>, external_uri: Seq<char>, bucket: Seq<char>)
    -> Seq<char> {
    seq!['/'] + without_leading(
        without_prefixes(without_leading(without_prefixes(path, external_uri), '/'), bucket),
        '/',
    )
}

/// The path under the bucket that an address or a path of an image stands
/// for.
pub fn normalise_image_path(path: &str, external_uri: &str, bucket: &str) -> (normalised: String)
    ensures
        normalised@ == image_path_in_bucket(path@, external_uri@, bucket@),
{
    proof {
        reveal_strlit("/");
    }
    let rest = trim_leading_char(
        strip_prefixes(trim_leading_char(strip_prefixes(path, external_uri), '/'), bucket),
        '/',
    );
    let mut normalised = String::from_str("/");
    normalised.append(rest);
    assert(normalised@ =~= image_path_in_bucket(path@, external_uri@, bucket@));
    normalised
}

} // verus!
