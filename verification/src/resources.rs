//! Resources: where the files of the renderer lie and what is read out of them.
//!
//! Paths are texts whose parts are divided by `/`. Reading a file is left to
//! the caller; what stands here finds the file and judges its bytes.

use vstd::prelude::*;
use vstd::string::{StrSliceExecFns, StringExecFns};
use crate::command::PixelFormat;
use crate::text::{decimal, decimal_string};

verus! {

/// The character that divides the parts of a path.
pub const SEPARATOR: char = '/';

/// The parts of a path: the runs of characters between its separators, the
/// empty ones among them.
pub open spec fn split(path: Seq<char>) -> Seq<Seq<char>>
    decreases path.len(),
{
    if path.len() == 0 {
        seq![Seq::empty()]
    } else if path.last() == SEPARATOR {
        split(path.drop_last()).push(Seq::empty())
    } else {
        let front = split(path.drop_last());
        front.drop_last().push(front.last().push(path.last()))
    }
}

/// A part that names nothing: an empty one, or the directory itself.
pub open spec fn is_blank(part: Seq<char>) -> bool {
    part.len() == 0 || part == seq!['.']
}

/// A path with one more part. A part that names nothing leaves the path as it
/// is; any other is set behind one separator.
pub open spec fn with_part(path: Seq<char>, part: Seq<char>) -> Seq<char> {
    if is_blank(part) {
        path
    } else if path.len() == 0 || path.last() == SEPARATOR {
        path + part
    } else {
        path.push(SEPARATOR) + part
    }
}

/// A path with more parts, one after the other.
pub open spec fn with_parts(path: Seq<char>, parts: Seq<Seq<char>>) -> Seq<char>
    decreases parts.len(),
{
    if parts.len() == 0 {
        path
    } else {
        with_part(with_parts(path, parts.drop_last()), parts.last())
    }
}

/// Whether a path starts at the root of the file system.
pub open spec fn is_absolute(path: Seq<char>) -> bool {
    path.len() > 0 && path[0] == SEPARATOR
}

/// The place of `location` as seen from `root_dir`: the parts of `location`
/// set behind `root_dir`, or behind the root of the file system if `location`
/// starts there.
pub open spec fn absolute_path(root_dir: Seq<char>, location: Seq<char>) -> Seq<char> {
    let start = if is_absolute(location) {
        seq![SEPARATOR]
    } else {
        root_dir
    };
    with_parts(start, split(location))
}

/// One more character that is no separator lengthens the last part.
proof fn lemma_split_char(path: Seq<char>, done: Seq<Seq<char>>, part: Seq<char>)
    requires
        path.len() > 0,
        path.last() != SEPARATOR,
        split(path.drop_last()) == done.push(part),
    ensures
        split(path) == done.push(part.push(path.last())),
{
    let front = split(path.drop_last());
    assert(front.drop_last() =~= done);
    assert(front.last() == part);
}

/// A separator closes the last part and opens an empty one.
proof fn lemma_split_separator(path: Seq<char>, done: Seq<Seq<char>>, part: Seq<char>)
    requires
        path.len() > 0,
        path.last() == SEPARATOR,
        split(path.drop_last()) == done.push(part),
    ensures
        split(path) == done.push(part).push(Seq::empty()),
{
}

/// Parts are set behind a path one at a time.
proof fn lemma_with_parts_push(path: Seq<char>, done: Seq<Seq<char>>, part: Seq<char>)
    ensures
        with_parts(path, done.push(part)) == with_part(with_parts(path, done), part),
{
    assert(done.push(part).drop_last() =~= done);
}

/// Sets the characters of `location` from `from` up to `to` behind `path` as
/// one part. `joined` says whether a part goes behind the path as it stands.
fn append_part(path: &mut String, joined: &mut bool, location: &str, from: usize, to: usize)
    requires
        from <= to <= location@.len(),
        *old(joined) == (old(path)@.len() == 0 || old(path)@.last() == SEPARATOR),
        forall|k: int| from <= k < to ==> location@[k] != SEPARATOR,
    ensures
        final(path)@ == with_part(old(path)@, location@.subrange(from as int, to as int)),
        *final(joined) == (final(path)@.len() == 0 || final(path)@.last() == SEPARATOR),
{
    let ghost part = location@.subrange(from as int, to as int);
    let blank: bool = to == from || (to - from == 1 && location.get_char(from) == '.');
    proof {
        if to - from == 1 {
            assert(part =~= seq![location@[from as int]]);
        }
        if part.len() == 1 && part == seq!['.'] {
            assert(part[0] == '.');
        }
        assert(blank == is_blank(part));
    }
    if !blank {
        if !*joined {
            path.append("/");
        }
        path.append(location.substring_char(from, to));
        *joined = false;
        proof {
            reveal_strlit("/");
            assert("/"@ =~= seq![SEPARATOR]);
            assert(path@ =~= with_part(old(path)@, part));
            assert(path@.last() == part.last());
            assert(part.last() == location@[to - 1]);
        }
    }
}

/// The path of the resource `location` below the directory `root_dir`.
///
/// The parts of `location` are divided by `/`, whatever the machine. Empty
/// parts and parts that are a single dot are passed over. A `location` that
/// starts with `/` is taken from the root of the file system.
pub fn relative_to_absolute_resource_path(root_dir: &str, location: &str) -> (path: String)
    ensures
        path@ == absolute_path(root_dir@, location@),
{
    let len: usize = location.unicode_len();
    let absolute: bool = len > 0 && location.get_char(0) == SEPARATOR;
    let mut path: String = if absolute {
        String::from_str("/")
    } else {
        String::from_str(root_dir)
    };
    proof {
        reveal_strlit("/");
        assert("/"@ =~= seq![SEPARATOR]);
    }
    let root_len: usize = root_dir.unicode_len();
    let mut joined: bool = if absolute {
        true
    } else {
        root_len == 0 || root_dir.get_char(root_len - 1) == SEPARATOR
    };
    let ghost start: Seq<char> = path@;
    let ghost mut done: Seq<Seq<char>> = Seq::empty();
    let mut part_start: usize = 0;
    let mut i: usize = 0;
    proof {
        assert(location@.take(0) =~= Seq::<char>::empty());
        assert(location@.subrange(0, 0) =~= Seq::<char>::empty());
        assert(split(location@.take(0)) =~= done.push(location@.subrange(0, 0)));
    }
    while i < len
        invariant
            part_start <= i <= len,
            len == location@.len(),
            split(location@.take(i as int)) == done.push(
                location@.subrange(part_start as int, i as int),
            ),
            path@ == with_parts(start, done),
            joined == (path@.len() == 0 || path@.last() == SEPARATOR),
            forall|k: int| part_start <= k < i ==> location@[k] != SEPARATOR,
        decreases len - i,
    {
        let c: char = location.get_char(i);
        let ghost part = location@.subrange(part_start as int, i as int);
        let ghost prefix = location@.take(i + 1);
        proof {
            assert(prefix.drop_last() =~= location@.take(i as int));
            assert(prefix.last() == c);
        }
        if c == SEPARATOR {
            append_part(&mut path, &mut joined, location, part_start, i);
            proof {
                lemma_split_separator(prefix, done, part);
                lemma_with_parts_push(start, done, part);
                done = done.push(part);
                assert(location@.subrange(i + 1, i + 1) =~= Seq::<char>::empty());
            }
            part_start = i + 1;
        } else {
            proof {
                lemma_split_char(prefix, done, part);
                assert(part.push(c) =~= location@.subrange(part_start as int, i + 1));
            }
        }
        i += 1;
    }
    let ghost part = location@.subrange(part_start as int, len as int);
    append_part(&mut path, &mut joined, location, part_start, len);
    proof {
        assert(location@.take(len as int) =~= location@);
        lemma_with_parts_push(start, done, part);
    }
    path
}

/// The directory of a file: its path up to the last separator, or the empty
/// path if it has none. The directory of a file right below the root of the
/// file system is the root.
pub open spec fn directory_of(path: Seq<char>) -> Seq<char>
    decreases path.len(),
{
    if path.len() == 0 {
        Seq::empty()
    } else if path.last() == SEPARATOR {
        if path.len() == 1 {
            path
        } else {
            path.drop_last()
        }
    } else {
        directory_of(path.drop_last())
    }
}

/// The directory of the file `path`.
pub fn parent_directory(path: &str) -> (directory: &str)
    ensures
        directory@ == directory_of(path@),
{
    let mut end: usize = path.unicode_len();
    proof {
        assert(path@.take(end as int) =~= path@);
    }
    while end > 0
        invariant
            end <= path@.len(),
            directory_of(path@) == directory_of(path@.take(end as int)),
        decreases end,
    {
        proof {
            let front = path@.take(end as int);
            assert(front.drop_last() =~= path@.take(end - 1));
        }
        if path.get_char(end - 1) == SEPARATOR {
            if end == 1 {
                let root = path.substring_char(0, 1);
                assert(root@ =~= path@.take(1));
                return root;
            }
            return path.substring_char(0, end - 1);
        }
        end -= 1;
    }
    proof {
        assert(path@.take(0) =~= Seq::<char>::empty());
    }
    path.substring_char(0, 0)
}

/// A decoded image: its pixels row after row, each pixel the bytes of its
/// channels.
#[derive(Debug, PartialEq, Eq)]
pub struct DecodedImage {
    pub width: u32,
    pub height: u32,
    pub format: PixelFormat,
    pub pixels: Vec<u8>,
}

/// The number of bytes of a pixel.
pub open spec fn channels(format: PixelFormat) -> int {
    match format {
        PixelFormat::Rgb => 3,
        PixelFormat::Rgba => 4,
    }
}

impl DecodedImage {
    /// The buffer holds every pixel of the image.
    pub open spec fn wf(&self) -> bool {
        channels(self.format) * self.width * self.height <= self.pixels@.len()
    }
}

/// Where the extension of the file `path` starts, looked for to the left of
/// `end`: behind the last dot of the name of the file, if a dot stands in the
/// name and not at its start.
pub open spec fn extension_start(path: Seq<char>, end: int) -> Option<int>
    decreases end,
{
    if end <= 0 {
        None
    } else if path[end - 1] == SEPARATOR {
        None
    } else if path[end - 1] == '.' {
        if end - 1 > 0 && path[end - 2] != SEPARATOR {
            Some(end)
        } else {
            None
        }
    } else {
        extension_start(path, end - 1)
    }
}

/// The extension of the file `path`, without its dot; empty where the name
/// has none.
pub open spec fn extension_of(path: Seq<char>) -> Seq<char> {
    match extension_start(path, path.len() as int) {
        Some(start) => path.skip(start),
        None => Seq::empty(),
    }
}

/// The extension of the file `path`, off which the decoder reads the format.
pub fn extension(path: &str) -> (extension: &str)
    ensures
        extension@ == extension_of(path@),
{
    let len: usize = path.unicode_len();
    let mut end: usize = len;
    while end > 0
        invariant
            end <= len,
            len == path@.len(),
            extension_start(path@, len as int) == extension_start(path@, end as int),
        decreases end,
    {
        let c: char = path.get_char(end - 1);
        if c == SEPARATOR {
            return path.substring_char(0, 0);
        }
        if c == '.' {
            if end - 1 > 0 && path.get_char(end - 2) != SEPARATOR {
                let found = path.substring_char(end, len);
                assert(found@ =~= path@.skip(end as int));
                return found;
            }
            return path.substring_char(0, 0);
        }
        end -= 1;
    }
    path.substring_char(0, 0)
}

/// Whether the code of a marker stands at `at` in a JPEG file: a byte that is
/// neither 0 nor 0xFF, behind a byte 0xFF.
pub open spec fn marker_code_at(bytes: Seq<u8>, at: int) -> bool {
    1 <= at < bytes.len() && bytes[at - 1] == 0xFF && bytes[at] != 0xFF && bytes[at] != 0
}

/// The place of the code of the next marker that is read from `from` on: the
/// first code whose byte 0xFF stands at `from` or behind it.
pub open spec fn next_marker(bytes: Seq<u8>, from: int) -> Option<int>
    decreases bytes.len() - from,
{
    if from < 0 || from + 1 >= bytes.len() {
        None
    } else if marker_code_at(bytes, from + 1) {
        Some(from + 1)
    } else {
        next_marker(bytes, from + 1)
    }
}

/// The code of a frame header: 0xC0 to 0xCF but for the codes of the Huffman
/// tables, of the extension and of the arithmetic conditioning.
pub open spec fn is_frame_code(code: u8) -> bool {
    0xC0 <= code <= 0xCF && code != 0xC4 && code != 0xC8 && code != 0xCC
}

/// The code of a lossless frame.
pub open spec fn is_lossless_code(code: u8) -> bool {
    code == 0xC3 || code == 0xC7 || code == 0xCB || code == 0xCF
}

/// The code of a segment that may stand in front of the frame header and is
/// passed over by its length: tables, the restart interval, a comment or
/// application data.
pub open spec fn is_passed_over(code: u8) -> bool {
    code == 0xC4 || code == 0xDB || code == 0xDD || code == 0xFE || 0xE0 <= code <= 0xEF
}

/// The number that two bytes spell, the greater byte first.
pub open spec fn two_bytes(high: u8, low: u8) -> int {
    high * 256 + low
}

/// The place of the code of the first frame header that is met from `from`
/// on. Markers are read one after the other. A segment that may stand in
/// front of the frame is passed over by the length that its first two bytes
/// spell; any other marker ends the search, as the end of the file does.
pub open spec fn first_frame(bytes: Seq<u8>, from: int) -> Option<int>
    decreases bytes.len() - from,
{
    match next_marker(bytes, from) {
        None => None,
        Some(at) => if is_frame_code(bytes[at]) {
            Some(at)
        } else if is_passed_over(bytes[at]) && from < at && at + 2 < bytes.len() {
            let length = two_bytes(bytes[at + 1], bytes[at + 2]);
            if 2 <= length && at + 1 + length <= bytes.len() {
                first_frame(bytes, at + 1 + length)
            } else {
                None
            }
        } else {
            None
        },
    }
}

/// The place of the code of the frame header of a JPEG file: the first that
/// is met behind the two bytes that start the image.
pub open spec fn jpeg_frame(bytes: Seq<u8>) -> Option<int> {
    if bytes.len() >= 2 && bytes[0] == 0xFF && bytes[1] == 0xD8 {
        first_frame(bytes, 2)
    } else {
        None
    }
}

/// The greatest height and the greatest width of a JPEG frame that is decoded.
pub const MAX_JPEG_EXTENT: u16 = 65528;

/// What stands against handing a file to the decoder: the frame header of a
/// JPEG file that tells a lossless frame, or a height or a width above 65528.
/// Behind the code of a frame stand two bytes of length, one of precision,
/// two bytes of height and two bytes of width.
pub open spec fn refusal(bytes: Seq<u8>) -> Option<Error> {
    match jpeg_frame(bytes) {
        None => None,
        Some(at) => if is_lossless_code(bytes[at]) {
            Some(Error::LosslessJpeg)
        } else if at + 5 < bytes.len() && two_bytes(bytes[at + 4], bytes[at + 5])
            > MAX_JPEG_EXTENT {
            Some(Error::LargeJpeg)
        } else if at + 7 < bytes.len() && two_bytes(bytes[at + 6], bytes[at + 7])
            > MAX_JPEG_EXTENT {
            Some(Error::LargeJpeg)
        } else {
            None
        },
    }
}

/// The place of the code of the next marker from `from` on.
fn find_marker(bytes: &[u8], from: usize) -> (found: Option<usize>)
    ensures
        found matches Some(at) ==> next_marker(bytes@, from as int) == Some(at as int) && from
            < at < bytes@.len(),
        found is None ==> next_marker(bytes@, from as int) is None,
{
    let mut i: usize = from;
    while i < bytes.len() && i + 1 < bytes.len()
        invariant
            from <= i,
            next_marker(bytes@, from as int) == next_marker(bytes@, i as int),
        decreases bytes@.len() - i,
    {
        let code: u8 = bytes[i + 1];
        if bytes[i] == 0xFF && code != 0xFF && code != 0 {
            return Some(i + 1);
        }
        i += 1;
    }
    None
}

/// The place of the code of the frame header of a JPEG file.
pub fn find_frame(bytes: &[u8]) -> (found: Option<usize>)
    ensures
        found matches Some(at) ==> jpeg_frame(bytes@) == Some(at as int) && at < bytes@.len(),
        found is None ==> jpeg_frame(bytes@) is None,
{
    if bytes.len() < 2 || bytes[0] != 0xFF || bytes[1] != 0xD8 {
        return None;
    }
    let mut from: usize = 2;
    loop
        invariant
            from <= bytes@.len(),
            bytes@.len() >= 2,
            bytes@[0] == 0xFF,
            bytes@[1] == 0xD8,
            first_frame(bytes@, 2) == first_frame(bytes@, from as int),
        decreases bytes@.len() - from,
    {
        let at: usize = match find_marker(bytes, from) {
            None => {
                return None;
            },
            Some(at) => at,
        };
        let code: u8 = bytes[at];
        if code >= 0xC0 && code <= 0xCF && code != 0xC4 && code != 0xC8 && code != 0xCC {
            return Some(at);
        }
        let passed: bool = code == 0xC4 || code == 0xDB || code == 0xDD || code == 0xFE || (code
            >= 0xE0 && code <= 0xEF);
        if !passed || bytes.len() - at <= 2 {
            return None;
        }
        let length: usize = bytes[at + 1] as usize * 256 + bytes[at + 2] as usize;
        if length < 2 || length > bytes.len() - at - 1 {
            return None;
        }
        from = at + 1 + length;
    }
}

/// Looks at the frame header of a JPEG file for what stands against handing
/// the file to the decoder. Of a file that is no JPEG file nothing does.
pub fn frame_refusal(bytes: &[u8]) -> (refused: Option<Error>)
    ensures
        refused == refusal(bytes@),
{
    match find_frame(bytes) {
        None => None,
        Some(at) => {
            let code: u8 = bytes[at];
            let lossless: bool = code == 0xC3 || code == 0xC7 || code == 0xCB || code == 0xCF;
            if lossless {
                Some(Error::LosslessJpeg)
            } else if bytes.len() - at > 5 && bytes[at + 4] as u32 * 256 + bytes[at + 5] as u32
                > MAX_JPEG_EXTENT as u32 {
                Some(Error::LargeJpeg)
            } else if bytes.len() - at > 7 && bytes[at + 6] as u32 * 256 + bytes[at + 7] as u32
                > MAX_JPEG_EXTENT as u32 {
                Some(Error::LargeJpeg)
            } else {
                None
            }
        },
    }
}

/// Decodes the bytes of an image file with `image::io::Reader::decode`, in
/// the format that `image::ImageFormat::from_extension` reads off the
/// extension, or in none where it reads none, and converts the image with
/// `DynamicImage::into_rgba8`. An error is handed back as the text that
/// `image::ImageError` gives of itself through `Debug`.
///
/// Kept out: JPEG files whose frame header tells a lossless frame, or a
/// height or a width above 65528. On a lossless frame of another precision
/// than 8 the decoder panics, and on the last blocks of a frame that large it
/// multiplies a count of blocks by 8 beyond 16 bits. The decoder takes the
/// frame header from the first frame marker that it reads. It reads a marker
/// code only from a byte behind a byte 0xFF, and in front of the frame it
/// passes over tables, restart intervals, comments and application data by
/// exactly their length; `jpeg_frame` walks the same way.
///
/// Claimed: an image buffer of the crate holds no fewer bytes than four for
/// each pixel. Nothing is claimed of the pixels or of the text.
#[verifier::external_body]
fn decode_rgba8(bytes: &[u8], extension: &str) -> (result: Result<DecodedImage, String>)
    requires
        refusal(bytes@) is None,
    ensures
        result matches Ok(img) ==> img.format == PixelFormat::Rgba && img.wf(),
{
    let mut reader = image::io::Reader::new(std::io::Cursor::new(bytes));
    if let Some(format) = image::ImageFormat::from_extension(extension) {
        reader.set_format(format);
    }
    let buffer = reader.decode().map_err(|e| format!("{:?}", e))?.into_rgba8();
    Ok(
        DecodedImage {
            width: buffer.width(),
            height: buffer.height(),
            format: PixelFormat::Rgba,
            pixels: buffer.into_raw(),
        },
    )
}

/// Decodes as `decode_rgba8` does, and converts the image with
/// `DynamicImage::into_rgb8`.
///
/// Kept out: the same JPEG files as there.
///
/// Claimed: an image buffer of the crate holds no fewer bytes than three for
/// each pixel. Nothing is claimed of the pixels or of the text.
#[verifier::external_body]
fn decode_rgb8(bytes: &[u8], extension: &str) -> (result: Result<DecodedImage, String>)
    requires
        refusal(bytes@) is None,
    ensures
        result matches Ok(img) ==> img.format == PixelFormat::Rgb && img.wf(),
{
    let mut reader = image::io::Reader::new(std::io::Cursor::new(bytes));
    if let Some(format) = image::ImageFormat::from_extension(extension) {
        reader.set_format(format);
    }
    let buffer = reader.decode().map_err(|e| format!("{:?}", e))?.into_rgb8();
    Ok(
        DecodedImage {
            width: buffer.width(),
            height: buffer.height(),
            format: PixelFormat::Rgb,
            pixels: buffer.into_raw(),
        },
    )
}

/// What can go wrong with a resource.
#[derive(Debug, PartialEq, Eq)]
pub enum Error {
    /// The file could not be read; the text is that of the operating system.
    Io(String),
    /// The file holds a zero byte, at this place, and cannot be handed to the
    /// device as a text.
    FileContainsNil(usize),
    /// The directory of the program is not known.
    FailedToGetExePath,
    /// The file does not decode as an image; the text is the decoder's own.
    FailedToDecodeImage(String),
    /// The file is a JPEG file with a lossless frame. Such frames are not
    /// decoded.
    LosslessJpeg,
    /// The file is a JPEG file with a frame higher or wider than 65528. Such
    /// frames are not decoded.
    LargeJpeg,
}

impl Error {
    /// The text of the error for diagnostics: the name of its kind and, in
    /// brackets, what it holds.
    pub open spec fn description(&self) -> Seq<char> {
        match *self {
            Error::Io(cause) => "Io("@ + cause@ + ")"@,
            Error::FileContainsNil(at) => "FileContainsNil("@ + decimal(at as nat) + ")"@,
            Error::FailedToGetExePath => "FailedToGetExePath"@,
            Error::FailedToDecodeImage(cause) => "FailedToDecodeImage("@ + cause@ + ")"@,
            Error::LosslessJpeg => "LosslessJpeg"@,
            Error::LargeJpeg => "LargeJpeg"@,
        }
    }

    /// The text of the error for diagnostics.
    pub fn describe(&self) -> (text: String)
        ensures
            text@ == self.description(),
    {
        match self {
            Error::Io(cause) => {
                let mut text = String::from_str("Io(");
                text.append(cause.as_str());
                text.append(")");
                text
            },
            Error::FileContainsNil(at) => {
                let mut text = String::from_str("FileContainsNil(");
                let place = decimal_string(*at as u64);
                text.append(place.as_str());
                text.append(")");
                text
            },
            Error::FailedToGetExePath => String::from_str("FailedToGetExePath"),
            Error::FailedToDecodeImage(cause) => {
                let mut text = String::from_str("FailedToDecodeImage(");
                text.append(cause.as_str());
                text.append(")");
                text
            },
            Error::LosslessJpeg => String::from_str("LosslessJpeg"),
            Error::LargeJpeg => String::from_str("LargeJpeg"),
        }
    }
}

/// Whether `outcome` can be what loading an image file with these bytes, as
/// pixels of `format`, comes to. A file that is refused before the decoder is
/// asked gives the error of the refusal. Every other file goes to the
/// decoder, and the decoder decides: it gives an image of that format whose
/// buffer holds every pixel, or its own error.
pub open spec fn loaded_fits(
    bytes: Seq<u8>,
    format: PixelFormat,
    outcome: Result<DecodedImage, Error>,
) -> bool {
    match refusal(bytes) {
        Some(error) => outcome == Err::<DecodedImage, Error>(error),
        None => match outcome {
            Ok(image) => image.format == format && image.wf(),
            Err(error) => error is FailedToDecodeImage,
        },
    }
}

/// What the answer of the decoder comes to: its image, or the error that
/// holds its text.
pub fn decoded(answer: Result<DecodedImage, String>) -> (outcome: Result<DecodedImage, Error>)
    ensures
        outcome == (match answer {
            Ok(image) => Ok::<DecodedImage, Error>(image),
            Err(text) => Err::<DecodedImage, Error>(Error::FailedToDecodeImage(text)),
        }),
{
    match answer {
        Ok(image) => Ok(image),
        Err(text) => Err(Error::FailedToDecodeImage(text)),
    }
}

/// Finds the resources of the program below one directory.
#[derive(Debug)]
pub struct ResourceLoader {
    root_path: String,
}

impl ResourceLoader {
    /// The directory below which the resources lie.
    pub closed spec fn root(&self) -> Seq<char> {
        self.root_path@
    }

    /// The loader for the directory `rel_path` below `exe_dir`, the directory
    /// of the running program. Where that directory is not known there is no
    /// loader.
    pub fn from_relative_exe_path(exe_dir: Option<&str>, rel_path: &str) -> (result: Result<
        ResourceLoader,
        Error,
    >)
        ensures
            exe_dir is None ==> result matches Err(Error::FailedToGetExePath),
            exe_dir matches Some(dir) ==> result is Ok && result->Ok_0.root() == absolute_path(
                dir@,
                rel_path@,
            ),
    {
        match exe_dir {
            None => Err(Error::FailedToGetExePath),
            Some(dir) => Ok(
                ResourceLoader { root_path: relative_to_absolute_resource_path(dir, rel_path) },
            ),
        }
    }

    /// The directory below which the resources lie.
    pub fn root_path(&self) -> (path: &str)
        ensures
            path@ == self.root(),
    {
        self.root_path.as_str()
    }

    /// The path of the file of a resource.
    pub fn resolve(&self, resource_path: &str) -> (path: String)
        ensures
            path@ == absolute_path(self.root(), resource_path@),
    {
        relative_to_absolute_resource_path(self.root_path.as_str(), resource_path)
    }

    /// The path of a file that the resource `resource_path` names by `uri`,
    /// as seen from its own directory: a buffer or an image of a model.
    pub fn resolve_beside(&self, resource_path: &str, uri: &str) -> (path: String)
        ensures
            path@ == absolute_path(
                absolute_path(self.root(), directory_of(resource_path@)),
                uri@,
            ),
    {
        let directory = self.resolve(parent_directory(resource_path));
        relative_to_absolute_resource_path(directory.as_str(), uri)
    }

    /// The text of a file for the device: the bytes of the file with a zero
    /// byte behind them. A file that holds a zero byte itself is refused, with
    /// the place of its first one.
    pub fn load_cstring(bytes: Vec<u8>) -> (result: Result<Vec<u8>, Error>)
        ensures
            !bytes@.contains(0u8) ==> result is Ok && result->Ok_0@ == bytes@.push(0u8),
            bytes@.contains(0u8) ==> (result matches Err(Error::FileContainsNil(at)) && 0 <= at
                < bytes@.len() && bytes@[at as int] == 0 && forall|j: int|
                0 <= j < at ==> bytes@[j] != 0),
    {
        let mut i: usize = 0;
        while i < bytes.len()
            invariant
                i <= bytes@.len(),
                forall|j: int| 0 <= j < i ==> bytes@[j] != 0,
            decreases bytes@.len() - i,
        {
            if bytes[i] == 0 {
                return Err(Error::FileContainsNil(i));
            }
            i += 1;
        }
        let mut text = bytes;
        text.push(0);
        Ok(text)
    }

    /// Decodes the bytes of the file of an image resource into pixels of four
    /// channels. A JPEG file whose frame the decoder cannot take is refused
    /// before the decoder is asked. Every other file is handed to the decoder
    /// with the extension of its path, off which the decoder reads the
    /// format; its error is handed on with its own text.
    pub fn load_image(&self, bytes: &[u8], resource_path: &str) -> (result: Result<
        DecodedImage,
        Error,
    >)
        ensures
            loaded_fits(bytes@, PixelFormat::Rgba, result),
    {
        match frame_refusal(bytes) {
            Some(error) => Err(error),
            None => {
                let path = self.resolve(resource_path);
                decoded(decode_rgba8(bytes, extension(path.as_str())))
            },
        }
    }

    /// Decodes the bytes of the file of an image resource into pixels of three
    /// channels, as `load_image` does into four.
    pub fn load_jpg(&self, bytes: &[u8], resource_path: &str) -> (result: Result<
        DecodedImage,
        Error,
    >)
        ensures
            loaded_fits(bytes@, PixelFormat::Rgb, result),
    {
        match frame_refusal(bytes) {
            Some(error) => Err(error),
            None => {
                let path = self.resolve(resource_path);
                decoded(decode_rgb8(bytes, extension(path.as_str())))
            },
        }
    }
}

} // verus!
