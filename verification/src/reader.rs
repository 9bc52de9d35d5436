//! Reading the text of a file of a project, out of a folder or out of a package.

use crate::classify::{is_love_package, is_package_path};
use vstd::prelude::*;
use vstd::utf8::{
    decode_utf8, encode_scalar, encode_utf8, encode_utf8_decode_utf8, encode_utf8_valid_utf8,
    valid_utf8,
};

verus! {

/// Why the text of a file could not be had.
#[derive(Debug, Clone, Copy, PartialEq, Eq, Structural)]
pub enum ReadError {
    /// The file, the package or the entry of the package is not there, or
    /// cannot be opened.
    NotFound,
    /// The file is there and holds nothing.
    Empty,
    /// What the file holds is no text.
    Decode,
}

/// What the disk gave for one file.
#[derive(Debug, PartialEq, Eq)]
pub enum Fetched {
    /// The file is not there, or cannot be opened.
    Missing,
    /// The file as a whole.
    Bytes(Vec<u8>),
}

impl View for Fetched {
    type V = Option<Seq<u8>>;

    open spec fn view(&self) -> Option<Seq<u8>> {
        match self {
            Fetched::Missing => None,
            Fetched::Bytes(bytes) => Some(bytes@),
        }
    }
}

/// Bytes that may be absent, as a sequence.
pub open spec fn bytes_view(bytes: Option<Vec<u8>>) -> Option<Seq<u8>> {
    match bytes {
        Some(b) => Some(b@),
        None => None,
    }
}

/// A text or the reason why there is none, the text by its characters.
pub open spec fn text_view(text: Result<String, ReadError>) -> Result<Seq<char>, ReadError> {
    match text {
        Ok(t) => Ok(t@),
        Err(e) => Err(e),
    }
}

/// The unpacked bytes of the entry called `name` in the ZIP archive `archive`,
/// as the `zip` crate reads them. `None` where `archive` is no archive that the
/// crate can open, where it holds no entry of that name, and where the entry
/// cannot be unpacked: it is damaged, asks for a password, or is packed by a
/// method other than storing and deflating.
pub uninterp spec fn archive_entry(archive: Seq<u8>, name: Seq<char>) -> Option<Seq<u8>>;

/// The text that fetched bytes stand for. Bytes that are missing are not found,
/// no bytes at all count as an empty file, and bytes that are not UTF-8 cannot
/// be decoded.
pub open spec fn text_of(fetched: Option<Seq<u8>>) -> Result<Seq<char>, ReadError> {
    match fetched {
        None => Err(ReadError::NotFound),
        Some(bytes) => if bytes.len() == 0 {
            Err(ReadError::Empty)
        } else if !valid_utf8(bytes) {
            Err(ReadError::Decode)
        } else {
            Ok(decode_utf8(bytes))
        },
    }
}

/// The text of the entry called `name` of a fetched package.
pub open spec fn text_in_archive(archive: Option<Seq<u8>>, name: Seq<char>) -> Result<
    Seq<char>,
    ReadError,
> {
    match archive {
        None => Err(ReadError::NotFound),
        Some(bytes) => text_of(archive_entry(bytes, name)),
    }
}

/// The text of the file `file_path` of the project at `project_path`, where
/// `fetched` is what the disk gave: the package itself for a package path, the
/// file `file_path` under the folder for any other path.
pub open spec fn contents_of(
    project_path: Seq<char>,
    file_path: Seq<char>,
    fetched: Option<Seq<u8>>,
) -> Result<Seq<char>, ReadError> {
    if is_package_path(project_path) {
        text_in_archive(fetched, file_path)
    } else {
        text_of(fetched)
    }
}

/// A text that was read is never empty.
pub proof fn lemma_text_is_never_empty(fetched: Option<Seq<u8>>)
    ensures
        text_of(fetched) matches Ok(text) ==> text.len() > 0,
{
}

/// A file that is there and holds nothing is a failure, as a file in a
/// folder and as an entry of a package.
pub proof fn lemma_empty_file_is_a_failure(archive: Seq<u8>, name: Seq<char>)
    ensures
        text_of(Some(Seq::<u8>::empty())) == Err::<Seq<char>, ReadError>(ReadError::Empty),
        archive_entry(archive, name) == Some(Seq::<u8>::empty()) ==> text_in_archive(
            Some(archive),
            name,
        ) == Err::<Seq<char>, ReadError>(ReadError::Empty),
{
}

/// A file that holds a text, in UTF-8, is read as that text, unless the text
/// is empty.
pub proof fn lemma_text_is_read_back(text: Seq<char>)
    requires
        text.len() > 0,
    ensures
        text_of(Some(encode_utf8(text))) == Ok::<Seq<char>, ReadError>(text),
{
    encode_utf8_valid_utf8(text);
    encode_utf8_decode_utf8(text);
    assert(encode_scalar(text[0] as u32).len() > 0);
}

/// Opens `archive` with `zip::ZipArchive::new`, finds the entry with
/// `ZipArchive::by_name` and unpacks it with `std::io::Read::read_to_end`.
/// Trusted: the result is a function of the archive's bytes and the name
/// alone, which `archive_entry` names; a failure of any of the three calls
/// gives `None`, and the crate answers bytes that it cannot read with such a
/// failure. Nothing is claimed of what an archive holds.
#[verifier::external_body]
fn unpack_entry(archive: &[u8], name: &str) -> (entry: Option<Vec<u8>>)
    ensures
        bytes_view(entry) == archive_entry(archive@, name@),
{
    let mut opened = zip::ZipArchive::new(std::io::Cursor::new(archive)).ok()?;
    let mut file = opened.by_name(name).ok()?;
    let mut bytes = Vec::new();
    std::io::Read::read_to_end(&mut file, &mut bytes).ok()?;
    Some(bytes)
}

/// Reads bytes as UTF-8 with `std::str::from_utf8`. Trusted: there is a text
/// exactly when the bytes are valid UTF-8, and the encoding of that text is
/// these bytes.
#[verifier::external_body]
fn utf8_text<'a>(bytes: &'a [u8]) -> (text: Option<&'a str>)
    ensures
        text is Some <==> valid_utf8(bytes@),
        text matches Some(t) ==> encode_utf8(t@) == bytes@,
{
    std::str::from_utf8(bytes).ok()
}

/// The text that what was fetched of a file stands for. A file that is missing
/// is not found, a file of no bytes is empty, and bytes that are not UTF-8
/// cannot be decoded.
pub fn read_text(fetched: &Fetched) -> (text: Result<String, ReadError>)
    ensures
        text_view(text) == text_of(fetched@),
{
    match fetched {
        Fetched::Missing => Err(ReadError::NotFound),
        Fetched::Bytes(bytes) => {
            if bytes.len() == 0 {
                return Err(ReadError::Empty);
            }
            match utf8_text(bytes.as_slice()) {
                None => Err(ReadError::Decode),
                Some(t) => {
                    proof {
                        // The text is what decoding the bytes gives, because
                        // decoding undoes encoding.
                        encode_utf8_decode_utf8(t@);
                    }
                    Ok(t.to_owned())
                },
            }
        },
    }
}

/// Gets the contents of the file `file_path_in_archive` that is in a package.
pub fn get_file_contents_from_archive(archive: &Fetched, file_path_in_archive: &str) -> (text:
    Result<String, ReadError>)
    ensures
        text_view(text) == text_in_archive(archive@, file_path_in_archive@),
{
    match archive {
        Fetched::Missing => Err(ReadError::NotFound),
        Fetched::Bytes(bytes) => {
            let entry = match unpack_entry(bytes.as_slice(), file_path_in_archive) {
                Some(unpacked) => Fetched::Bytes(unpacked),
                None => Fetched::Missing,
            };
            read_text(&entry)
        },
    }
}

/// Gets the contents of the file `file_path` of the project at `project_path`.
/// For a package path `fetched` is the package and the file is an entry of it;
/// for any other path `fetched` is the file itself.
pub fn get_file_contents(project_path: &str, file_path: &str, fetched: &Fetched) -> (text: Result<
    String,
    ReadError,
>)
    ensures
        text_view(text) == contents_of(project_path@, file_path@, fetched@),
{
    if is_love_package(project_path) {
        get_file_contents_from_archive(fetched, file_path)
    } else {
        read_text(fetched)
    }
}

} // verus!
