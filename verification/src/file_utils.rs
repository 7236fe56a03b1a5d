//! What a file's path says about the dataset in it: its label and its format.

use std::path::Path;
use vstd::prelude::*;
use vstd::utf8::encode_utf8_decode_utf8;

use crate::error::PeepError;

verus! {

/// File formats that can be opened as a dataset.
#[derive(Clone, Copy, Debug, PartialEq, Eq, Structural)]
pub enum FileType {
    Parquet,
    Csv,
}

/// The stem that `std::path::Path::file_stem` finds in a path: its last
/// component without the extension, if the path has a last component.
pub uninterp spec fn path_file_stem(path: Seq<char>) -> Option<Seq<char>>;

/// The extension that `std::path::Path::extension` finds in a path: what follows
/// the last dot of its last component, if there is such a dot and it is not the
/// component's first character.
pub uninterp spec fn path_extension(path: Seq<char>) -> Option<Seq<char>>;

/// The characters of an optional string slice.
pub open spec fn text_of(s: Option<&str>) -> Option<Seq<char>> {
    match s {
        Some(s) => Some(s@),
        None => None,
    }
}

/// Calls `std::path::Path::file_stem` on the path. Trusted: the result is the
/// stem that [`path_file_stem`] names.
#[verifier::external_body]
fn file_stem<'a>(path: &'a str) -> (stem: Option<&'a str>)
    ensures
        text_of(stem) == path_file_stem(path@),
{
    Path::new(path).file_stem().and_then(|stem| stem.to_str())
}

/// Calls `std::path::Path::extension` on the path. Trusted: the result is the
/// extension that [`path_extension`] names.
#[verifier::external_body]
fn extension<'a>(path: &'a str) -> (ext: Option<&'a str>)
    ensures
        text_of(ext) == path_extension(path@),
{
    Path::new(path).extension().and_then(|ext| ext.to_str())
}

/// Whether two string slices hold the same characters.
pub fn same_text(a: &str, b: &str) -> (same: bool)
    ensures
        same == (a@ == b@),
{
    let x = a.as_bytes();
    let y = b.as_bytes();
    proof {
        encode_utf8_decode_utf8(a@);
        encode_utf8_decode_utf8(b@);
    }
    if x.len() != y.len() {
        return false;
    }
    let mut i: usize = 0;
    while i < x.len()
        invariant
            i <= x.len(),
            x.len() == y.len(),
            x@ == vstd::utf8::encode_utf8(a@),
            y@ == vstd::utf8::encode_utf8(b@),
            forall|j: int| 0 <= j < i ==> x@[j] == y@[j],
        decreases x.len() - i,
    {
        if x[i] != y[i] {
            return false;
        }
        i += 1;
    }
    assert(x@ =~= y@);
    true
}

/// The format that an extension stands for.
pub open spec fn format_of(ext: Option<Seq<char>>) -> Result<FileType, PeepError> {
    match ext {
        None => Err(PeepError::MissingExtension),
        Some(e) => if e == "parquet"@ {
            Ok(FileType::Parquet)
        } else if e == "csv"@ {
            Ok(FileType::Csv)
        } else {
            Err(PeepError::UnsupportedFormat)
        },
    }
}

/// Tells the format by the extension: `parquet` and `csv` are known, in lower
/// case only.
pub fn file_type_for(ext: Option<&str>) -> (r: Result<FileType, PeepError>)
    ensures
        r == format_of(text_of(ext)),
{
    match ext {
        None => Err(PeepError::MissingExtension),
        Some(e) => {
            if same_text(e, "parquet") {
                Ok(FileType::Parquet)
            } else if same_text(e, "csv") {
                Ok(FileType::Csv)
            } else {
                Err(PeepError::UnsupportedFormat)
            }
        },
    }
}

/// The label of the dataset in the file at `file_path`: the file's name without
/// its extension.
pub fn extract_file_name(file_path: &str) -> (name: Option<&str>)
    ensures
        text_of(name) == path_file_stem(file_path@),
{
    file_stem(file_path)
}

/// The format of the file at `file_path`, told by its extension.
pub fn extract_file_type(file_path: &str) -> (r: Result<FileType, PeepError>)
    ensures
        r == format_of(path_extension(file_path@)),
{
    file_type_for(extension(file_path))
}

/// What a path says of the file to open: the label of the dataset and the
/// format to read it in. A path without a file name fails first, then one
/// without a known extension.
pub open spec fn is_description(
    r: Result<(String, FileType), PeepError>,
    stem: Option<Seq<char>>,
    ext: Option<Seq<char>>,
) -> bool {
    match stem {
        None => r == Err::<(String, FileType), PeepError>(PeepError::MissingFileName),
        Some(name) => match format_of(ext) {
            Err(e) => r == Err::<(String, FileType), PeepError>(e),
            Ok(format) => r matches Ok((label, file_type)) && label@ == name && file_type
                == format,
        },
    }
}

/// Puts the description of a file together from its stem and its extension.
pub fn description_for(
    stem: Option<&str>,
    ext: Option<&str>,
) -> (r: Result<(String, FileType), PeepError>)
    ensures
        is_description(r, text_of(stem), text_of(ext)),
{
    match stem {
        None => Err(PeepError::MissingFileName),
        Some(name) => match file_type_for(ext) {
            Err(e) => Err(e),
            Ok(format) => Ok((name.to_owned(), format)),
        },
    }
}

/// Describes the file at `file_path` before it is opened: the label of its
/// dataset and its format.
pub fn describe_file(file_path: &str) -> (r: Result<(String, FileType), PeepError>)
    ensures
        is_description(r, path_file_stem(file_path@), path_extension(file_path@)),
{
    description_for(extract_file_name(file_path), extension(file_path))
}

} // verus!
