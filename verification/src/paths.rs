//! Where downloaded files go: names taken from URLs and joined onto folders.
use vstd::prelude::*;

use crate::text::{after_last, after_last_char};

verus! {

/// What `Path::new(dir).join(name)` gives, read back as text.  Joining
/// follows the platform's path rules, so no formula is given here.
pub uninterp spec fn joined_path(dir: Seq<char>, name: Seq<char>) -> Seq<char>;

/// Calls `std::path::Path::join`; the contract claims only that the result is
/// `joined_path` of the two arguments (the join depends on nothing else).
#[verifier::external_body]
pub(crate) fn path_join(dir: &str, name: &str) -> (r: String)
    ensures
        r@ == joined_path(dir@, name@),
{
    std::path::Path::new(dir).join(name).to_string_lossy().into_owned()
}

/// The file name that a URL names: everything after its last `/`.
pub open spec fn url_file_name(url: Seq<char>) -> Seq<char> {
    after_last(url, '/')
}

/// The name a download is saved under before any folder is put in front:
/// the one the user gave, else the URL's file name.
pub open spec fn chosen_name(url: Seq<char>, output_file: Option<Seq<char>>) -> Seq<char> {
    match output_file {
        Some(name) => name,
        None => url_file_name(url),
    }
}

/// The view of an optional string.
pub open spec fn opt_view(s: Option<&str>) -> Option<Seq<char>> {
    match s {
        Some(x) => Some(x@),
        None => None,
    }
}

/// The path a plain download is saved at, given what the download folder
/// lookup answered.
pub open spec fn resolved_path(
    url: Seq<char>,
    output_file: Option<Seq<char>>,
    download_dir: Option<Seq<char>>,
) -> Seq<char> {
    match output_file {
        Some(name) => name,
        None => match download_dir {
            Some(dir) => joined_path(dir, url_file_name(url)),
            None => url_file_name(url),
        },
    }
}

/// The file name of a URL (`url.split('/').last()`).
pub fn url_file_name_of(url: &str) -> (r: String)
    ensures
        r@ == url_file_name(url@),
{
    after_last_char(url, '/')
}

/// The user's name if one was given, else the URL's file name.
pub fn choose_name(url: &str, output_file: Option<&str>) -> (r: String)
    ensures
        r@ == chosen_name(url@, opt_view(output_file)),
{
    match output_file {
        Some(name) => String::from_str(name),
        None => url_file_name_of(url),
    }
}

/// Where a plain download is saved, given the user's download folder (`None`
/// when it is unknown): an explicit output name is used as it is; otherwise
/// the URL's file name, put inside the download folder when there is one.
pub fn resolve_output_path_with(url: &str, output_file: Option<&str>, download_dir: Option<&str>) -> (r:
    String)
    ensures
        r@ == resolved_path(url@, opt_view(output_file), opt_view(download_dir)),
{
    match output_file {
        Some(name) => String::from_str(name),
        None => {
            let fname = url_file_name_of(url);
            match download_dir {
                Some(dir) => path_join(dir, fname.as_str()),
                None => fname,
            }
        },
    }
}

/// The file name taken from a URL holds no `/`, ends the URL, and is the
/// whole URL when it holds no `/`; a name the user gives is used unchanged,
/// whatever the URL and download folder.
pub proof fn law_url_file_name(url: Seq<char>, name: Seq<char>, download_dir: Option<Seq<char>>)
    ensures
        !url_file_name(url).contains('/'),
        url_file_name(url).is_suffix_of(url),
        !url.contains('/') ==> url_file_name(url) == url,
        resolved_path(url, Some(name), download_dir) == name,
{
    crate::text::lemma_after_last(url, '/');
}

/// Where a plain download goes: an explicit name as it is; otherwise the
/// URL's file name, joined onto the download folder when one is known and
/// alone when not.
pub proof fn law_resolved_path(url: Seq<char>, dir: Seq<char>)
    ensures
        resolved_path(url, None, Some(dir)) == joined_path(dir, after_last(url, '/')),
        resolved_path(url, None, None) == after_last(url, '/'),
        chosen_name(url, None) == after_last(url, '/'),
{
}

} // verus!
