//! Describing a file by its path or its URL.
use vstd::prelude::*;

use super::message::File;

verus! {

/// What parsing a text as a URL gives: its serialization and the last
/// segment of its path (`None` for a URL that cannot be a base).
pub uninterp spec fn parsed_url_of(text: Seq<char>) -> Option<(Seq<char>, Option<Seq<char>>)>;

/// The first media type that `mime_guess` guesses from a path's extension.
pub uninterp spec fn mime_guess_of(path: Seq<char>) -> Option<Seq<char>>;

/// The media type that a text parses to, as `mime` prints it back.
pub uninterp spec fn mime_parse_of(text: Seq<char>) -> Option<Seq<char>>;

/// Whether a text parses as a URI.
pub uninterp spec fn uri_parses(text: Seq<char>) -> bool;

/// The decimal number that a text parses to, as `u64`'s `FromStr` reads it.
pub uninterp spec fn u64_of(text: Seq<char>) -> Option<u64>;

/// The last component of a path, as `Path::file_name` finds it.
pub uninterp spec fn file_name_of(path: Seq<char>) -> Option<Seq<char>>;

/// A URL that parsed: its serialization and the last segment of its path.
struct ParsedUrl {
    serialized: String,
    last_segment: Option<String>,
}

/// Relies on `url::Url::parse`; the URL is read back with `Url::as_str`
/// and the last item of `Url::path_segments`.
#[verifier::external_body]
fn parse_url(text: &str) -> (r: Option<ParsedUrl>)
    ensures
        match parsed_url_of(text@) {
            Some((s, seg)) => r matches Some(p) && p.serialized@ == s && (match seg {
                Some(x) => p.last_segment matches Some(y) && y@ == x,
                None => p.last_segment is None,
            }),
            None => r is None,
        },
{
    url::Url::parse(text).ok().map(
        |u| ParsedUrl {
            serialized: u.as_str().to_string(),
            last_segment: u.path_segments().and_then(|s| s.last()).map(|s| s.to_string()),
        },
    )
}

/// Relies on `mime_guess::from_path` and `MimeGuess::first`: the first
/// media type known for the path's extension, printed.
#[verifier::external_body]
fn guess_mime(path: &str) -> (r: Option<String>)
    ensures
        match mime_guess_of(path@) {
            Some(m) => r matches Some(x) && x@ == m,
            None => r is None,
        },
{
    mime_guess::from_path(path).first().map(|m| m.to_string())
}

/// Relies on `mime::Mime`'s `FromStr`: the media type a text names,
/// printed back.
#[verifier::external_body]
fn parse_mime(text: &str) -> (r: Option<String>)
    ensures
        match mime_parse_of(text@) {
            Some(m) => r matches Some(x) && x@ == m,
            None => r is None,
        },
{
    text.parse::<mime::Mime>().ok().map(|m| m.to_string())
}

/// Relies on `hyper::Uri`'s `FromStr`: whether the text is a URI.
#[verifier::external_body]
fn check_uri(text: &str) -> (r: bool)
    ensures
        r == uri_parses(text@),
{
    text.parse::<hyper::Uri>().is_ok()
}

/// Relies on `u64`'s `FromStr`: the decimal number a text holds.
#[verifier::external_body]
fn parse_u64(text: &str) -> (r: Option<u64>)
    ensures
        r == u64_of(text@),
{
    text.parse::<u64>().ok()
}

/// Relies on `std::path::Path::file_name`: the last component of a path,
/// if it is one (not `..`) and is text.
#[verifier::external_body]
fn path_file_name(path: &str) -> (r: Option<String>)
    ensures
        match file_name_of(path@) {
            Some(n) => r matches Some(x) && x@ == n,
            None => r is None,
        },
{
    std::path::Path::new(path).file_name().and_then(|s| s.to_str()).map(|s| s.to_string())
}

/// Why a file cannot be described.
#[derive(Clone, Copy, Debug, PartialEq, Eq, Structural)]
pub enum FileError {
    /// The text is not a URL.
    InvalidUrl,
    /// The location is not a URI.
    InvalidUri,
}

/// The text of an optional text, empty where there is none.
pub open spec fn or_empty(t: Option<Seq<char>>) -> Seq<char> {
    match t {
        Some(x) => x,
        None => Seq::empty(),
    }
}

/// The text of an optional `String` is the optional text.
pub open spec fn text_is(r: Option<String>, t: Option<Seq<char>>) -> bool {
    match t {
        Some(x) => r matches Some(y) && y@ == x,
        None => r is None,
    }
}

/// The media type of a file named `name`: guessed from its extension, else
/// what the server said, if that parses.
pub open spec fn url_mime(name: Seq<char>, content_type: Option<Seq<char>>) -> Option<Seq<char>> {
    match mime_guess_of(name) {
        Some(m) => Some(m),
        None => match content_type {
            Some(ct) => mime_parse_of(ct),
            None => None,
        },
    }
}

/// `f` describes the local file at `path` of `size` bytes.
pub open spec fn describes_path(f: File, path: Seq<char>, size: u64) -> bool {
    &&& f.id is None
    &&& f.base64 is None
    &&& f.name@ == or_empty(file_name_of(path))
    &&& text_is(f.uri, Some(path))
    &&& f.size == Some(size)
    &&& text_is(f.mime, mime_guess_of(path))
}

impl File {
    /// The file that a URL names, given the `Content-Length` and
    /// `Content-Type` that the server answered a `HEAD` request with. Its
    /// name is the last segment of the URL's path.
    pub fn from_url_response(
        url: &str,
        content_length: Option<&str>,
        content_type: Option<&str>,
    ) -> (r: Result<File, FileError>)
        ensures
            match parsed_url_of(url@) {
                None => r == Err::<File, FileError>(FileError::InvalidUrl),
                Some((serialized, segment)) => if !uri_parses(serialized) {
                    r == Err::<File, FileError>(FileError::InvalidUri)
                } else {
                    r matches Ok(f) && f.id is None && f.base64 is None && f.name@ == or_empty(
                        segment,
                    ) && text_is(f.uri, Some(serialized)) && f.size == (match content_length {
                        Some(t) => u64_of(t@),
                        None => None,
                    }) && text_is(
                        f.mime,
                        url_mime(
                            or_empty(segment),
                            match content_type {
                                Some(t) => Some(t@),
                                None => None,
                            },
                        ),
                    )
                },
            },
    {
        let parsed = match parse_url(url) {
            Some(p) => p,
            None => {
                return Err(FileError::InvalidUrl);
            },
        };
        let name = match parsed.last_segment {
            Some(s) => s,
            None => String::new(),
        };
        let size = match content_length {
            Some(t) => parse_u64(t),
            None => None,
        };
        let mime = match guess_mime(name.as_str()) {
            Some(m) => Some(m),
            None => match content_type {
                Some(ct) => parse_mime(ct),
                None => None,
            },
        };
        if !check_uri(parsed.serialized.as_str()) {
            return Err(FileError::InvalidUri);
        }
        Ok(File { id: None, name, uri: Some(parsed.serialized), base64: None, mime, size })
    }

    /// The local file at `path`, of `size` bytes. Its name is the last
    /// component of the path (empty if there is none) and its media type is
    /// guessed from the extension.
    pub fn from_path_metadata(path: &str, size: u64) -> (r: Result<File, FileError>)
        ensures
            !uri_parses(path@) ==> r == Err::<File, FileError>(FileError::InvalidUri),
            uri_parses(path@) ==> (r matches Ok(f) && describes_path(f, path@, size)),
    {
        let name = match path_file_name(path) {
            Some(n) => n,
            None => String::new(),
        };
        if !check_uri(path) {
            return Err(FileError::InvalidUri);
        }
        Ok(
            File {
                id: None,
                name,
                uri: Some(path.to_owned()),
                base64: None,
                mime: guess_mime(path),
                size: Some(size),
            },
        )
    }
}

} // verus!
