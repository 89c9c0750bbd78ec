//! Where the chosen image is saved: a file in the temporary directory, named
//! after the last path segment of the image's address.

use crate::error::{agrees_in_text, Error, ErrorView};
use vstd::prelude::*;
use vstd::string::*;

verus! {

/// The directory of the saved file and the marker that its name starts with.
pub const DESTINATION_PREFIX: &'static str = "/tmp/_wally-";

/// What the crate `url` makes of a text: `None` where `Url::parse` rejects
/// it; `Some(None)` where it is a URL for which `Url::path_segments` has
/// nothing, as for `data:` and `mailto:` addresses; else the segments of its
/// path in their order, each as the parser wrote it.
pub uninterp spec fn url_path_segments(url: Seq<char>) -> Option<Option<Seq<Seq<char>>>>;

/// The texts of `segments` by their characters.
pub open spec fn segment_texts(segments: Option<Vec<String>>) -> Option<Seq<Seq<char>>> {
    match segments {
        Some(list) => Some(Seq::new(list@.len(), |i: int| list@[i]@)),
        None => None,
    }
}

/// What came of parsing, without the parser's reason for a rejection.
pub open spec fn parsed_segments(parsed: Result<Option<Vec<String>>, url::ParseError>) -> Option<
    Option<Seq<Seq<char>>>,
> {
    match parsed {
        Ok(segments) => Some(segment_texts(segments)),
        Err(_) => None,
    }
}

/// The path of the file for an image whose address has the given path
/// segments: the prefix and then the last segment.
pub open spec fn destination_of_segments(segments: Option<Seq<Seq<char>>>) -> Result<
    Seq<char>,
    ErrorView,
> {
    match segments {
        Some(list) => if list.len() > 0 {
            Ok(DESTINATION_PREFIX@ + list.last())
        } else {
            Err(ErrorView::NoPathSegments)
        },
        None => Err(ErrorView::NoPathSegments),
    }
}

/// The path of the file for an image, from what the parser made of its
/// address.
pub open spec fn destination_of_parsed(parsed: Option<Option<Seq<Seq<char>>>>) -> Result<
    Seq<char>,
    ErrorView,
> {
    match parsed {
        Some(segments) => destination_of_segments(segments),
        None => Err(ErrorView::UrlParse),
    }
}

/// Parses `url` with `Url::parse` of the crate `url` and, where that
/// succeeds, walks what `Url::path_segments` gives for the parsed URL.
///
/// Trusted: the outcome depends on the characters of `url` alone, so it has
/// a name, [`url_path_segments`]. The parser's error comes back as it is;
/// the segments come back as owned texts, in the parser's order.
#[verifier::external_body]
fn parse_path_segments(url: &str) -> (parsed: Result<Option<Vec<String>>, url::ParseError>)
    ensures
        parsed_segments(parsed) == url_path_segments(url@),
{
    match url::Url::parse(url) {
        Ok(parsed) => match parsed.path_segments() {
            Some(segments) => Ok(Some(segments.map(String::from).collect())),
            None => Ok(None),
        },
        Err(error) => Err(error),
    }
}

/// The path of the file for an image whose address has the given path
/// segments. An address without segments has no file.
pub fn destination_from_segments(segments: &Option<Vec<String>>) -> (r: Result<String, Error>)
    ensures
        agrees_in_text(r, destination_of_segments(segment_texts(*segments))),
{
    match segments {
        Some(list) => {
            if list.len() > 0 {
                let mut path = String::from_str(DESTINATION_PREFIX);
                path.append(list[list.len() - 1].as_str());
                Ok(path)
            } else {
                Err(Error::NoPathSegments)
            }
        },
        None => Err(Error::NoPathSegments),
    }
}

/// The path of the file for the image at `url_image`.
///
/// Fails where `url_image` is no URL, and where it is one without path
/// segments.
pub fn destination_path(url_image: &str) -> (r: Result<String, Error>)
    ensures
        agrees_in_text(r, destination_of_parsed(url_path_segments(url_image@))),
{
    match parse_path_segments(url_image) {
        Ok(segments) => destination_from_segments(&segments),
        Err(error) => Err(Error::UrlParse(error)),
    }
}

} // verus!
