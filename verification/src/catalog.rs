//! The catalog's two queries: the addresses to ask at, and the reading of
//! what it answers.

use crate::decimal::{
    all_digits, decimal_digits, digits_value, lemma_parse_decimal_digits, parse_u32,
    parse_u32_spec, u32_to_string, unsigned_body,
};
use crate::error::{agrees, Error, ErrorView};
use vstd::prelude::*;
use vstd::string::*;

verus! {

/// The address of the catalog's endpoint.
pub const BASE_URL: &'static str = "https://wall.alphacoders.com/api2.0/get.php";

/// The method that counts the wallpapers of a size, most popular first.
pub const METHOD_COUNT: &'static str = "popular_count";

/// The method that lists one page of the wallpapers of a size, most popular
/// first.
pub const METHOD_LIST: &'static str = "popular";

/// The message of a failure for which the catalog gave none.
pub const FALLBACK_MESSAGE: &'static str = "API Error";

/// What the catalog answers when asked for a count.
#[derive(Debug, Clone)]
pub struct WallpaperCountResponse {
    pub success: bool,
    pub error: Option<String>,
    pub count: Option<String>,
}

/// One wallpaper of a listing. Width and height are texts as the catalog
/// sends them.
#[derive(Debug, Clone)]
pub struct Wallpaper {
    pub id: String,
    pub width: String,
    pub height: String,
    pub url_image: String,
}

/// What the catalog answers when asked for one page of a listing.
#[derive(Debug, Clone)]
pub struct WallpapersResponse {
    pub success: bool,
    pub error: Option<String>,
    pub wallpapers: Option<Vec<Wallpaper>>,
}

/// The address of a query with the given key and method, before the
/// parameters of the method. Key and method are put in as they are.
pub open spec fn base_url_spec(api_key: Seq<char>, method: Seq<char>) -> Seq<char> {
    BASE_URL@ + "?auth="@ + api_key + "&method="@ + method
}

/// The two parameters that restrict a query to one size.
pub open spec fn size_parameters(width: u32, height: u32) -> Seq<char> {
    "&width="@ + decimal_digits(width as nat) + "&height="@ + decimal_digits(height as nat)
}

/// The address that answers with the number of wallpapers of a size.
pub open spec fn count_url_spec(api_key: Seq<char>, width: u32, height: u32) -> Seq<char> {
    base_url_spec(api_key, METHOD_COUNT@) + size_parameters(width, height)
}

/// The address that answers with one page of the wallpapers of a size.
pub open spec fn popular_url_spec(api_key: Seq<char>, width: u32, height: u32, page: u32) -> Seq<
    char,
> {
    base_url_spec(api_key, METHOD_LIST@) + size_parameters(width, height) + "&page="@
        + decimal_digits(page as nat)
}

/// The message of a reported failure: the catalog's own where it gave one.
pub open spec fn failure_message(error: Option<String>) -> Seq<char> {
    match error {
        Some(message) => message@,
        None => FALLBACK_MESSAGE@,
    }
}

/// What a count response amounts to: the count, or why there is none.
pub open spec fn count_outcome(response: WallpaperCountResponse) -> Result<u32, ErrorView> {
    if !response.success {
        Err(ErrorView::WallpaperError(failure_message(response.error)))
    } else {
        match response.count {
            None => Err(ErrorView::MissingPayload),
            Some(count) => match parse_u32_spec(count@) {
                Ok(n) => Ok(n),
                Err(kind) => Err(ErrorView::IntParse(kind)),
            },
        }
    }
}

/// What a listing response amounts to: its wallpapers, or why there are
/// none.
pub open spec fn wallpapers_outcome(response: WallpapersResponse) -> Result<
    Vec<Wallpaper>,
    ErrorView,
> {
    if !response.success {
        Err(ErrorView::WallpaperError(failure_message(response.error)))
    } else {
        match response.wallpapers {
            None => Err(ErrorView::MissingPayload),
            Some(wallpapers) => Ok(wallpapers),
        }
    }
}

/// A success whose count is a number gives exactly that number: the one
/// that the digits denote, a leading plus sign and leading zeros counting
/// for nothing.
pub proof fn lemma_count_of_number(response: WallpaperCountResponse)
    requires
        response.success,
        response.count is Some,
        unsigned_body(response.count->0@).len() > 0,
        all_digits(unsigned_body(response.count->0@)),
        digits_value(unsigned_body(response.count->0@)) <= u32::MAX,
    ensures
        count_outcome(response) == Ok::<u32, ErrorView>(
            digits_value(unsigned_body(response.count->0@)) as u32,
        ),
{
}

/// A success whose count is `n` as it is usually written gives `n`.
pub proof fn lemma_count_of_written_number(response: WallpaperCountResponse, n: u32)
    requires
        response.success,
        response.count is Some,
        response.count->0@ == decimal_digits(n as nat),
    ensures
        count_outcome(response) == Ok::<u32, ErrorView>(n),
{
    lemma_parse_decimal_digits(n);
}

/// A reported failure makes both queries fail with the catalog's message,
/// or with the fallback message where the catalog gave none, whatever else
/// the answer holds.
pub proof fn lemma_failure_is_reported(counted: WallpaperCountResponse, listed: WallpapersResponse)
    requires
        !counted.success,
        !listed.success,
    ensures
        counted.error is Some ==> count_outcome(counted) == Err::<u32, ErrorView>(
            ErrorView::WallpaperError(counted.error->0@),
        ),
        counted.error is None ==> count_outcome(counted) == Err::<u32, ErrorView>(
            ErrorView::WallpaperError(FALLBACK_MESSAGE@),
        ),
        listed.error is Some ==> wallpapers_outcome(listed) == Err::<Vec<Wallpaper>, ErrorView>(
            ErrorView::WallpaperError(listed.error->0@),
        ),
        listed.error is None ==> wallpapers_outcome(listed) == Err::<Vec<Wallpaper>, ErrorView>(
            ErrorView::WallpaperError(FALLBACK_MESSAGE@),
        ),
{
}

/// The address of a query with the given key and method, before the
/// parameters of the method.
pub fn base_url(api_key: &str, method: &str) -> (url: String)
    ensures
        url@ == base_url_spec(api_key@, method@),
{
    let mut url = String::from_str(BASE_URL);
    url.append("?auth=");
    url.append(api_key);
    url.append("&method=");
    url.append(method);
    url
}

/// Adds the two parameters that restrict a query to one size.
fn append_size(url: &mut String, width: u32, height: u32)
    ensures
        final(url)@ == old(url)@ + size_parameters(width, height),
{
    let width_text = u32_to_string(width);
    let height_text = u32_to_string(height);
    url.append("&width=");
    url.append(width_text.as_str());
    url.append("&height=");
    url.append(height_text.as_str());
}

/// The address that answers with the number of wallpapers of a size.
pub fn count_url(api_key: &str, width: u32, height: u32) -> (url: String)
    ensures
        url@ == count_url_spec(api_key@, width, height),
{
    let mut url = base_url(api_key, METHOD_COUNT);
    append_size(&mut url, width, height);
    url
}

/// The address that answers with page `page` of the wallpapers of a size.
pub fn popular_url(api_key: &str, width: u32, height: u32, page: u32) -> (url: String)
    ensures
        url@ == popular_url_spec(api_key@, width, height, page),
{
    let mut url = base_url(api_key, METHOD_LIST);
    append_size(&mut url, width, height);
    let page_text = u32_to_string(page);
    url.append("&page=");
    url.append(page_text.as_str());
    url
}

/// The error for a failure that the catalog reported.
fn reported_failure(error: Option<String>) -> (failure: Error)
    ensures
        failure@ == ErrorView::WallpaperError(failure_message(error)),
{
    match error {
        Some(message) => Error::WallpaperError(message),
        None => Error::WallpaperError(String::from_str(FALLBACK_MESSAGE)),
    }
}

/// Reads the count out of the catalog's answer.
///
/// A reported failure comes back with the catalog's message, or with
/// [`FALLBACK_MESSAGE`] where it gave none. Of a success the count is read
/// as a decimal number.
pub fn count_from_response(response: WallpaperCountResponse) -> (r: Result<u32, Error>)
    ensures
        agrees(r, count_outcome(response)),
{
    if response.success {
        match response.count {
            None => Err(Error::MissingPayload),
            Some(count) => match parse_u32(count.as_str()) {
                Ok(n) => Ok(n),
                Err(kind) => Err(Error::IntParse(kind)),
            },
        }
    } else {
        Err(reported_failure(response.error))
    }
}

/// Takes the wallpapers out of the catalog's answer.
///
/// A reported failure comes back with the catalog's message, or with
/// [`FALLBACK_MESSAGE`] where it gave none. Of a success the list comes
/// back as it was sent, however many wallpapers it holds.
pub fn wallpapers_from_response(response: WallpapersResponse) -> (r: Result<Vec<Wallpaper>, Error>)
    ensures
        agrees(r, wallpapers_outcome(response)),
{
    if response.success {
        match response.wallpapers {
            None => Err(Error::MissingPayload),
            Some(wallpapers) => Ok(wallpapers),
        }
    } else {
        Err(reported_failure(response.error))
    }
}

} // verus!
