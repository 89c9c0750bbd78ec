//! The run from one network call to the next: what to ask for after each
//! answer of the catalog, and when to stop.
//!
//! A run asks for the count, draws an index, asks for the page of that
//! index, and saves the image of the wallpaper at the index's offset. The
//! caller makes the calls; each function here takes the answer to one call
//! and says what the next one is.

use crate::catalog::{
    count_from_response, count_outcome, count_url, count_url_spec, popular_url, popular_url_spec,
    wallpapers_from_response, wallpapers_outcome, Wallpaper, WallpaperCountResponse,
    WallpapersResponse,
};
use crate::download::{destination_of_parsed, destination_path, url_path_segments};
use crate::error::{Error, ErrorView};
use crate::select::{draw_index, offset_of, offset_of_index, page_of, page_of_index};
use vstd::prelude::*;

verus! {

/// What a run is started with: the key for the catalog and the size of the
/// wallpapers to choose from.
#[derive(Debug, Clone)]
pub struct Request {
    pub api_key: String,
    pub width: u32,
    pub height: u32,
}

/// The second call of a run: the drawn index, and the address of the page
/// to ask for.
#[derive(Debug, Clone)]
pub struct PageRequest {
    pub index: u32,
    pub url: String,
}

/// The last call of a run: the address of the image, and the path of the
/// file to save it in.
#[derive(Debug, Clone)]
pub struct Download {
    pub url: String,
    pub path: String,
}

/// A [`Download`] by the characters of its two texts.
pub struct DownloadView {
    pub url: Seq<char>,
    pub path: Seq<char>,
}

impl View for Download {
    type V = DownloadView;

    open spec fn view(&self) -> DownloadView {
        DownloadView { url: self.url@, path: self.path@ }
    }
}

impl PageRequest {
    /// Whether this is the call for `index` in a run started with
    /// `request`: the page asked for is the page of the index.
    pub open spec fn is_for(&self, request: Request, index: u32) -> bool {
        &&& self.index == index
        &&& self.url@ == popular_url_spec(
            request.api_key@,
            request.width,
            request.height,
            page_of_index(index as nat) as u32,
        )
    }
}

/// What the answer to the page request amounts to for a run that drew
/// `index`: the download of the wallpaper at the index's offset in the
/// list, or why there is none.
pub open spec fn download_outcome(index: u32, response: WallpapersResponse) -> Result<
    DownloadView,
    ErrorView,
> {
    match wallpapers_outcome(response) {
        Err(error) => Err(error),
        Ok(wallpapers) => {
            let offset = offset_of_index(index as nat) as int;
            if offset >= wallpapers@.len() {
                Err(ErrorView::NoSuchEntry)
            } else {
                wallpaper_download_outcome(wallpapers@[offset])
            }
        },
    }
}

/// The download of one wallpaper: its image, saved under the name that its
/// address gives.
pub open spec fn wallpaper_download_outcome(wallpaper: Wallpaper) -> Result<
    DownloadView,
    ErrorView,
> {
    match destination_of_parsed(url_path_segments(wallpaper.url_image@)) {
        Err(error) => Err(error),
        Ok(path) => Ok(DownloadView { url: wallpaper.url_image@, path }),
    }
}

/// Whether `result` is what `expected` says, texts taken by their
/// characters.
pub open spec fn download_agrees(
    result: Result<Download, Error>,
    expected: Result<DownloadView, ErrorView>,
) -> bool {
    match expected {
        Ok(download) => result is Ok && result->Ok_0@ == download,
        Err(error) => result is Err && result->Err_0@ == error,
    }
}

/// An image whose address is no URL, or a URL without path segments, is
/// never downloaded: the run fails with a parse error, and no file is named.
pub proof fn lemma_no_download_without_segments(wallpaper: Wallpaper)
    requires
        match url_path_segments(wallpaper.url_image@) {
            Some(Some(segments)) => segments.len() == 0,
            _ => true,
        },
    ensures
        wallpaper_download_outcome(wallpaper) is Err,
        url_path_segments(wallpaper.url_image@) is None ==> wallpaper_download_outcome(wallpaper)
            == Err::<DownloadView, ErrorView>(ErrorView::UrlParse),
        url_path_segments(wallpaper.url_image@) is Some ==> wallpaper_download_outcome(wallpaper)
            == Err::<DownloadView, ErrorView>(ErrorView::NoPathSegments),
{
}

/// A run that drew `index` downloads the wallpaper at the index's offset in
/// the list it was sent, and none where the list is too short for it.
pub proof fn lemma_download_at_offset(index: u32, response: WallpapersResponse)
    requires
        response.success,
        response.wallpapers is Some,
    ensures
        offset_of_index(index as nat) < response.wallpapers->0@.len() ==> download_outcome(
            index,
            response,
        ) == wallpaper_download_outcome(
            response.wallpapers->0@[offset_of_index(index as nat) as int],
        ),
        offset_of_index(index as nat) >= response.wallpapers->0@.len() ==> download_outcome(
            index,
            response,
        ) == Err::<DownloadView, ErrorView>(ErrorView::NoSuchEntry),
{
}

/// The first call of a run: the address that answers with the count.
pub fn count_request(request: &Request) -> (url: String)
    ensures
        url@ == count_url_spec(request.api_key@, request.width, request.height),
{
    count_url(request.api_key.as_str(), request.width, request.height)
}

/// The second call of a run that drew `index`: the page of that index.
pub fn page_request_for(request: &Request, index: u32) -> (next: PageRequest)
    ensures
        next.is_for(*request, index),
{
    let page = page_of(index);
    PageRequest {
        index,
        url: popular_url(request.api_key.as_str(), request.width, request.height, page),
    }
}

/// Takes the answer to the count request, draws an index and gives the
/// second call of the run.
///
/// Fails exactly where the answer holds no count, with the error that says
/// why. Else an index is drawn from 0 up to the count itself, and the call
/// is the one for that index.
pub fn page_request(request: &Request, response: WallpaperCountResponse) -> (r: Result<
    PageRequest,
    Error,
>)
    ensures
        match count_outcome(response) {
            Ok(count) => r is Ok && r->Ok_0.index <= count && r->Ok_0.is_for(
                *request,
                r->Ok_0.index,
            ),
            Err(error) => r is Err && r->Err_0@ == error,
        },
{
    match count_from_response(response) {
        Ok(count) => {
            let index = draw_index(count);
            Ok(page_request_for(request, index))
        },
        Err(error) => Err(error),
    }
}

/// The wallpaper that a run which drew `index` takes from the page it asked
/// for: the one at the index's offset, if the page is that long.
pub fn chosen_wallpaper(index: u32, wallpapers: &Vec<Wallpaper>) -> (chosen: Option<&Wallpaper>)
    ensures
        offset_of_index(index as nat) < wallpapers@.len() ==> chosen == Some(
            &wallpapers@[offset_of_index(index as nat) as int],
        ),
        offset_of_index(index as nat) >= wallpapers@.len() ==> chosen is None,
{
    let offset = offset_of(index);
    if offset < wallpapers.len() {
        Some(&wallpapers[offset])
    } else {
        None
    }
}

/// The last call of a run that chose `wallpaper`.
///
/// Fails where the address of its image is no URL or has no path segments,
/// so that no file is named for such an address.
pub fn wallpaper_download(wallpaper: &Wallpaper) -> (r: Result<Download, Error>)
    ensures
        download_agrees(r, wallpaper_download_outcome(*wallpaper)),
{
    match destination_path(wallpaper.url_image.as_str()) {
        Ok(path) => Ok(Download { url: wallpaper.url_image.clone(), path }),
        Err(error) => Err(error),
    }
}

/// Takes the answer to the page request of a run that drew `index`, and
/// gives the last call of the run.
///
/// Fails where the answer holds no list, where the list has no wallpaper at
/// the index's offset, and where the address of the chosen image names no
/// file.
pub fn download(index: u32, response: WallpapersResponse) -> (r: Result<Download, Error>)
    ensures
        download_agrees(r, download_outcome(index, response)),
{
    match wallpapers_from_response(response) {
        Ok(wallpapers) => match chosen_wallpaper(index, &wallpapers) {
            Some(wallpaper) => wallpaper_download(wallpaper),
            None => Err(Error::NoSuchEntry),
        },
        Err(error) => Err(error),
    }
}

} // verus!
