//! The decisions of one invocation.
//!
//! An invocation runs in a straight line: the request goes out, the reply
//! decides whether an image is downloaded and where it is stored, and the
//! result of storing it decides what the host gets back. The caller does the
//! two transfers and reports how each went; every decision is taken here.
//!
//! Only a failed call to the provider is reported to the host, as the text
//! `ERROR`. A reply without a `raw` address and an image that could not be
//! stored end the invocation with a [`Fault`]: no text is handed back for
//! them, and the host boundary treats them as fatal.

use crate::response::{ProviderResponse, ReturnDictionary};
use vstd::prelude::*;

verus! {

/// The text that reports a failed call to the provider.
pub const ERROR_SENTINEL: &'static str = "ERROR";

/// Why the call to the provider gave no reply that could be used.
#[derive(Clone, Copy, Debug, PartialEq, Eq)]
pub enum ApiError {
    /// The request did not get through, or no answer came back.
    Transport,
    /// The answer is not a JSON object with an `id` and a map of `urls`.
    Decode,
}

/// Why the image is not in its file.
#[derive(Clone, Copy, Debug, PartialEq, Eq)]
pub enum SaveError {
    /// The download failed, before or while the body was read.
    Transport,
    /// The file could not be created or written.
    FileSystem,
}

/// Why an invocation ended without a text for the host.
#[derive(Clone, Copy, Debug, PartialEq, Eq)]
pub enum Fault {
    /// The reply holds no address for the `raw` variant.
    MissingRaw,
    /// The image could not be downloaded and stored.
    Save(SaveError),
}

/// How an invocation ends, as mathematical text.
pub enum EndingView {
    Identifier(Seq<char>),
    ErrorSentinel,
    Abort(Fault),
}

/// How an invocation ends.
#[derive(Debug, PartialEq, Eq)]
pub enum Ending {
    /// The image is stored; the host gets the photo's identifier.
    Identifier(String),
    /// The call to the provider failed; the host gets [`ERROR_SENTINEL`].
    ErrorSentinel,
    /// Nothing can be handed back.
    Abort(Fault),
}

impl View for Ending {
    type V = EndingView;

    open spec fn view(&self) -> EndingView {
        match self {
            Ending::Identifier(id) => EndingView::Identifier(id@),
            Ending::ErrorSentinel => EndingView::ErrorSentinel,
            Ending::Abort(fault) => EndingView::Abort(*fault),
        }
    }
}

impl EndingView {
    /// The text that the host gets: the identifier, the sentinel, or none
    /// where the invocation was aborted.
    pub open spec fn text(self) -> Option<Seq<char>> {
        match self {
            EndingView::Identifier(id) => Some(id),
            EndingView::ErrorSentinel => Some(ERROR_SENTINEL@),
            EndingView::Abort(_) => None,
        }
    }
}

impl Ending {
    /// The text that is handed back to the host, if there is one.
    pub fn text(&self) -> (text: Option<String>)
        ensures
            text.deep_view() == self@.text(),
    {
        match self {
            Ending::Identifier(id) => Some(id.clone()),
            Ending::ErrorSentinel => Some(ERROR_SENTINEL.to_string()),
            Ending::Abort(_) => None,
        }
    }
}

/// Where the image of the photo `id` is stored under `folder`:
/// `<folder>/<id>.jpg`.
pub open spec fn destination(folder: Seq<char>, id: Seq<char>) -> Seq<char> {
    folder + "/"@ + id + ".jpg"@
}

/// The path of the file for the photo `id` under `folder`.
pub fn destination_path(folder: &str, id: &str) -> (path: String)
    ensures
        path@ == destination(folder@, id@),
{
    folder.to_string().concat("/").concat(id).concat(".jpg")
}

/// One download as mathematical text.
pub struct DownloadView {
    pub id: Seq<char>,
    pub url: Seq<char>,
    pub path: Seq<char>,
}

/// The download that a reply asks for: the body served at `url` goes, byte
/// for byte, into the file at `path`, which is created or truncated.
#[derive(Debug, PartialEq, Eq)]
pub struct Download {
    pub id: String,
    pub url: String,
    pub path: String,
}

impl View for Download {
    type V = DownloadView;

    open spec fn view(&self) -> DownloadView {
        DownloadView { id: self.id@, url: self.url@, path: self.path@ }
    }
}

impl DownloadView {
    /// The end of the invocation once the download was tried: the
    /// identifier where the image is stored, a fault where it is not.
    pub open spec fn finished(self, saved: Result<(), SaveError>) -> EndingView {
        match saved {
            Ok(_) => EndingView::Identifier(self.id),
            Err(error) => EndingView::Abort(Fault::Save(error)),
        }
    }
}

impl Download {
    /// The end of the invocation, once the caller has tried the download.
    pub fn finish(self, saved: Result<(), SaveError>) -> (ending: Ending)
        ensures
            ending@ == self@.finished(saved),
    {
        match saved {
            Ok(_) => Ending::Identifier(self.id),
            Err(error) => Ending::Abort(Fault::Save(error)),
        }
    }
}

/// What follows the provider's reply, as mathematical text.
pub enum StepView {
    Download(DownloadView),
    End(EndingView),
}

/// What follows the provider's reply.
#[derive(Debug, PartialEq, Eq)]
pub enum Step {
    /// The caller downloads the image and reports back with
    /// [`Download::finish`].
    Download(Download),
    /// The invocation is over; nothing is downloaded.
    End(Ending),
}

impl View for Step {
    type V = StepView;

    open spec fn view(&self) -> StepView {
        match self {
            Step::Download(download) => StepView::Download(download@),
            Step::End(ending) => StepView::End(ending@),
        }
    }
}

/// The step that a reply leads to. A failed call ends with the sentinel. A
/// reply with a `raw` address asks for that address to be stored at
/// `<folder>/<id>.jpg`. A reply without one is a fault.
pub open spec fn step_after(
    folder: Seq<char>,
    reply: Result<ProviderResponse, ApiError>,
) -> StepView {
    match reply {
        Err(_) => StepView::End(EndingView::ErrorSentinel),
        Ok(response) => if response.urls.contains_key("raw"@) {
            StepView::Download(
                DownloadView {
                    id: response.id,
                    url: response.urls["raw"@],
                    path: destination(folder, response.id),
                },
            )
        } else {
            StepView::End(EndingView::Abort(Fault::MissingRaw))
        },
    }
}

/// The end of a whole invocation, from the provider's reply and from how the
/// download went where one was asked for.
pub open spec fn ending_of(
    folder: Seq<char>,
    reply: Result<ProviderResponse, ApiError>,
    saved: Result<(), SaveError>,
) -> EndingView {
    match step_after(folder, reply) {
        StepView::Download(download) => download.finished(saved),
        StepView::End(ending) => ending,
    }
}

/// The reply as mathematical text.
pub open spec fn reply_view(reply: Result<ReturnDictionary, ApiError>) -> Result<
    ProviderResponse,
    ApiError,
> {
    match reply {
        Ok(response) => Ok(response@),
        Err(error) => Err(error),
    }
}

/// Decides what follows the provider's reply, for an image that is to be
/// stored under `folder`.
pub fn after_response(folder: &str, reply: Result<ReturnDictionary, ApiError>) -> (step: Step)
    ensures
        step@ == step_after(folder@, reply_view(reply)),
{
    match reply {
        Err(_) => Step::End(Ending::ErrorSentinel),
        Ok(response) => match response.raw_url() {
            None => Step::End(Ending::Abort(Fault::MissingRaw)),
            Some(address) => {
                let id = response.id().clone();
                let path = destination_path(folder, id.as_str());
                Step::Download(Download { id, url: address.clone(), path })
            },
        },
    }
}

} // verus!
