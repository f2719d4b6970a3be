//! The download of the selected asset: the name of the local file, the
//! request to send, and what to do on each answer. One redirect is followed;
//! whatever answers the second request is taken as the artifact.

use crate::error::ErrorKind;
use crate::http::{
    artifact_request, artifact_request_model, Exchange, Request, RequestModel, STATUS_FOUND,
};
use crate::paths::{last_segment, last_segment_of};
use crate::release::{Asset, AssetModel};
use vstd::prelude::*;
use vstd::string::StringExecFns;

verus! {

/// The name of the local file for an artifact at `url`: the final segment of
/// the URL, or `output` where that segment is empty.
pub open spec fn file_name_of(url: Seq<char>) -> Seq<char> {
    if last_segment_of(url).len() == 0 {
        "output"@
    } else {
        last_segment_of(url)
    }
}

/// What is needed to start a download.
#[derive(Clone, Debug, PartialEq, Eq)]
pub struct Download {
    /// Name of the file that receives the artifact, in the working directory.
    pub file_name: String,
    /// The first request to send.
    pub request: Request,
}

/// Mathematical model of a [`Download`].
pub struct DownloadModel {
    pub file_name: Seq<char>,
    pub request: RequestModel,
}

impl View for Download {
    type V = DownloadModel;

    open spec fn view(&self) -> DownloadModel {
        DownloadModel { file_name: self.file_name@, request: self.request@ }
    }
}

/// The download of an artifact at `url`.
pub open spec fn download_of(url: Seq<char>) -> DownloadModel {
    DownloadModel { file_name: file_name_of(url), request: artifact_request_model(url) }
}

/// Which request an answer belongs to.
#[derive(Clone, Copy, Debug, PartialEq, Eq, Structural)]
pub enum Hop {
    /// The request to the asset's own URL.
    First,
    /// The request to the target of a redirect.
    Redirected,
}

/// What the caller does next.
#[derive(Clone, Debug, PartialEq, Eq)]
pub enum Step {
    /// Discard what the file holds so far, send this request and write the
    /// body of its answer to the file.
    Send(Request),
    /// The file holds the artifact.
    Finished,
    /// The download failed.
    Failed(ErrorKind),
}

/// Mathematical model of a [`Step`].
pub enum StepModel {
    Send(RequestModel),
    Finished,
    Failed(ErrorKind),
}

impl View for Step {
    type V = StepModel;

    open spec fn view(&self) -> StepModel {
        match self {
            Step::Send(request) => StepModel::Send(request@),
            Step::Finished => StepModel::Finished,
            Step::Failed(kind) => StepModel::Failed(*kind),
        }
    }
}

/// The step that follows the answer `reply` to the request of `hop`.
///
/// A failed request fails the download. The answer to the first request is
/// followed where its status is 302 and it names a target, and fails the
/// download where its status is 302 and it names none. Every other answer
/// ends the download, as does every answer to the second request.
pub open spec fn step_after(hop: Hop, reply: Exchange) -> StepModel {
    match reply {
        Exchange::Failed => StepModel::Failed(ErrorKind::Network),
        Exchange::Answered(response) => if hop == Hop::First && response.status == STATUS_FOUND {
            match response.location {
                Some(target) => StepModel::Send(artifact_request_model(target@)),
                None => StepModel::Failed(ErrorKind::RedirectTargetMissing),
            }
        } else {
            StepModel::Finished
        },
    }
}

/// The name of the local file for an artifact at `url`.
pub fn file_name(url: &str) -> (name: String)
    ensures
        name@ == file_name_of(url@),
{
    let segment = last_segment(url);
    if segment.as_str().unicode_len() == 0 {
        String::from_str("output")
    } else {
        segment
    }
}

/// Starts the download of an asset: names the local file and the first
/// request. Fails with `Parse` exactly where the listing gave the asset no
/// download URL.
pub fn begin_download(asset: &Asset) -> (begun: Result<Download, ErrorKind>)
    ensures
        match asset@.download_url {
            Some(url) => begun matches Ok(download) && download@ == download_of(url),
            None => begun == Err::<Download, ErrorKind>(ErrorKind::Parse),
        },
{
    match &asset.download_url {
        Some(url) => Ok(
            Download {
                file_name: file_name(url.as_str()),
                request: artifact_request(url.as_str()),
            },
        ),
        None => Err(ErrorKind::Parse),
    }
}

/// Decides what follows the answer to the request of `hop`.
pub fn next_step(hop: Hop, reply: &Exchange) -> (step: Step)
    ensures
        step@ == step_after(hop, *reply),
{
    match reply {
        Exchange::Failed => Step::Failed(ErrorKind::Network),
        Exchange::Answered(response) => {
            if hop == Hop::First && response.status == STATUS_FOUND {
                match &response.location {
                    Some(target) => Step::Send(artifact_request(target.as_str())),
                    None => Step::Failed(ErrorKind::RedirectTargetMissing),
                }
            } else {
                Step::Finished
            }
        },
    }
}

/// No answer to the second request leads to a third: at most one redirect is
/// followed.
pub proof fn lemma_single_redirect(reply: Exchange)
    ensures
        !(step_after(Hop::Redirected, reply) is Send),
{
}

} // verus!
