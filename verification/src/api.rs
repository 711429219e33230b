//! The requests and replies of the administrative channel.

use crate::error::IoError;
use vstd::prelude::*;

verus! {

/// What the daemon says of itself.
#[derive(Debug, PartialEq, Eq)]
pub struct DaemonInfo {
    pub id: String,
    pub version: String,
    pub state: String,
}

/// A daemon description as a mathematical value.
pub struct DaemonInfoView {
    pub id: Seq<char>,
    pub version: Seq<char>,
    pub state: Seq<char>,
}

impl View for DaemonInfo {
    type V = DaemonInfoView;

    open spec fn view(&self) -> DaemonInfoView {
        DaemonInfoView { id: self.id@, version: self.version@, state: self.state@ }
    }
}

impl DaemonInfo {
    /// A copy with the same content.
    pub fn duplicate(&self) -> (copy: DaemonInfo)
        ensures
            copy@ == self@,
    {
        DaemonInfo {
            id: self.id.clone(),
            version: self.version.clone(),
            state: self.state.clone(),
        }
    }
}

/// The image to mount and the path to mount it at.
#[derive(Debug, PartialEq, Eq)]
pub struct MountInfo {
    pub source: String,
    pub mountpoint: String,
}

/// A mount request as a mathematical value.
pub struct MountInfoView {
    pub source: Seq<char>,
    pub mountpoint: Seq<char>,
}

impl View for MountInfo {
    type V = MountInfoView;

    open spec fn view(&self) -> MountInfoView {
        MountInfoView { source: self.source@, mountpoint: self.mountpoint@ }
    }
}

impl MountInfo {
    /// A copy with the same content.
    pub fn duplicate(&self) -> (copy: MountInfo)
        ensures
            copy@ == self@,
    {
        MountInfo { source: self.source.clone(), mountpoint: self.mountpoint.clone() }
    }
}

/// What can be asked of the daemon.
#[derive(Debug, PartialEq, Eq)]
pub enum ApiRequest {
    /// Report the daemon's identity, version and state.
    DaemonInfo,
    /// Mount an image.
    Mount(MountInfo),
}

/// A request as a mathematical value.
pub enum ApiRequestView {
    DaemonInfo,
    Mount(MountInfoView),
}

impl View for ApiRequest {
    type V = ApiRequestView;

    open spec fn view(&self) -> ApiRequestView {
        match self {
            ApiRequest::DaemonInfo => ApiRequestView::DaemonInfo,
            ApiRequest::Mount(info) => ApiRequestView::Mount(info@),
        }
    }
}

/// What a request is answered with when it succeeds.
#[derive(Debug, PartialEq, Eq)]
pub enum ApiResponsePayload {
    /// The daemon's description.
    DaemonInfo(DaemonInfo),
    /// The image is mounted.
    Mount,
}

/// A success payload as a mathematical value.
pub enum ApiResponsePayloadView {
    DaemonInfo(DaemonInfoView),
    Mount,
}

impl View for ApiResponsePayload {
    type V = ApiResponsePayloadView;

    open spec fn view(&self) -> ApiResponsePayloadView {
        match self {
            ApiResponsePayload::DaemonInfo(info) => ApiResponsePayloadView::DaemonInfo(info@),
            ApiResponsePayload::Mount => ApiResponsePayloadView::Mount,
        }
    }
}

impl ApiResponsePayload {
    /// A copy with the same content.
    pub fn duplicate(&self) -> (copy: ApiResponsePayload)
        ensures
            copy@ == self@,
    {
        match self {
            ApiResponsePayload::DaemonInfo(info) => ApiResponsePayload::DaemonInfo(
                info.duplicate(),
            ),
            ApiResponsePayload::Mount => ApiResponsePayload::Mount,
        }
    }
}

/// What a request is answered with when it fails.
#[derive(Clone, Copy, Debug, PartialEq, Eq, Structural)]
pub enum ApiError {
    /// The image could not be opened, imported or mounted.
    MountFailure(IoError),
}

/// The answer to one request.
pub type ApiResponse = Result<ApiResponsePayload, ApiError>;

/// An answer as a mathematical value.
pub type ApiResponseView = Result<ApiResponsePayloadView, ApiError>;

/// The mathematical value of an answer.
pub open spec fn response_view(response: ApiResponse) -> ApiResponseView {
    match response {
        Ok(payload) => Ok(payload@),
        Err(e) => Err(e),
    }
}

/// A copy of an answer with the same content.
pub fn duplicate_response(response: &ApiResponse) -> (copy: ApiResponse)
    ensures
        response_view(copy) == response_view(*response),
{
    match response {
        Ok(payload) => Ok(payload.duplicate()),
        Err(e) => Err(*e),
    }
}

} // verus!
