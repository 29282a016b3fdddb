//! The failures that the broker reports, each with the text it is shown as.

use crate::text::joined;
use vstd::prelude::*;

verus! {

/// A failure of one of the broker's parts. Each variant carries the text of
/// its cause.
#[derive(Clone, Debug, PartialEq, Eq)]
pub enum Error {
    /// The credential issuer could not be reached or answered with a fault.
    StsError(String),
    /// The credential issuer refused, or answered without credentials.
    AwsError(String),
    /// The clock reads a time before the epoch.
    TimeError(String),
    IoError(String),
    /// A configuration source could not be parsed.
    SerDeError(String),
    /// The cluster's API could not be reached or answered with a fault.
    KubeError(String),
    /// The cluster's API answered in a shape that cannot be used.
    OtherError(String),
    /// The bearer token was not accepted, or names no service account.
    TokenError(String),
    RoleMappingError(String),
    /// The file watcher failed.
    NotifyError(String),
    NetlinkError(String),
}

pub enum ErrorView {
    StsError(Seq<char>),
    AwsError(Seq<char>),
    TimeError(Seq<char>),
    IoError(Seq<char>),
    SerDeError(Seq<char>),
    KubeError(Seq<char>),
    OtherError(Seq<char>),
    TokenError(Seq<char>),
    RoleMappingError(Seq<char>),
    NotifyError(Seq<char>),
    NetlinkError(Seq<char>),
}

impl View for Error {
    type V = ErrorView;

    open spec fn view(&self) -> ErrorView {
        match self {
            Error::StsError(e) => ErrorView::StsError(e@),
            Error::AwsError(e) => ErrorView::AwsError(e@),
            Error::TimeError(e) => ErrorView::TimeError(e@),
            Error::IoError(e) => ErrorView::IoError(e@),
            Error::SerDeError(e) => ErrorView::SerDeError(e@),
            Error::KubeError(e) => ErrorView::KubeError(e@),
            Error::OtherError(e) => ErrorView::OtherError(e@),
            Error::TokenError(e) => ErrorView::TokenError(e@),
            Error::RoleMappingError(e) => ErrorView::RoleMappingError(e@),
            Error::NotifyError(e) => ErrorView::NotifyError(e@),
            Error::NetlinkError(e) => ErrorView::NetlinkError(e@),
        }
    }
}

impl ErrorView {
    /// The text that the failure is shown as: what part failed, then the cause.
    pub open spec fn message(self) -> Seq<char> {
        match self {
            ErrorView::StsError(e) => "aws sts: "@ + e,
            ErrorView::AwsError(e) => "aws error: "@ + e,
            ErrorView::TimeError(e) => "time conversion error: "@ + e,
            ErrorView::IoError(e) => "io error: "@ + e,
            ErrorView::SerDeError(e) => "error serializing/deserializing: "@ + e,
            ErrorView::KubeError(e) => e,
            ErrorView::OtherError(e) => "kube error: "@ + e,
            ErrorView::TokenError(e) => "error validating token: "@ + e,
            ErrorView::RoleMappingError(e) => e,
            ErrorView::NotifyError(e) => "notify error: "@ + e,
            ErrorView::NetlinkError(e) => "rtnetlink error: "@ + e,
        }
    }
}

impl Error {
    /// The text that the failure is shown as.
    pub fn message(&self) -> (text: String)
        ensures
            text@ == self@.message(),
    {
        match self {
            Error::StsError(e) => joined("aws sts: ", e.as_str()),
            Error::AwsError(e) => joined("aws error: ", e.as_str()),
            Error::TimeError(e) => joined("time conversion error: ", e.as_str()),
            Error::IoError(e) => joined("io error: ", e.as_str()),
            Error::SerDeError(e) => joined("error serializing/deserializing: ", e.as_str()),
            Error::KubeError(e) => e.clone(),
            Error::OtherError(e) => joined("kube error: ", e.as_str()),
            Error::TokenError(e) => joined("error validating token: ", e.as_str()),
            Error::RoleMappingError(e) => e.clone(),
            Error::NotifyError(e) => joined("notify error: ", e.as_str()),
            Error::NetlinkError(e) => joined("rtnetlink error: ", e.as_str()),
        }
    }
}

} // verus!
