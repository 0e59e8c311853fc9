//! Why a generation was given up.

use crate::catalog::Template;
use vstd::prelude::*;

verus! {

/// The failures that end a generation. Each carries the detail that the
/// collaborator reported, unchanged.
#[derive(Debug, PartialEq, Eq)]
pub enum Error {
    /// The root package's name could not be had.
    MetadataUnavailable { detail: String },
    /// A template could not be rendered.
    RenderFailure { template: Template, detail: String },
}

/// An [`Error`] as mathematical values.
pub enum Failure {
    MetadataUnavailable { detail: Seq<char> },
    RenderFailure { template: Template, detail: Seq<char> },
}

impl Failure {
    /// The detail that the failure carries.
    pub open spec fn text(self) -> Seq<char> {
        match self {
            Failure::MetadataUnavailable { detail } => detail,
            Failure::RenderFailure { detail, .. } => detail,
        }
    }
}

impl View for Error {
    type V = Failure;

    open spec fn view(&self) -> Failure {
        match self {
            Error::MetadataUnavailable { detail } => Failure::MetadataUnavailable { detail: detail@ },
            Error::RenderFailure { template, detail } => Failure::RenderFailure {
                template: *template,
                detail: detail@,
            },
        }
    }
}

impl Error {
    /// The detail that the failure carries.
    pub fn message(&self) -> (text: &str)
        ensures
            text@ == self@.text(),
    {
        match self {
            Error::MetadataUnavailable { detail } => detail.as_str(),
            Error::RenderFailure { detail, .. } => detail.as_str(),
        }
    }
}

} // verus!
