use vstd::prelude::*;

use crate::section::WebsiteSection;

verus! {

/// Everything that can go wrong while validating, storing or reading a website.
#[derive(Debug, Clone)]
pub enum ServerError {
    /// The section text is not one of the canonical lowercase names.
    InvalidSection,
    /// The link starts with `http://` or `https://`.
    LinkHasTransferProtocol,
    /// The store failed while reading one section.
    RetrievalFailed { section: WebsiteSection, cause: String },
    /// The store failed while inserting or updating a website.
    InsertFailed { cause: String },
    /// The store failed while deleting a website.
    DeleteFailed { cause: String },
    /// No website with the given name exists.
    NotFound,
}

/// The HTTP status that answers a request which failed with `e`.
pub open spec fn status_of(e: ServerError) -> u16 {
    match e {
        ServerError::InvalidSection => 400,
        ServerError::LinkHasTransferProtocol => 400,
        ServerError::NotFound => 404,
        ServerError::RetrievalFailed { .. } => 500,
        ServerError::InsertFailed { .. } => 500,
        ServerError::DeleteFailed { .. } => 500,
    }
}

impl ServerError {
    /// Client mistakes answer 400, a missing website 404, store failures 500.
    pub fn status_code(&self) -> (r: u16)
        ensures
            r == status_of(*self),
    {
        match self {
            ServerError::InvalidSection => 400,
            ServerError::LinkHasTransferProtocol => 400,
            ServerError::NotFound => 404,
            ServerError::RetrievalFailed { .. } => 500,
            ServerError::InsertFailed { .. } => 500,
            ServerError::DeleteFailed { .. } => 500,
        }
    }
}

} // verus!
