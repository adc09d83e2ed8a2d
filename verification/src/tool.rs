//! What goes into a tool, what comes out of it, and how it fails.

use vstd::prelude::*;
use crate::google_studio::SearchPlanQuery;
use crate::ref_filter::{ReferenceFilterRequest, ReferenceFilterResponse};

verus! {

/// Why a tool gave no output.
#[derive(Clone, Copy, Debug, PartialEq, Eq, Structural)]
pub enum ToolError {
    /// The tool is not there to give an output.
    MissingTool,
    /// The input is meant for another tool.
    WrongToolInput,
}

/// The input of a tool.
#[derive(Debug)]
pub enum ToolInput {
    ReferencesFilter(ReferenceFilterRequest),
    KeywordSearch(SearchPlanQuery),
}

/// The output of a tool.
#[derive(Debug)]
pub enum ToolOutput {
    ReferencesFilter(ReferenceFilterResponse),
}

impl ToolInput {
    /// The request for the reference filter, where the input is one.
    pub fn filter_references_request(self) -> (request: Result<ReferenceFilterRequest, ToolError>)
        ensures
            request == match self {
                ToolInput::ReferencesFilter(request) => Ok::<ReferenceFilterRequest, ToolError>(
                    request,
                ),
                _ => Err::<ReferenceFilterRequest, ToolError>(ToolError::WrongToolInput),
            },
    {
        match self {
            ToolInput::ReferencesFilter(request) => Ok(request),
            _ => Err(ToolError::WrongToolInput),
        }
    }
}

} // verus!
