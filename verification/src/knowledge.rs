//! Knowledge links: entries linked to projects, and options of searches
//! within a project.
use vstd::prelude::*;

use crate::errors::ServiceError;

verus! {

broadcast use vstd::string::group_string_axioms;

/// Filters of linked entry listings.
#[derive(Clone, Debug)]
pub struct LinkedEntryFilters {
    pub entry_type: Option<String>,
}

impl Default for LinkedEntryFilters {
    /// No filter.
    fn default() -> (r: LinkedEntryFilters)
        ensures
            r.entry_type is None,
    {
        LinkedEntryFilters { entry_type: None }
    }
}

/// Result of linking an entry to a project.
#[derive(Clone, Debug)]
pub struct LinkResult {
    pub link_id: String,
    pub project_id: String,
    pub entry_id: String,
}

/// Options of a search within a project.
#[derive(Clone, Debug)]
pub struct ProjectSearchOptions {
    /// `"all"`, `"issues"` or `"knowledge"`.
    pub search_type: Option<String>,
    /// Whether closed issues count.
    pub include_closed: bool,
    /// Largest number of results.
    pub limit: usize,
}

impl Default for ProjectSearchOptions {
    /// Any type, open issues only, limit 0.
    fn default() -> (r: ProjectSearchOptions)
        ensures
            r.search_type is None,
            !r.include_closed,
            r.limit == 0,
    {
        ProjectSearchOptions { search_type: None, include_closed: false, limit: 0 }
    }
}

/// The outcome of unlinking an entry: an error naming the link when no
/// link was removed.
pub fn unlink_outcome(removed: bool, entry_id: &str) -> (r: Result<(), ServiceError>)
    ensures
        removed ==> r is Ok,
        !removed ==> (r matches Err(ServiceError::NotFound(m)) && m@ == "Link"@ + " '"@ + entry_id@
            + "' not found"@),
{
    if removed {
        Ok(())
    } else {
        Err(ServiceError::not_found("Link", entry_id))
    }
}

} // verus!
