use vstd::prelude::*;

pub mod text;
pub mod errors;
pub mod explorer;
pub mod ids;
pub mod json;
pub mod work_item;
pub mod board;
pub mod epic;
pub mod services;
pub mod work_item_service;
pub mod issue;
pub mod issue_service;
pub mod project;
pub mod project_service;
pub mod token;
pub mod github;
pub mod entry;
pub mod search;
pub mod page;
pub mod retrieval;
pub mod indexing;
pub mod knowledge;
pub mod job;
pub mod sse;
pub mod migrations;
pub mod sync;
pub mod vectors;

verus! {

} // verus!
