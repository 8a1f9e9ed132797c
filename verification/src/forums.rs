//! Selection criteria for forum queries.
//!
//! Forum storage and its CRUD are routine data access outside this core;
//! these types are the query vocabulary the API exposes for it, kept
//! beside the user-selection criteria.

use vstd::prelude::*;

verus! {

/// How a single forum is selected.
pub enum ForumSelectCriteria {
    Id(String),
    Name(String),
}

/// How a page of forums is selected.
pub enum MultipleForumSelectCriteria {
    Ids(Vec<String>),
    Names(Vec<String>),
    Search(String),
}

} // verus!
