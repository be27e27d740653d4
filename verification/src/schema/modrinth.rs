//! Requests to the Modrinth service and what comes back.

use vstd::prelude::*;

verus! {

/// Why a request to Modrinth failed.
#[derive(Debug, Clone)]
pub enum ModrinthError {
    ClientRequestError,
    DeserializeError,
    ModrinthResponse(ModrinthErrorResponse),
    NonOK(u16),
}

/// The error that Modrinth itself describes.
#[derive(Debug, Clone)]
pub struct ModrinthErrorResponse {
    pub error: String,
    pub description: String,
}

/// A request to Modrinth.
#[derive(Debug, Clone)]
pub enum ModrinthRequest {
    Search(ModrinthSearchRequest),
}

/// What Modrinth answers to a request.
#[derive(Debug)]
pub enum ModrinthResult {
    Search(ModrinthSearchResult),
}

/// One page of search hits.
#[derive(Debug)]
pub struct ModrinthSearchResult {
    pub hits: Vec<ModrinthHit>,
    pub offset: usize,
    pub limit: usize,
    pub total_hits: usize,
}

/// One project that a search found.
#[derive(Debug)]
pub struct ModrinthHit {
    pub title: Option<String>,
    pub description: Option<String>,
    pub client_side: Option<ModrinthSideRequirement>,
    pub server_side: Option<ModrinthSideRequirement>,
    pub project_type: ModrinthProjectType,
    pub downloads: usize,
    pub icon_url: Option<String>,
    pub project_id: String,
    pub author: String,
    pub display_categories: Option<Vec<String>>,
    /// When the project was changed last, in milliseconds since 1970.
    pub date_modified: i64,
}

/// A search: what to look for, how to order the hits and which page to give.
#[derive(Debug, Clone)]
pub struct ModrinthSearchRequest {
    pub query: Option<String>,
    pub facets: Option<String>,
    pub index: ModrinthSearchIndex,
    pub offset: usize,
    pub limit: usize,
}

/// The order of search hits.
#[derive(Debug, Clone, Copy, PartialEq, Eq, Structural)]
pub enum ModrinthSearchIndex {
    Relevance,
    Downloads,
    Follows,
    Newest,
    Updated,
}

/// Whether a project is needed on one side of the game.
#[derive(Debug, Clone, Copy, PartialEq, Eq, Structural)]
pub enum ModrinthSideRequirement {
    Required,
    Optional,
    Unsupported,
    Unknown,
}

/// What kind of project a hit is.
#[derive(Debug, Clone, Copy, PartialEq, Eq, Structural)]
pub enum ModrinthProjectType {
    Mod,
    ModPack,
    ResourcePack,
    Shader,
}

impl ModrinthError {
    /// The error in words.
    pub fn message(&self) -> (r: String)
        ensures
            r@ == (match *self {
                ModrinthError::ClientRequestError => "Error connecting to modrinth"@,
                ModrinthError::DeserializeError => "Error deserializing result from modrinth"@,
                ModrinthError::ModrinthResponse(_) => "Descriptive error from modrinth"@,
                ModrinthError::NonOK(_) => "Non-OK response from modrinth"@,
            }),
    {
        match self {
            ModrinthError::ClientRequestError => String::from_str("Error connecting to modrinth"),
            ModrinthError::DeserializeError => String::from_str(
                "Error deserializing result from modrinth",
            ),
            ModrinthError::ModrinthResponse(_) => String::from_str(
                "Descriptive error from modrinth",
            ),
            ModrinthError::NonOK(_) => String::from_str("Non-OK response from modrinth"),
        }
    }
}

impl ModrinthSearchIndex {
    /// The name of the order as the service spells it.
    pub fn name(&self) -> (r: &'static str)
        ensures
            r@ == (match *self {
                ModrinthSearchIndex::Relevance => "relevance"@,
                ModrinthSearchIndex::Downloads => "downloads"@,
                ModrinthSearchIndex::Follows => "follows"@,
                ModrinthSearchIndex::Newest => "newest"@,
                ModrinthSearchIndex::Updated => "updated"@,
            }),
    {
        match self {
            ModrinthSearchIndex::Relevance => "relevance",
            ModrinthSearchIndex::Downloads => "downloads",
            ModrinthSearchIndex::Follows => "follows",
            ModrinthSearchIndex::Newest => "newest",
            ModrinthSearchIndex::Updated => "updated",
        }
    }
}

} // verus!
