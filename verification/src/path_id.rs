//! Errors from extracting entity IDs out of request paths.

use vstd::prelude::*;
use crate::text::{owned, push_str};

verus! {

/// Error returned when an ID cannot be extracted from a path.
#[derive(Debug, Clone)]
pub struct PathIdError {
    pub entity_name: &'static str,
    pub path_param: String,
    pub message: String,
}

/// The text `Display` shows for a path ID error.
pub open spec fn path_id_error_text(e: PathIdError) -> Seq<char> {
    "Invalid "@ + e.entity_name@ + " ID '"@ + e.path_param@ + "': "@ + e.message@
}

impl PathIdError {
    /// The error for a path whose single ID could not be read.
    pub fn for_single(entity_name: &'static str, path: &str, reason: &str) -> (e: Self)
        ensures
            e.entity_name == entity_name,
            e.path_param@ == path@,
            e.message@ == "Failed to extract UUID from path: "@ + reason@,
    {
        let mut message = owned("Failed to extract UUID from path: ");
        push_str(&mut message, reason);
        PathIdError { entity_name, path_param: owned(path), message }
    }

    /// The error for a path whose several IDs could not be read.
    pub fn for_several(path: &str, reason: &str) -> (e: Self)
        ensures
            e.entity_name@ == "path"@,
            e.path_param@ == path@,
            e.message@ == "Failed to extract UUIDs from path: "@ + reason@,
    {
        let mut message = owned("Failed to extract UUIDs from path: ");
        push_str(&mut message, reason);
        PathIdError { entity_name: "path", path_param: owned(path), message }
    }

    /// The text `Display` shows: `Invalid {entity} ID '{param}': {message}`.
    pub fn display_text(&self) -> (s: String)
        ensures
            s@ == path_id_error_text(*self),
    {
        let mut s = owned("Invalid ");
        push_str(&mut s, self.entity_name);
        push_str(&mut s, " ID '");
        push_str(&mut s, self.path_param.as_str());
        push_str(&mut s, "': ");
        push_str(&mut s, self.message.as_str());
        s
    }
}

/// An entity ID taken from a path.
#[derive(Debug, Clone, Copy)]
pub struct PathId<T>(pub T);

/// Several IDs taken from one path.
#[derive(Debug, Clone)]
pub struct PathIds<T>(pub T);

} // verus!
