//! Decisions on the answers to gated requests: requests that the service may
//! carry out at once or hold until the user consents through a prompt. These
//! are batch lock and unlock, deletion and creation.

use crate::error::Error;
use crate::prompt::{is_no_prompt, is_root_path};
use vstd::prelude::*;

verus! {

/// What follows the answer to a gated request.
#[derive(Debug, PartialEq, Eq)]
pub enum Resolution {
    /// The request is resolved; no interaction is needed.
    Done,
    /// The request waits for the user's consent through the prompt at this
    /// path.
    Prompt(String),
}

/// What follows the answer to a creation request.
#[derive(Debug, PartialEq, Eq)]
pub enum Creation {
    /// The object was created at this path.
    Created(String),
    /// The object will be created once the user consents through the prompt
    /// at this path; the prompt's result is the new object's path.
    Prompt(String),
}

/// The prompt to run for a prompt path: any path but the root names a prompt
/// object to run; the root path stands for none.
pub open spec fn prompt_to_run(prompt: Seq<char>) -> Option<Seq<char>> {
    if is_root_path(prompt) {
        None
    } else {
        Some(prompt)
    }
}

pub open spec fn resolution_prompt(g: Resolution) -> Option<Seq<char>> {
    match g {
        Resolution::Done => None,
        Resolution::Prompt(p) => Some(p@),
    }
}

/// After a batch lock or unlock: if some objects were changed at once, the
/// request is resolved (which of the others changed is not reported);
/// if none was, the whole batch waits on the prompt the service returned.
pub fn lock_outcome(affected: &Vec<String>, prompt: &String) -> (r: Resolution)
    ensures
        affected@.len() > 0 ==> r == Resolution::Done,
        affected@.len() == 0 ==> resolution_prompt(r) == prompt_to_run(prompt@),
{
    if affected.len() > 0 {
        Resolution::Done
    } else {
        delete_outcome(prompt)
    }
}

/// After a deletion (or any request that answers with a prompt path alone):
/// the root path means done, any other path is a prompt to run.
pub fn delete_outcome(prompt: &String) -> (r: Resolution)
    ensures
        resolution_prompt(r) == prompt_to_run(prompt@),
{
    if is_no_prompt(prompt.as_str()) {
        Resolution::Done
    } else {
        Resolution::Prompt(prompt.clone())
    }
}

/// After a creation request: a created path other than the root is the new
/// object; the root path means that the prompt decides. An answer with
/// neither is malformed.
pub fn create_outcome(created: &String, prompt: &String) -> (r: Result<Creation, Error>)
    ensures
        !is_root_path(created@) ==> (r matches Ok(Creation::Created(p)) && p@ == created@),
        is_root_path(created@) && !is_root_path(prompt@) ==> (r matches Ok(Creation::Prompt(p))
            && p@ == prompt@),
        is_root_path(created@) && is_root_path(prompt@) ==> r == Err::<Creation, Error>(
            Error::Protocol,
        ),
{
    if !is_no_prompt(created.as_str()) {
        Ok(Creation::Created(created.clone()))
    } else if !is_no_prompt(prompt.as_str()) {
        Ok(Creation::Prompt(prompt.clone()))
    } else {
        Err(Error::Protocol)
    }
}

/// A locked object cannot be read or changed: `Error::Locked`.
pub fn check_unlocked(locked: bool) -> (r: Result<(), Error>)
    ensures
        locked ==> r == Err::<(), Error>(Error::Locked),
        !locked ==> r is Ok,
{
    if locked {
        Err(Error::Locked)
    } else {
        Ok(())
    }
}

/// The collection an alias names: the root path means there is none.
pub fn alias_target(path: &String) -> (r: Result<String, Error>)
    ensures
        is_root_path(path@) ==> r == Err::<String, Error>(Error::NoResult),
        !is_root_path(path@) ==> (r matches Ok(p) && p@ == path@),
{
    if is_no_prompt(path.as_str()) {
        Err(Error::NoResult)
    } else {
        Ok(path.clone())
    }
}

} // verus!
