//! Decisions at the image boundary: naming, and choosing what an image
//! says to execute.  Fetching and unpacking an image is a
//! collaborator's work; only its pure decisions live here.

use vstd::prelude::*;

use crate::container::clone_strings;
use crate::text::{find_char, split_once};
use crate::CgroupError;

verus! {

/// The repository name and tag a user-supplied image reference means:
/// split at the first colon (tag `latest` when none), and an unscoped
/// name placed under `library/`.
pub open spec fn parse_image_name_spec(s: Seq<char>) -> (Seq<char>, Seq<char>) {
    let f = find_char(s, ':');
    let image = if f >= 0 {
        s.take(f)
    } else {
        s
    };
    let tag = if f >= 0 {
        s.skip(f + 1)
    } else {
        "latest"@
    };
    let name = if find_char(image, '/') >= 0 {
        image
    } else {
        "library/"@ + image
    };
    (name, tag)
}

/// Splits an image reference into repository name and tag.
pub fn parse_image_name(image_ref: &str) -> (r: (String, String))
    ensures
        r.0@ == parse_image_name_spec(image_ref@).0,
        r.1@ == parse_image_name_spec(image_ref@).1,
{
    let (image, tag): (String, String) = match split_once(image_ref, ':') {
        Some((i, t)) => (String::from_str(i), String::from_str(t)),
        None => (String::from_str(image_ref), String::from_str("latest")),
    };
    let name: String = match split_once(image.as_str(), '/') {
        Some(_) => image,
        None => String::from_str("library/").concat(image.as_str()),
    };
    (name, tag)
}

/// Whether an image's command list is present and non-empty.
pub open spec fn has_entries(o: Option<Vec<String>>) -> bool {
    match o {
        Some(v) => v@.len() > 0,
        None => false,
    }
}

/// The entries of an image's command list, empty when absent.
pub open spec fn entries(o: Option<Vec<String>>) -> Seq<String> {
    match o {
        Some(v) => v@,
        None => Seq::empty(),
    }
}

/// The command an image launches: the entrypoint when it has one, else
/// the default command; an image that names neither cannot be run.
/// The returned argument vector starts with the command path itself.
pub fn select_command(entrypoint: &Option<Vec<String>>, cmd: &Option<Vec<String>>) -> (r: Result<
    (String, Vec<String>),
    CgroupError,
>)
    ensures
        has_entries(*entrypoint) ==> (r matches Ok(p) && p.0 == entries(*entrypoint)[0] && p.1@
            == entries(*entrypoint)),
        !has_entries(*entrypoint) && has_entries(*cmd) ==> (r matches Ok(p) && p.0 == entries(
            *cmd,
        )[0] && p.1@ == entries(*cmd)),
        !has_entries(*entrypoint) && !has_entries(*cmd) ==> (r matches Err(e) && e
            == CgroupError::InvalidConfiguration),
{
    match entrypoint {
        Some(e) if e.len() > 0 => Ok((e[0].clone(), clone_strings(e))),
        _ => match cmd {
            Some(c) if c.len() > 0 => Ok((c[0].clone(), clone_strings(c))),
            _ => Err(CgroupError::InvalidConfiguration),
        },
    }
}

} // verus!
