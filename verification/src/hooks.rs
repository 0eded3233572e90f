//! Hooks that Gitlab sends: system hooks and web hooks.
//!
//! Reading the payload is left to the caller; this module tells the two
//! kinds of hooks apart.

use vstd::prelude::*;

use crate::json::{first_member, JsonValue};

verus! {

/// The kinds of hooks Gitlab sends.
#[derive(Debug, Clone, Copy, PartialEq, Eq, Structural)]
pub enum GitlabHookKind {
    /// A system hook.
    System,
    /// A web hook from a specific project.
    Web,
}

/// Whether an object has a member named `key`.
pub open spec fn has_member(value: JsonValue, key: Seq<char>) -> bool {
    value matches JsonValue::Object(members) && first_member(members@, key) is Some
}

/// The kind of a hook payload: a web hook when it has an `object_kind`
/// (some web hooks also have an `event_name`), else a system hook when it
/// has an `event_name`; none when it has neither.
pub fn hook_kind(value: &JsonValue) -> (r: Option<GitlabHookKind>)
    ensures
        r == (if has_member(*value, "object_kind"@) {
            Some(GitlabHookKind::Web)
        } else if has_member(*value, "event_name"@) {
            Some(GitlabHookKind::System)
        } else {
            None::<GitlabHookKind>
        }),
{
    if value.get("object_kind").is_some() {
        Some(GitlabHookKind::Web)
    } else if value.get("event_name").is_some() {
        Some(GitlabHookKind::System)
    } else {
        None
    }
}

} // verus!
