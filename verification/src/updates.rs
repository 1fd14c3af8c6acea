//! Local validation of update requests.
//!
//! An update that names nothing to change is rejected here, before any URL
//! is resolved or any request is sent.

use vstd::prelude::*;
use crate::domain::opt_view;
use crate::error::{ApiError, ErrorKind, validation_error, spec_validation_error};

verus! {

/// A directive update: each field replaces its counterpart only when given.
pub struct DirectiveUpdate {
    pub name: Option<String>,
    pub content: Option<String>,
}

/// A reflection update: only the name can change.
pub struct ReflectionUpdate {
    pub name: Option<String>,
}

/// Accepts a directive update exactly when it sets at least one field;
/// an empty update is rejected without any network call.
pub fn directive_update(name: Option<String>, content: Option<String>) -> (r: Result<
    DirectiveUpdate,
    ApiError,
>)
    ensures
        match r {
            Ok(u) => (name is Some || content is Some) && opt_view(u.name) == opt_view(name)
                && opt_view(u.content) == opt_view(content),
            Err(e) => name is None && content is None && e@ == spec_validation_error(
                "At least one of --name or --content must be provided"@,
            ),
        },
{
    if name.is_none() && content.is_none() {
        Err(validation_error("At least one of --name or --content must be provided"))
    } else {
        Ok(DirectiveUpdate { name, content })
    }
}

/// Accepts a reflection update exactly when it sets the name; an empty
/// update is rejected without any network call.
pub fn reflection_update(name: Option<String>) -> (r: Result<ReflectionUpdate, ApiError>)
    ensures
        match r {
            Ok(u) => name is Some && opt_view(u.name) == opt_view(name),
            Err(e) => name is None && e@ == spec_validation_error(
                "--name must be provided"@,
            ),
        },
{
    if name.is_none() {
        Err(validation_error("--name must be provided"))
    } else {
        Ok(ReflectionUpdate { name })
    }
}

} // verus!
