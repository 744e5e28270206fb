//! Platforms without an Agent CLI credential store.

use vstd::prelude::*;

use crate::accounts::err_view;
use crate::text::owned;

verus! {

/// Why auth sync fails on this platform.
pub open spec fn unsupported_message() -> Seq<char> {
    "Cursor Agent auth sync is only supported on macOS and Linux"@
}

/// Storing tokens is refused on this platform.
pub fn write_platform_tokens(_access: &str, _refresh: &str) -> (r: Result<(), String>)
    ensures
        err_view(r) == Err::<(), Seq<char>>(unsupported_message()),
{
    Err(owned("Cursor Agent auth sync is only supported on macOS and Linux"))
}

/// Clearing tokens is refused on this platform.
pub fn clear_platform_tokens() -> (r: Result<(), String>)
    ensures
        err_view(r) == Err::<(), Seq<char>>(unsupported_message()),
{
    Err(owned("Cursor Agent auth sync is only supported on macOS and Linux"))
}

/// Reading tokens is refused on this platform.
pub fn read_platform_tokens() -> (r: Result<(String, String), String>)
    ensures
        err_view(r) == Err::<(String, String), Seq<char>>(unsupported_message()),
{
    Err(owned("Cursor Agent auth sync is only supported on macOS and Linux"))
}

} // verus!
