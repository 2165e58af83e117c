//! The one platform-dependent decision of the core: which command reveals the
//! output folder in the platform's file browser.

use vstd::prelude::*;

use crate::errors::YaydlError;
use crate::text::str_eq;

verus! {

/// Chooses the folder-opening command from the platform's name as the
/// standard library reports it; any other platform is unsupported.
pub fn explorer_command(os: &str) -> (r: Result<&'static str, YaydlError>)
    ensures
        os@ == "windows"@ ==> (r matches Ok(c) && c@ == "explorer"@),
        os@ == "macos"@ ==> (r matches Ok(c) && c@ == "open"@),
        os@ == "linux"@ ==> (r matches Ok(c) && c@ == "xdg-open"@),
        os@ != "windows"@ && os@ != "macos"@ && os@ != "linux"@ ==> (r matches Err(e) && e
            == YaydlError::UnsupportedOs),
{
    proof {
        reveal_strlit("windows");
        reveal_strlit("macos");
        reveal_strlit("linux");
        assert("windows"@.len() == 7);
        assert("macos"@.len() == 5);
        assert("linux"@[0] == 'l');
        assert("macos"@[0] == 'm');
    }
    if str_eq(os, "windows") {
        Ok("explorer")
    } else if str_eq(os, "macos") {
        Ok("open")
    } else if str_eq(os, "linux") {
        Ok("xdg-open")
    } else {
        Err(YaydlError::UnsupportedOs)
    }
}

} // verus!
