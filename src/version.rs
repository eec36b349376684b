//! The application's build version and the strings derived from it.

use vstd::prelude::*;
use vstd::string::StringExecFns;

verus! {

/// The version declared for this build of the package.
pub const APP_VERSION: &'static str = "0.1.0";

/// The fixed text that precedes the version in the main window's title.
pub const WINDOW_TITLE_PREFIX: &'static str = "Flowent AI v";

/// The build version, as the frontend sees it.
pub open spec fn app_version_spec() -> Seq<char> {
    APP_VERSION@
}

/// The main window's title for a given version.
pub open spec fn window_title_spec(version: Seq<char>) -> Seq<char> {
    WINDOW_TITLE_PREFIX@ + version
}

/// Returns the build version: always the declared one, never empty.
pub fn get_app_version() -> (r: String)
    ensures
        r@ == app_version_spec(),
        r@.len() > 0,
{
    proof {
        reveal_strlit("0.1.0");
    }
    String::from_str(APP_VERSION)
}

/// Builds the main window's title from a version string.
pub fn window_title(version: &str) -> (r: String)
    ensures
        r@ == window_title_spec(version@),
{
    String::from_str(WINDOW_TITLE_PREFIX).concat(version)
}

/// Repeated version queries agree: any two strings that the query can
/// return are the same string.
pub proof fn lemma_version_query_repeatable(first: Seq<char>, second: Seq<char>)
    requires
        first == app_version_spec(),
        second == app_version_spec(),
    ensures
        first == second,
        first.len() > 0,
{
    reveal_strlit("0.1.0");
}

} // verus!
