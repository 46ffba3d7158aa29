//! Version and user-agent strings: stateless formatting helpers.

use vstd::prelude::*;
use vstd::string::StringExecFns;

verus! {

/// The version string the embedder hands to the engine. Not localized.
pub fn version_string() -> (s: String)
    ensures
        s@ == "cuervo 0.1b"@,
{
    "cuervo 0.1b".to_owned()
}

/// The full user-agent string: the engine's base user agent, then the
/// shell's own name (capitalized) and version, then a compatibility token.
pub fn user_agent_string(base: &str) -> (s: String)
    ensures
        s@ == base@ + " Cuervo 0.1b (like w3m)"@,
{
    base.to_owned().concat(" Cuervo 0.1b (like w3m)")
}

} // verus!
