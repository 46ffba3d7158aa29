//! Syntactic URL validation.
//!
//! Before the shell asks the engine to open what the user typed, the text
//! must parse as an absolute URL. Whether it does is a property of the text
//! alone; the grammar itself belongs to the URL library, so the verdict is
//! carried under the name [`url_ok`] and the rest of the shell reasons over
//! that name.

use vstd::prelude::*;

verus! {

/// Whether the text parses as an absolute URL.
pub uninterp spec fn url_ok(s: Seq<char>) -> bool;

/// Relies on `url::Url::parse`: whether it succeeds depends on the text
/// alone.
#[verifier::external_body]
pub fn parse_url_ok(s: &str) -> (r: bool)
    ensures
        r == url_ok(s@),
{
    url::Url::parse(s).is_ok()
}

} // verus!
