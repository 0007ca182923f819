//! How the server is set up.

use vstd::prelude::*;

use crate::text;

verus! {

/// The port that the server listens on where none is given.
pub const DEFAULT_PORT: u16 = 18080;

/// Whether a setting in lower case means yes.
pub open spec fn means_yes(value: Seq<char>) -> bool {
    value == "1"@ || value == "true"@ || value == "yes"@
}

/// Whether a setting in lower case means yes.
pub fn is_yes(value: &str) -> (r: bool)
    ensures
        r == means_yes(value@),
{
    text::same_text(value, "1") || text::same_text(value, "true") || text::same_text(value, "yes")
}

/// Whether a setting means yes: it is there, and its lower case says so.
pub open spec fn set_to_yes(value: Option<Seq<char>>) -> bool {
    match value {
        Some(v) => means_yes(text::in_lower_case(v)),
        None => false,
    }
}

/// Whether the environment switches Tor off: the variable is set, and means
/// yes.
pub fn env_no_tor(value: Option<String>) -> (r: bool)
    ensures
        r == set_to_yes(text::opt_text(value)),
{
    match value {
        Some(v) => is_yes(text::lower_case(v.as_str()).as_str()),
        None => false,
    }
}

/// Tor is on unless it is switched off, on the command line or in the
/// environment.
pub fn use_tor(no_tor: bool, env: Option<String>) -> (r: bool)
    ensures
        r == (!no_tor && !set_to_yes(text::opt_text(env))),
{
    !no_tor && !env_no_tor(env)
}

/// The address that the server listens on.
pub fn bind_addr(port: u16) -> (r: String)
    ensures
        r@ == "127.0.0.1:"@ + text::decimal(port as nat),
{
    text::join2("127.0.0.1:", text::decimal_text(port as u64).as_str())
}

/// A setting means yes if it says so in capitals or not; anything else, and no
/// setting at all, means no.
pub proof fn law_yes_has_no_case(value: Seq<char>)
    requires
        vstd::utf8::is_ascii_chars(value),
    ensures
        set_to_yes(Some(value)) <==> text::small_letters(value) == "1"@ || text::small_letters(
            value,
        ) == "true"@ || text::small_letters(value) == "yes"@,
        !set_to_yes(None),
{
}

} // verus!
