//! `[general] startup_directory`: the word `"home"` stands for the user's
//! home directory; any other value is the literal path, unchecked (a bad
//! path only means a new tab without a working directory).
use vstd::prelude::*;

use crate::text::{chars_of, eq_chars};

verus! {

/// Where new windows start.
#[derive(Debug, Clone, PartialEq, Eq)]
pub enum StartupDirectory {
    /// The home directory, as the platform reports it.
    Home,
    /// This path, as written.
    Literal(String),
}

/// Reads the configured value.
pub fn startup_directory(value: &str) -> (r: StartupDirectory)
    ensures
        value@ == "home"@ ==> r == StartupDirectory::Home,
        value@ != "home"@ ==> (r matches StartupDirectory::Literal(p) && p@ == value@),
{
    let v = chars_of(value);
    if eq_chars(&v, &chars_of("home")) {
        StartupDirectory::Home
    } else {
        StartupDirectory::Literal(value.to_owned())
    }
}

} // verus!
