//! How much the agent logs.
//!
//! One setting is recognised, whatever its case; with any other setting, or
//! none, the agent logs at its normal level.

use vstd::prelude::*;
use vstd::string::StringExecFns;

use crate::text::opt_str;

verus! {

/// How much to log.
#[derive(Clone, Copy, Debug, PartialEq, Eq, Structural)]
pub enum Verbosity {
    Normal,
    Verbose,
}

/// The setting that asks for verbose logging, in lower case.
pub const VERBOSE_SETTING: &'static str = "debug";

/// `text` with every character in lower case.
pub uninterp spec fn lowercase(text: Seq<char>) -> Seq<char>;

/// Puts `text` in lower case with `str::to_lowercase`.
///
/// Trusted: the result is the one that [`lowercase`] names.
#[verifier::external_body]
fn to_lowercase(text: &str) -> (lower: String)
    ensures
        lower@ == lowercase(text@),
{
    text.to_lowercase()
}

impl Verbosity {
    /// The level for a setting that is already in lower case: verbose for
    /// the one recognised setting, normal for every other.
    pub open spec fn for_lowered(lowered: Seq<char>) -> Verbosity {
        if lowered == VERBOSE_SETTING@ {
            Verbosity::Verbose
        } else {
            Verbosity::Normal
        }
    }

    /// The level for a setting, or for none.
    pub open spec fn for_setting(setting: Option<Seq<char>>) -> Verbosity {
        match setting {
            Some(text) => Self::for_lowered(lowercase(text)),
            None => Verbosity::Normal,
        }
    }

    /// The level for a setting that is already in lower case.
    pub fn from_lowered(lowered: &String) -> (level: Verbosity)
        ensures
            level == Self::for_lowered(lowered@),
    {
        let recognised = String::from_str(VERBOSE_SETTING);
        if *lowered == recognised {
            Verbosity::Verbose
        } else {
            Verbosity::Normal
        }
    }

    /// The level for the setting found in the environment, if there is one.
    pub fn from_setting(setting: Option<&str>) -> (level: Verbosity)
        ensures
            level == Self::for_setting(opt_str(setting)),
    {
        match setting {
            Some(text) => Self::from_lowered(&to_lowercase(text)),
            None => Verbosity::Normal,
        }
    }
}

} // verus!
