//! The configuration that a run of the harness is given once, at its start.

use vstd::prelude::*;

verus! {

/// The environment variable that holds the path of the post-fork binary of the
/// single-node scenarios.
pub const ENV_CKB_FORK2021_BINARY: &'static str = "CKB_FORK2021_BINARY";

/// The environment variable that holds the path of the pre-fork binary.
pub const ENV_CKB2019: &'static str = "CKB2019";

/// The environment variable that holds the path of the post-fork binary of the networked
/// scenarios.
pub const ENV_CKB2021: &'static str = "CKB2021";

/// The reason that a node gives when it bans a peer for a block that is invalid.
pub const DEFAULT_BAN_SENTINEL: &'static str = "BlockIsInvalid(401)";

/// What a run is configured with: the paths of the node binaries, where they are known, the
/// text that marks a ban for an invalid block, and whether the scenarios that are not run by
/// default are wanted.
#[derive(Clone, Debug, PartialEq, Eq)]
pub struct Config {
    pub ckb2019: Option<String>,
    pub ckb2021: Option<String>,
    pub ckb_fork2021: Option<String>,
    pub ban_sentinel: String,
    pub include_optional: bool,
}

/// The text of an optional string.
pub open spec fn optional_text(s: Option<String>) -> Option<Seq<char>> {
    match s {
        Some(s) => Some(s@),
        None => None,
    }
}

/// A configuration, as mathematics.
pub struct ConfigModel {
    pub ckb2019: Option<Seq<char>>,
    pub ckb2021: Option<Seq<char>>,
    pub ckb_fork2021: Option<Seq<char>>,
    pub ban_sentinel: Seq<char>,
    pub include_optional: bool,
}

impl View for Config {
    type V = ConfigModel;

    open spec fn view(&self) -> ConfigModel {
        ConfigModel {
            ckb2019: optional_text(self.ckb2019),
            ckb2021: optional_text(self.ckb2021),
            ckb_fork2021: optional_text(self.ckb_fork2021),
            ban_sentinel: self.ban_sentinel@,
            include_optional: self.include_optional,
        }
    }
}

impl Config {
    /// A configuration of the given binaries, with the default ban text and without the
    /// optional scenarios.
    pub fn new(ckb2019: Option<String>, ckb2021: Option<String>, ckb_fork2021: Option<String>)
        -> (config: Config)
        ensures
            config@ == (ConfigModel {
                ckb2019: optional_text(ckb2019),
                ckb2021: optional_text(ckb2021),
                ckb_fork2021: optional_text(ckb_fork2021),
                ban_sentinel: DEFAULT_BAN_SENTINEL@,
                include_optional: false,
            }),
    {
        Config {
            ckb2019,
            ckb2021,
            ckb_fork2021,
            ban_sentinel: String::from_str(DEFAULT_BAN_SENTINEL),
            include_optional: false,
        }
    }
}

} // verus!
