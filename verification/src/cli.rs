use vstd::prelude::*;

verus! {

/// The command line: `--version` and `--config <path>`.
pub struct Cli {
    pub version: bool,
    pub config: Option<String>,
}

} // verus!
