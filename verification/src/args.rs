use vstd::prelude::*;

verus! {

/// The command line, reduced to plain values: an optional path to the
/// script to run, and whether only the version was asked for. The host
/// binary parses its flags into this.
#[derive(Clone, Debug)]
pub struct Args {
    /// Path to the script program to be executed.
    pub lua: Option<String>,
    /// Print version information and exit without executing any script.
    pub version: bool,
}

} // verus!
