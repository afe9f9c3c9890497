use vstd::prelude::*;

verus! {

/// The resolved invocation: which command was asked for, with the values of
/// its flags already extracted from the argument surface.
pub struct Cli {
    pub command: Commands,
}

/// The commands the tool offers. Stub generation takes an optional project
/// root, an optional output-directory override, and a verbosity flag.
pub enum Commands {
    Generate { project_dir: Option<String>, output_dir: Option<String>, debug: bool },
}

} // verus!
