//! The options of the whole-program build entry point and the artifact it
//! yields. The build lowers the program through `lower::build_module`; the
//! embedder then feeds the module to its native backend, honoring these
//! options, and reports the artifact.

use vstd::prelude::*;

verus! {

/// How hard the native backend optimizes.
#[derive(Clone, Copy, Debug, PartialEq, Eq, Structural)]
pub enum CodegenOptLevel {
    /// No optimization passes at all.
    Off,
    Default,
    Aggressive,
}

/// The options of one whole-program build.
#[derive(Debug)]
pub struct CodegenOptions {
    pub emit_ir: bool,
    pub opt_level: CodegenOptLevel,
    pub enable_lto: bool,
}

impl Default for CodegenOptions {
    /// No textual snapshot, default optimization, no link-time optimization.
    fn default() -> (r: Self)
        ensures
            r.emit_ir == false,
            r.opt_level == CodegenOptLevel::Default,
            r.enable_lto == false,
    {
        CodegenOptions { emit_ir: false, opt_level: CodegenOptLevel::Default, enable_lto: false }
    }
}

/// What a whole-program build leaves behind: the path of the binary and,
/// when a snapshot was requested, the textual form of the built module.
#[derive(Debug)]
pub struct BuildArtifact {
    pub binary: String,
    pub ir: Option<String>,
}

/// The native-backend generation this build targets.
pub fn current_llvm_version() -> (r: Option<String>)
    ensures
        r matches Some(v) && v@ == "15.0"@,
{
    Some("15.0".to_owned())
}

} // verus!
