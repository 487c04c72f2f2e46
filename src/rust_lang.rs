//! The Rust toolchain.
use vstd::prelude::*;

use crate::lang::{cc_compile_job, CompileJob};
use crate::runner::Compiler;

verus! {

/// Compiles Rust sources with `rustc`.
pub struct RustCompiler;

impl RustCompiler {
    pub fn new() -> (r: RustCompiler) {
        RustCompiler
    }
}

impl Compiler for RustCompiler {
    open spec fn toolchain(&self) -> Seq<char> {
        "rustc"@
    }

    fn compile(&self, source: &str) -> (job: CompileJob) {
        cc_compile_job("rustc", source)
    }
}

} // verus!
