//! The C++ toolchain.
use vstd::prelude::*;

use crate::lang::{cc_compile_job, CompileJob};
use crate::runner::Compiler;

verus! {

/// Compiles C++ sources with `g++`.
pub struct CppCompiler;

impl Default for CppCompiler {
    fn default() -> (r: CppCompiler) {
        CppCompiler
    }
}

impl Compiler for CppCompiler {
    open spec fn toolchain(&self) -> Seq<char> {
        "g++"@
    }

    fn compile(&self, source: &str) -> (job: CompileJob) {
        cc_compile_job("g++", source)
    }
}

} // verus!
