//! The steps of processing and what runs them.

use crate::cpp_ffi_generator::run;
use crate::database::{ffi_paths_have_text, ProcessorData};
use crate::driver::{appends_distinct_paths, run_preserves, run_result};
use crate::errors::FfiError;
use vstd::prelude::*;

verus! {

/// The work that a step does.
#[derive(Clone, Copy, Debug, PartialEq, Eq, Structural)]
pub enum ProcessingStepKind {
    /// Makes the boundary functions of the items that have none yet.
    CppFfiGenerator,
}

/// A named step of processing.
#[derive(Debug)]
pub struct ProcessingStep {
    pub name: String,
    pub kind: ProcessingStepKind,
}

impl ProcessingStep {
    /// A step with the given name and work.
    pub fn new(name: &str, kind: ProcessingStepKind) -> (r: ProcessingStep)
        ensures
            r.name@ == name@,
            r.kind == kind,
    {
        ProcessingStep { name: String::from_str(name), kind }
    }

    /// Does the work of the step on the data.
    pub fn execute(&self, data: &mut ProcessorData) -> (r: Result<(), FfiError>)
        requires
            ffi_paths_have_text(old(data)@.current_database.ffi_items),
        ensures
            r is Ok,
            self.kind == ProcessingStepKind::CppFfiGenerator ==> final(data)@ == run_result(
                old(data)@,
            ),
            ffi_paths_have_text(final(data)@.current_database.ffi_items),
            self.kind == ProcessingStepKind::CppFfiGenerator ==> run_preserves(
                old(data)@,
                final(data)@,
            ) && appends_distinct_paths(old(data)@, final(data)@),
    {
        match self.kind {
            ProcessingStepKind::CppFfiGenerator => run(data),
        }
    }
}

} // verus!
