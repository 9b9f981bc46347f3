//! The output redirector's state: the memory-backed text writer installed as
//! the hosted program's standard output and error, until it is captured.

use vstd::prelude::*;
use crate::error::ClrError;
use crate::variant::{DynValue, Variant};
use crate::wide::{utf16_encode, utf16_lossy};

verus! {

/// The writer currently armed, if any.
#[derive(Debug)]
pub struct OutputSink {
    pub writer: Option<Variant>,
}

impl OutputSink {
    /// No writer armed.
    pub fn new() -> (r: OutputSink)
        ensures
            r.writer is None,
    {
        OutputSink { writer: None }
    }

    /// Records a fresh writer, installed as both output and error sink; it
    /// replaces any earlier one, so each capture window starts empty.
    pub fn arm(&mut self, writer: Variant)
        ensures
            final(self).writer == Some(writer),
    {
        self.writer = Some(writer);
    }

    /// Hands out the armed writer for capture and releases it here: the next
    /// capture needs a new `arm`. Without an armed writer this fails.
    pub fn take_writer(&mut self) -> (r: Result<Variant, ClrError>)
        ensures
            final(self).writer is None,
            match old(self).writer {
                Some(w) => r == Ok::<Variant, ClrError>(w),
                None => r == Err::<Variant, ClrError>(
                    ClrError::GenericError("No StringWriter instance found"),
                ),
            },
    {
        match self.writer.take() {
            Some(w) => Ok(w),
            None => Err(ClrError::GenericError("No StringWriter instance found")),
        }
    }

    /// The captured text, from the value the writer's text accessor returned:
    /// it must be text; its code units are decoded exactly when valid.
    pub fn captured_text(result: &Variant) -> (r: Result<String, ClrError>)
        ensures
            match result@ {
                DynValue::Text(u) => (r matches Ok(s) && s@ == utf16_lossy(u) && forall|t: Seq<char>|
                    #[trigger] utf16_encode(t) == u ==> s@ == t),
                _ => r == Err::<String, ClrError>(ClrError::VariantUnsupported),
            },
    {
        result.as_string()
    }
}

} // verus!
