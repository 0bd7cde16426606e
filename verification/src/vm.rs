//! What the Fusabi virtual machine hands back from a run: a value or a
//! runtime error, and their renderings.
//!
//! The machine itself is not called from here: a run may fail hard or go
//! on without end, so the caller makes the run and hands its result back.

use fusabi_vm::{Value, VmError};
use vstd::prelude::*;

verus! {

/// A value a script evaluates to.
#[verifier::external_type_specification]
#[verifier::external_body]
pub struct ExValue(Value);

/// Why a run stopped short.
#[verifier::external_type_specification]
#[verifier::external_body]
pub struct ExVmError(VmError);

/// The debug rendering of a runtime error.
pub uninterp spec fn vm_error_text(error: VmError) -> Seq<char>;

/// Renders a script's value through its `Debug` impl. The text gets no
/// name: a value may hold hash maps and locked cells, and what is written
/// of those is not fixed by the value. The rendering goes as deep as the
/// value nests.
#[verifier::external_body]
pub(crate) fn describe_value(value: &Value) -> (text: String) {
    format!("{:?}", value)
}

/// Renders a runtime error through its `Debug` impl. Trusted: the text is
/// a function of the error alone.
#[verifier::external_body]
pub(crate) fn describe_vm_error(error: &VmError) -> (text: String)
    ensures
        text@ == vm_error_text(*error),
{
    format!("{:?}", error)
}

} // verus!
