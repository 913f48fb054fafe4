//! The error taxonomy. Every typechecking failure is a `TypeError` carrying
//! one `TypeMessage`; import resolution adds the cycle error. No local
//! recovery happens inside the typechecker: the first error bubbles out.

use vstd::prelude::*;
use crate::syntax::V;
use crate::value::Value;
use crate::import::ImportLocation;

verus! {

/// The message tags of the typechecker. Mismatch messages carry the two
/// values concerned (actual first, expected second) so a caller can render
/// them.
#[derive(Debug)]
pub enum TypeMessage {
    /// `Sort` has no type: asking for one is this error.
    Sort,
    UnboundVariable(V),
    InvalidInputType(Value),
    InvalidOutputType(Value),
    InvalidFieldType,
    InvalidListType,
    InvalidListElement,
    InvalidOptionalType,
    InvalidTextInterpolation,
    RecordTypeDuplicateField,
    UnionTypeDuplicateField,
    MissingRecordField,
    MissingUnionField,
    NotARecord,
    ApplyToNotPi,
    FunctionAnnotMismatch(Value, Value),
    InvalidPredicate,
    IfBranchMustBeTerm,
    IfBranchMismatch,
    MustCombineRecord,
    RecordTypeMergeRequiresRecordType,
    BinOpTypeMismatch,
    EquivalenceTypeMismatch,
    EquivalenceArgumentsMustBeTerms,
    Merge1ArgMustBeRecord,
    Merge2ArgMustBeUnionOrOptional,
    MergeHandlerTypeMismatch,
    MergeHandlerMissingVariant,
    MergeVariantMissingHandler,
    MergeReturnTypeIsDependent,
    MergeAnnotMismatch,
    MergeEmptyNeedsAnnotation,
    NotAFunction,
    ProjectionMustBeRecord,
    ProjectionMissingEntry,
    ProjectionDuplicateField,
    AnnotMismatch(Value, Value),
    AssertMismatch,
    AssertMustTakeEquivalence,
    /// `toMap`, projection by expression and record completion are not
    /// implemented.
    Unimplemented,
    /// The evaluation budget ran out before a normal form was reached. This
    /// tag stands outside the classic taxonomy: where unbounded recursion
    /// would simply keep running, this crate stops with this error instead.
    /// On well-typed inputs of sane depth it does not happen.
    NormalizationDepthExceeded,
}

/// A fatal typechecking error.
#[derive(Debug)]
pub struct TypeError {
    pub message: TypeMessage,
}

impl TypeError {
    pub fn new(message: TypeMessage) -> (r: TypeError)
        ensures
            r == (TypeError { message }),
    {
        TypeError { message }
    }
}

/// Build the error result for one message tag.
pub fn mkerr<T>(message: TypeMessage) -> (r: Result<T, TypeError>)
    ensures
        r == Result::<T, TypeError>::Err(TypeError { message }),
{
    Result::Err(TypeError::new(message))
}

/// Failures of import resolution.
#[derive(Debug)]
pub enum ImportError {
    /// The stack of imports in flight at the moment the offending location
    /// (the second field) was requested again.
    Cycle(Vec<ImportLocation>, ImportLocation),
}

/// Any failure the resolution-plus-typechecking pipeline can surface.
#[derive(Debug)]
pub enum Error {
    Typecheck(TypeError),
    Import(ImportError),
}

} // verus!
