//! The capability checker: a read-only pass over a fully analyzed package
//! that reports, for every statement, the dynamic-value capabilities the
//! statement requires but the compilation target does not support.

use crate::common::AnalysisError;
use crate::compute::{
    ComputeKind, RuntimeFeatureFlags, TargetCapabilityFlags,
    CYCLED_FUNCTION_APPLICATION_USES_DYNAMIC_ARG, TARGET_ALL, TARGET_FLOATING_POINT_COMPUTATIONS,
    TARGET_FORWARD_BRANCHING, TARGET_HIGHER_LEVEL_CONSTRUCTS, TARGET_INTEGER_COMPUTATIONS,
    USE_OF_DYNAMICALLY_SIZED_ARRAY, USE_OF_DYNAMIC_BOOL, USE_OF_DYNAMIC_DOUBLE,
    USE_OF_DYNAMIC_INT, USE_OF_DYNAMIC_PAULI, USE_OF_DYNAMIC_RANGE,
};
use crate::fir::{Package, Span, Stmt, StmtId};
use crate::index_map::IndexMap;
use crate::scaffolding::PackageComputeProperties;
use vstd::prelude::*;

verus! {

/// A target-incompatibility diagnostic: one entry per violated capability
/// kind per offending statement, carrying the statement's source span.
#[derive(Clone, Copy, Debug, PartialEq, Eq, Structural)]
pub enum Error {
    UseOfDynamicBool(Span),
    UseOfDynamicInt(Span),
    UseOfDynamicPauli(Span),
    UseOfDynamicRange(Span),
    UseOfDynamicDouble(Span),
    UseOfDynamicallySizedArray(Span),
    CyclicFunctionUsesDynamicArg(Span),
}

/// Whether a statement with the given runtime features violates one
/// capability: the feature is used and the capability it needs is not
/// supported by the target.
pub open spec fn spec_violates(
    features: RuntimeFeatureFlags,
    feature: RuntimeFeatureFlags,
    capability: TargetCapabilityFlags,
    target: TargetCapabilityFlags,
) -> bool {
    features & feature != 0 && !target & capability != 0
}

/// The diagnostics one statement's runtime features produce against a
/// target, in a fixed order: dynamic bool, int, Pauli, range, double,
/// dynamically-sized array, cyclic function with dynamic argument. Dynamic
/// booleans need forward branching; dynamic integers, Pauli values and
/// ranges need integer computations; dynamic doubles need floating-point
/// computations; dynamically-sized arrays and cyclic functions applied to
/// dynamic arguments need higher-level constructs.
pub open spec fn spec_errors_for_features(
    features: RuntimeFeatureFlags,
    span: Span,
    target: TargetCapabilityFlags,
) -> Seq<Error> {
    let s0 = Seq::<Error>::empty();
    let s1 = if spec_violates(features, USE_OF_DYNAMIC_BOOL, TARGET_FORWARD_BRANCHING, target) {
        s0.push(Error::UseOfDynamicBool(span))
    } else {
        s0
    };
    let s2 = if spec_violates(features, USE_OF_DYNAMIC_INT, TARGET_INTEGER_COMPUTATIONS, target) {
        s1.push(Error::UseOfDynamicInt(span))
    } else {
        s1
    };
    let s3 = if spec_violates(features, USE_OF_DYNAMIC_PAULI, TARGET_INTEGER_COMPUTATIONS, target) {
        s2.push(Error::UseOfDynamicPauli(span))
    } else {
        s2
    };
    let s4 = if spec_violates(features, USE_OF_DYNAMIC_RANGE, TARGET_INTEGER_COMPUTATIONS, target) {
        s3.push(Error::UseOfDynamicRange(span))
    } else {
        s3
    };
    let s5 = if spec_violates(
        features,
        USE_OF_DYNAMIC_DOUBLE,
        TARGET_FLOATING_POINT_COMPUTATIONS,
        target,
    ) {
        s4.push(Error::UseOfDynamicDouble(span))
    } else {
        s4
    };
    let s6 = if spec_violates(
        features,
        USE_OF_DYNAMICALLY_SIZED_ARRAY,
        TARGET_HIGHER_LEVEL_CONSTRUCTS,
        target,
    ) {
        s5.push(Error::UseOfDynamicallySizedArray(span))
    } else {
        s5
    };
    if spec_violates(
        features,
        CYCLED_FUNCTION_APPLICATION_USES_DYNAMIC_ARG,
        TARGET_HIGHER_LEVEL_CONSTRUCTS,
        target,
    ) {
        s6.push(Error::CyclicFunctionUsesDynamicArg(span))
    } else {
        s6
    }
}

/// The diagnostics of one analyzed statement: a classically computed
/// statement produces none; a quantum statement produces the diagnostics of
/// its inherent runtime features.
pub open spec fn spec_stmt_errors(
    stmt: Stmt,
    entry: crate::compute::ApplicationGeneratorSet,
    target: TargetCapabilityFlags,
) -> Seq<Error> {
    match entry.inherent {
        ComputeKind::Classical => Seq::<Error>::empty(),
        ComputeKind::Quantum(properties) => spec_errors_for_features(
            properties.runtime_features,
            stmt.span,
            target,
        ),
    }
}

/// The diagnostics of the first `n` statement slots of a package, in
/// statement order; slots without a statement or without an analysis entry
/// contribute nothing.
pub open spec fn spec_check(
    stmts: Seq<Option<Stmt>>,
    entries: IndexMap<StmtId, crate::compute::ApplicationGeneratorSet>,
    target: TargetCapabilityFlags,
    n: int,
) -> Seq<Error>
    decreases n,
{
    if n <= 0 {
        Seq::<Error>::empty()
    } else {
        spec_check(stmts, entries, target, n - 1) + (if 0 <= n - 1 < stmts.len() {
            match stmts[n - 1] {
                Some(stmt) => match entries.spec_get(n - 1) {
                    Some(entry) => spec_stmt_errors(stmt, entry, target),
                    None => Seq::<Error>::empty(),
                },
                None => Seq::<Error>::empty(),
            }
        } else {
            Seq::<Error>::empty()
        })
    }
}

/// Computes the diagnostics of one statement's runtime features against a
/// target.
fn generate_errors_from_runtime_features(
    features: RuntimeFeatureFlags,
    span: Span,
    target: TargetCapabilityFlags,
) -> (r: Vec<Error>)
    ensures
        r@ == spec_errors_for_features(features, span, target),
{
    let mut errors: Vec<Error> = Vec::new();
    if features & USE_OF_DYNAMIC_BOOL != 0 && !target & TARGET_FORWARD_BRANCHING != 0 {
        errors.push(Error::UseOfDynamicBool(span));
    }
    if features & USE_OF_DYNAMIC_INT != 0 && !target & TARGET_INTEGER_COMPUTATIONS != 0 {
        errors.push(Error::UseOfDynamicInt(span));
    }
    if features & USE_OF_DYNAMIC_PAULI != 0 && !target & TARGET_INTEGER_COMPUTATIONS != 0 {
        errors.push(Error::UseOfDynamicPauli(span));
    }
    if features & USE_OF_DYNAMIC_RANGE != 0 && !target & TARGET_INTEGER_COMPUTATIONS != 0 {
        errors.push(Error::UseOfDynamicRange(span));
    }
    if features & USE_OF_DYNAMIC_DOUBLE != 0 && !target & TARGET_FLOATING_POINT_COMPUTATIONS != 0 {
        errors.push(Error::UseOfDynamicDouble(span));
    }
    if features & USE_OF_DYNAMICALLY_SIZED_ARRAY != 0 && !target & TARGET_HIGHER_LEVEL_CONSTRUCTS
        != 0 {
        errors.push(Error::UseOfDynamicallySizedArray(span));
    }
    if features & CYCLED_FUNCTION_APPLICATION_USES_DYNAMIC_ARG != 0 && !target
        & TARGET_HIGHER_LEVEL_CONSTRUCTS != 0 {
        errors.push(Error::CyclicFunctionUsesDynamicArg(span));
    }
    proof {
        assert(errors@ =~= spec_errors_for_features(features, span, target));
    }
    errors
}

/// Checks a fully analyzed package against a target's supported capability
/// set: every statement whose inherent runtime features exceed the target's
/// capabilities contributes its diagnostics, in statement order, and nothing
/// is reported otherwise. A statement that was never analyzed means the
/// package is not fully analyzed, which is an internal error.
pub fn check_supported_capabilities(
    package: &Package,
    compute_properties: &PackageComputeProperties,
    target_capabilities: TargetCapabilityFlags,
) -> (r: Result<Vec<Error>, AnalysisError>)
    ensures
        match r {
            Ok(errors) => {
                &&& errors@ == spec_check(
                    package.stmts.slots_view(),
                    compute_properties.stmts,
                    target_capabilities,
                    package.stmts.slots_view().len() as int,
                )
                &&& forall|i: int|
                    package.stmts.spec_get(i) is Some
                        ==> compute_properties.stmts.spec_get(i) is Some
            },
            Err(e) => {
                &&& e == AnalysisError::MalformedProgram
                &&& exists|i: int|
                    package.stmts.spec_get(i) is Some
                        && compute_properties.stmts.spec_get(i) is None
            },
        },
{
    let mut errors: Vec<Error> = Vec::new();
    let stmt_count = package.stmts.slot_count();
    let mut i: usize = 0;
    while i < stmt_count
        invariant
            stmt_count == package.stmts.slots_view().len(),
            i <= stmt_count,
            errors@ == spec_check(
                package.stmts.slots_view(),
                compute_properties.stmts,
                target_capabilities,
                i as int,
            ),
            forall|j: int|
                0 <= j < i && package.stmts.spec_get(j) is Some
                    ==> compute_properties.stmts.spec_get(j) is Some,
        decreases stmt_count - i,
    {
        let stmt_id = StmtId(i);
        match package.stmts.get(stmt_id) {
            Some(stmt) => {
                let entry = match compute_properties.stmts.get(stmt_id) {
                    Some(entry) => entry,
                    None => {
                        return Err(AnalysisError::MalformedProgram);
                    }
                };
                match entry.inherent {
                    ComputeKind::Classical => (),
                    ComputeKind::Quantum(properties) => {
                        let mut stmt_errors = generate_errors_from_runtime_features(
                            properties.runtime_features,
                            stmt.span,
                            target_capabilities,
                        );
                        errors.append(&mut stmt_errors);
                    }
                }
            }
            None => (),
        }
        proof {
            assert(errors@ =~= spec_check(
                package.stmts.slots_view(),
                compute_properties.stmts,
                target_capabilities,
                i + 1,
            ));
        }
        i += 1;
    }
    Ok(errors)
}

/// Against the universal capability set no statement can violate anything:
/// the diagnostics of any features at any span are empty.
pub proof fn lemma_universal_target_accepts_features(
    features: RuntimeFeatureFlags,
    span: Span,
)
    ensures
        spec_errors_for_features(features, span, TARGET_ALL) =~= Seq::<Error>::empty(),
{
    let all = TARGET_ALL;
    assert(all == (1u64 << 0 | 1u64 << 1 | 1u64 << 2 | 1u64 << 3 | 1u64 << 4 | 1u64 << 5));
    assert(!(1u64 << 0 | 1u64 << 1 | 1u64 << 2 | 1u64 << 3 | 1u64 << 4 | 1u64 << 5) & (1u64 << 0)
        == 0) by (bit_vector);
    assert(!(1u64 << 0 | 1u64 << 1 | 1u64 << 2 | 1u64 << 3 | 1u64 << 4 | 1u64 << 5) & (1u64 << 1)
        == 0) by (bit_vector);
    assert(!(1u64 << 0 | 1u64 << 1 | 1u64 << 2 | 1u64 << 3 | 1u64 << 4 | 1u64 << 5) & (1u64 << 2)
        == 0) by (bit_vector);
    assert(!(1u64 << 0 | 1u64 << 1 | 1u64 << 2 | 1u64 << 3 | 1u64 << 4 | 1u64 << 5) & (1u64 << 4)
        == 0) by (bit_vector);
}

/// Checking any fully analyzed package against the universal capability set
/// reports no diagnostics at all.
pub proof fn lemma_universal_target_accepts_package(
    stmts: Seq<Option<Stmt>>,
    entries: IndexMap<StmtId, crate::compute::ApplicationGeneratorSet>,
    n: int,
)
    ensures
        spec_check(stmts, entries, TARGET_ALL, n) =~= Seq::<Error>::empty(),
    decreases n,
{
    if n > 0 {
        lemma_universal_target_accepts_package(stmts, entries, n - 1);
        if 0 <= n - 1 < stmts.len() {
            match stmts[n - 1] {
                Some(stmt) => {
                    match entries.spec_get(n - 1) {
                        Some(entry) => {
                            match entry.inherent {
                                ComputeKind::Classical => (),
                                ComputeKind::Quantum(properties) => {
                                    lemma_universal_target_accepts_features(
                                        properties.runtime_features,
                                        stmt.span,
                                    );
                                }
                            }
                        }
                        None => (),
                    }
                }
                None => (),
            }
        }
    }
}

} // verus!
