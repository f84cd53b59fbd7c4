//! The core analyzer: a single tree visit per application instance that
//! computes a compute kind for every block, statement and expression, plus
//! the closed-form applications tables for intrinsic callables and for
//! specializations that take part in call cycles.

use crate::applications::{
    spec_entities_preserved, ApplicationInstance, GeneratorSetsBuilder, LocalComputeKind,
    LocalsComputeKindMap,
};
use crate::common::{
    derive_callable_input_params, derive_specialization_input_params, package_fuel,
    spec_resolved_callee, store_fuel, try_resolve_callee, AnalysisError, Callee, GlobalSpecId,
    InputParam, Local, LocalKind,
};
use crate::compute::{
    ApplicationGeneratorSet, ComputeKind, QuantumProperties, RuntimeFeatureFlags, RuntimeKind,
    ValueKind, CALL_TO_DYNAMIC_CALLEE, CALL_TO_UNRESOLVED_CALLEE,
    CYCLED_FUNCTION_APPLICATION_USES_DYNAMIC_ARG, CYCLED_OPERATION_SPECIALIZATION_APPLICATION,
    DYNAMIC_QUBIT_ALLOCATION, DYNAMIC_RESULT_ALLOCATION, FORWARD_BRANCHING_ON_DYNAMIC_VALUE,
    USE_OF_CLOSURE, USE_OF_DYNAMICALLY_SIZED_ARRAY, USE_OF_DYNAMIC_ARROW_FUNCTION,
    USE_OF_DYNAMIC_ARROW_OPERATION, USE_OF_DYNAMIC_BIG_INT, USE_OF_DYNAMIC_BOOL,
    USE_OF_DYNAMIC_DOUBLE, USE_OF_DYNAMIC_INDEX, USE_OF_DYNAMIC_INT, USE_OF_DYNAMIC_PAULI,
    USE_OF_DYNAMIC_QUBIT, USE_OF_DYNAMIC_RANGE, USE_OF_DYNAMIC_STRING, USE_OF_DYNAMIC_UDT,
};
use crate::fir::{
    Block, BlockId, CallableImpl, CallableKind, Expr, ExprId, ExprKind, FunctorApp, Stmt,
    FunctorSetValue, ItemKind, LocalVarId, Mutability, Package, PackageId, PackageStore, Pat,
    PatId, PatKind, Prim, Res, StmtId, StmtKind, StringComponent, Ty,
};
use crate::index_map::{Idx, IndexMap};
use crate::scaffolding::{
    spec_block_entries_preserved, spec_expr_entries_preserved, spec_has_stmt,
    spec_packages_preserved, spec_specs_preserved, spec_stmt_entries_preserved, ItemScaffolding,
    PackageStoreScaffolding,
};
use vstd::prelude::*;

verus! {

/// The runtime features required to handle a fully dynamic value of a type:
/// one feature per dynamic primitive, the features of the element type for
/// arrays (plus the dynamically-sized-array feature), and the union over the
/// components for tuples. Generic parameters require nothing by themselves,
/// and dynamic measurement results exist without any extra feature.
pub open spec fn spec_dynamic_features_of_type(ty: Ty) -> RuntimeFeatureFlags
    decreases ty, 0int, 0int,
{
    match ty {
        Ty::Array(content) => USE_OF_DYNAMICALLY_SIZED_ARRAY | spec_dynamic_features_of_type(
            *content,
        ),
        Ty::Arrow(CallableKind::Function) => USE_OF_DYNAMIC_ARROW_FUNCTION,
        Ty::Arrow(CallableKind::Operation) => USE_OF_DYNAMIC_ARROW_OPERATION,
        Ty::Prim(prim) => spec_dynamic_features_of_prim(prim),
        Ty::Tuple(items) => spec_dynamic_features_of_tuple(items@, items@.len() as int),
        Ty::Udt => USE_OF_DYNAMIC_UDT,
        Ty::Param => 0u64,
    }
}

/// The runtime features required to handle a dynamic value of a primitive
/// type.
pub open spec fn spec_dynamic_features_of_prim(prim: Prim) -> RuntimeFeatureFlags {
    match prim {
        Prim::BigInt => USE_OF_DYNAMIC_BIG_INT,
        Prim::Bool => USE_OF_DYNAMIC_BOOL,
        Prim::Double => USE_OF_DYNAMIC_DOUBLE,
        Prim::Int => USE_OF_DYNAMIC_INT,
        Prim::Pauli => USE_OF_DYNAMIC_PAULI,
        Prim::Qubit => USE_OF_DYNAMIC_QUBIT,
        Prim::Range => USE_OF_DYNAMIC_RANGE,
        Prim::RangeFrom => USE_OF_DYNAMIC_RANGE,
        Prim::RangeTo => USE_OF_DYNAMIC_RANGE,
        Prim::RangeFull => USE_OF_DYNAMIC_RANGE,
        Prim::Result => 0u64,
        Prim::String => USE_OF_DYNAMIC_STRING,
    }
}

/// The union of the dynamic-value features of the first `n` types.
pub open spec fn spec_dynamic_features_of_tuple(items: Seq<Ty>, n: int) -> RuntimeFeatureFlags
    decreases items, n, 1int,
{
    if n <= 0 || n > items.len() {
        0u64
    } else {
        proof {
            assert(decreases_to!(items => items[n - 1]));
        }
        spec_dynamic_features_of_tuple(items, n - 1) | spec_dynamic_features_of_type(items[n - 1])
    }
}

/// The runtime features required by a value of the given type and dynamism
/// shape: for arrays, a dynamic size requires the dynamically-sized-array
/// feature and dynamic content requires the content type's features; for
/// every other type, a dynamic shape requires the type's dynamic-value
/// features.
pub open spec fn spec_features_for_value_kind(value_kind: ValueKind, ty: Ty) -> RuntimeFeatureFlags {
    match ty {
        Ty::Array(content) => {
            let (content_kind, size_kind) = match value_kind {
                ValueKind::Array(c, s) => (c, s),
                ValueKind::Element(k) => (k, k),
            };
            (if size_kind == RuntimeKind::Dynamic {
                USE_OF_DYNAMICALLY_SIZED_ARRAY
            } else {
                0u64
            }) | (if content_kind == RuntimeKind::Dynamic {
                spec_dynamic_features_of_type(*content)
            } else {
                0u64
            })
        }
        _ => {
            if value_kind.spec_is_dynamic() {
                spec_dynamic_features_of_type(ty)
            } else {
                0u64
            }
        }
    }
}

/// Computes the dynamic-value features of a type.
pub fn dynamic_features_of_type(ty: &Ty) -> (r: RuntimeFeatureFlags)
    ensures
        r == spec_dynamic_features_of_type(*ty),
    decreases *ty,
{
    match ty {
        Ty::Array(content) => USE_OF_DYNAMICALLY_SIZED_ARRAY | dynamic_features_of_type(&**content),
        Ty::Arrow(CallableKind::Function) => USE_OF_DYNAMIC_ARROW_FUNCTION,
        Ty::Arrow(CallableKind::Operation) => USE_OF_DYNAMIC_ARROW_OPERATION,
        Ty::Prim(prim) => match prim {
            Prim::BigInt => USE_OF_DYNAMIC_BIG_INT,
            Prim::Bool => USE_OF_DYNAMIC_BOOL,
            Prim::Double => USE_OF_DYNAMIC_DOUBLE,
            Prim::Int => USE_OF_DYNAMIC_INT,
            Prim::Pauli => USE_OF_DYNAMIC_PAULI,
            Prim::Qubit => USE_OF_DYNAMIC_QUBIT,
            Prim::Range => USE_OF_DYNAMIC_RANGE,
            Prim::RangeFrom => USE_OF_DYNAMIC_RANGE,
            Prim::RangeTo => USE_OF_DYNAMIC_RANGE,
            Prim::RangeFull => USE_OF_DYNAMIC_RANGE,
            Prim::Result => 0u64,
            Prim::String => USE_OF_DYNAMIC_STRING,
        },
        Ty::Tuple(items) => {
            let mut features: RuntimeFeatureFlags = 0u64;
            let mut i: usize = 0;
            while i < items.len()
                invariant
                    *ty == Ty::Tuple(*items),
                    i <= items@.len(),
                    features == spec_dynamic_features_of_tuple(items@, i as int),
                decreases items@.len() - i,
            {
                proof {
                    assert(decreases_to!(*ty => ty->Tuple_0));
                    assert(decreases_to!(ty->Tuple_0 => ty->Tuple_0@[i as int]));
                    assert(ty->Tuple_0 == *items);
                }
                features = features | dynamic_features_of_type(&items[i]);
                i += 1;
            }
            features
        }
        Ty::Udt => USE_OF_DYNAMIC_UDT,
        Ty::Param => 0u64,
    }
}

/// Computes the runtime features required by a value of the given type and
/// dynamism shape.
pub fn derive_runtime_features_for_value_kind(value_kind: ValueKind, ty: &Ty) -> (r:
    RuntimeFeatureFlags)
    ensures
        r == spec_features_for_value_kind(value_kind, *ty),
{
    match ty {
        Ty::Array(content) => {
            let (content_kind, size_kind) = match value_kind {
                ValueKind::Array(c, s) => (c, s),
                ValueKind::Element(k) => (k, k),
            };
            let size_features: RuntimeFeatureFlags = if matches!(size_kind, RuntimeKind::Dynamic) {
                USE_OF_DYNAMICALLY_SIZED_ARRAY
            } else {
                0u64
            };
            let content_features: RuntimeFeatureFlags = if matches!(
                content_kind,
                RuntimeKind::Dynamic,
            ) {
                dynamic_features_of_type(&**content)
            } else {
                0u64
            };
            size_features | content_features
        }
        _ => {
            if value_kind.is_dynamic() {
                dynamic_features_of_type(ty)
            } else {
                0u64
            }
        }
    }
}

/// The table entry of an intrinsic function for the application in which one
/// parameter of the given type is dynamic: the parameter's type determines
/// the required features, and the output becomes fully dynamic unless it is
/// unit.
pub open spec fn spec_intrinsic_function_param_entry(param_ty: Ty, output_ty: Ty) -> ComputeKind {
    ComputeKind::Quantum(
        QuantumProperties {
            runtime_features: spec_dynamic_features_of_type(param_ty),
            value_kind: if output_ty.spec_is_unit() {
                ValueKind::spec_new_static_from_type(output_ty)
            } else {
                ValueKind::spec_new_dynamic_from_type(output_ty)
            },
        },
    )
}

/// The inherent compute kind of an intrinsic operation: quantum, with no
/// runtime features, and dynamic unless the output is unit or a qubit.
pub open spec fn spec_intrinsic_operation_inherent(output_ty: Ty) -> ComputeKind {
    ComputeKind::Quantum(
        QuantumProperties {
            runtime_features: 0u64,
            value_kind: if output_ty.spec_is_unit() || output_ty.spec_is_prim(Prim::Qubit) {
                ValueKind::spec_new_static_from_type(output_ty)
            } else {
                ValueKind::spec_new_dynamic_from_type(output_ty)
            },
        },
    )
}

/// The table entry of an intrinsic operation for the application in which
/// one parameter of the given type is dynamic.
pub open spec fn spec_intrinsic_operation_param_entry(param_ty: Ty, output_ty: Ty) -> ComputeKind {
    ComputeKind::Quantum(
        QuantumProperties {
            runtime_features: spec_dynamic_features_of_type(param_ty),
            value_kind: if output_ty.spec_is_unit() {
                ValueKind::spec_new_static_from_type(output_ty)
            } else {
                ValueKind::spec_new_dynamic_from_type(output_ty)
            },
        },
    )
}

/// The table entry of a cycled function for any application with a dynamic
/// parameter: the call is assumed to need everything, conveyed by one
/// feature, and the output becomes dynamic unless it is unit.
pub open spec fn spec_cycled_function_param_entry(output_ty: Ty) -> ComputeKind {
    ComputeKind::Quantum(
        QuantumProperties {
            runtime_features: CYCLED_FUNCTION_APPLICATION_USES_DYNAMIC_ARG,
            value_kind: if output_ty.spec_is_unit() {
                ValueKind::spec_new_static_from_type(output_ty)
            } else {
                ValueKind::spec_new_dynamic_from_type(output_ty)
            },
        },
    )
}

/// The compute kind assumed for every application of a cycled operation
/// specialization: operations can allocate and measure freely, so nothing
/// tighter can be derived.
pub open spec fn spec_cycled_operation_compute_kind(output_ty: Ty) -> ComputeKind {
    ComputeKind::Quantum(
        QuantumProperties {
            runtime_features: CYCLED_OPERATION_SPECIALIZATION_APPLICATION,
            value_kind: if output_ty.spec_is_unit() {
                ValueKind::spec_new_static_from_type(output_ty)
            } else {
                ValueKind::spec_new_dynamic_from_type(output_ty)
            },
        },
    )
}

/// The type recorded for a pattern, when the pattern exists.
pub open spec fn spec_pat_ty(pats: IndexMap<PatId, Pat>, pat: PatId) -> Option<Ty> {
    match pats.spec_get(pat.idx()) {
        Some(p) => Some(p.ty),
        None => None,
    }
}

/// Derives the applications table of an intrinsic callable from its
/// signature alone: intrinsics have no body, so a function is inherently
/// classical and an operation inherently quantum, and each parameter's entry
/// assumes the output becomes dynamic at the cost of the features implied by
/// the parameter's type.
pub fn derive_intrinsic_application_generator_set(
    kind: CallableKind,
    input_params: &Vec<InputParam>,
    output_ty: &Ty,
    pats: &IndexMap<PatId, Pat>,
) -> (r: Result<ApplicationGeneratorSet, AnalysisError>)
    ensures
        match r {
            Ok(table) => {
                &&& table.inherent == match kind {
                    CallableKind::Function => ComputeKind::Classical,
                    CallableKind::Operation => spec_intrinsic_operation_inherent(*output_ty),
                }
                &&& table.dynamic_param_applications@.len() == input_params@.len()
                &&& forall|j: int|
                    0 <= j < input_params@.len() ==> spec_pat_ty(
                        *pats,
                        input_params@[j].pat,
                    ) is Some && table.dynamic_param_applications@[j] == match kind {
                        CallableKind::Function => spec_intrinsic_function_param_entry(
                            spec_pat_ty(*pats, input_params@[j].pat)->Some_0,
                            *output_ty,
                        ),
                        CallableKind::Operation => spec_intrinsic_operation_param_entry(
                            spec_pat_ty(*pats, input_params@[j].pat)->Some_0,
                            *output_ty,
                        ),
                    }
            },
            Err(_) => exists|j: int|
                0 <= j < input_params@.len() && spec_pat_ty(
                    *pats,
                    (#[trigger] input_params@[j]).pat,
                ) is None,
        },
{
    let inherent = match kind {
        CallableKind::Function => ComputeKind::Classical,
        CallableKind::Operation => {
            let value_kind = if output_ty.is_unit() || output_ty.is_prim(Prim::Qubit) {
                ValueKind::new_static_from_type(output_ty)
            } else {
                ValueKind::new_dynamic_from_type(output_ty)
            };
            ComputeKind::Quantum(QuantumProperties { runtime_features: 0u64, value_kind })
        }
    };
    let mut dynamic_param_applications: Vec<ComputeKind> = Vec::new();
    let mut i: usize = 0;
    while i < input_params.len()
        invariant
            i <= input_params@.len(),
            dynamic_param_applications@.len() == i as int,
            forall|j: int|
                0 <= j < i ==> spec_pat_ty(*pats, input_params@[j].pat) is Some
                    && dynamic_param_applications@[j] == match kind {
                    CallableKind::Function => spec_intrinsic_function_param_entry(
                        spec_pat_ty(*pats, input_params@[j].pat)->Some_0,
                        *output_ty,
                    ),
                    CallableKind::Operation => spec_intrinsic_operation_param_entry(
                        spec_pat_ty(*pats, input_params@[j].pat)->Some_0,
                        *output_ty,
                    ),
                },
        decreases input_params@.len() - i,
    {
        let param = input_params[i];
        let param_pat = match pats.get(param.pat) {
            Some(pat) => pat,
            None => {
                return Err(AnalysisError::MalformedProgram);
            }
        };
        let runtime_features = dynamic_features_of_type(&param_pat.ty);
        let value_kind = if output_ty.is_unit() {
            ValueKind::new_static_from_type(output_ty)
        } else {
            ValueKind::new_dynamic_from_type(output_ty)
        };
        dynamic_param_applications.push(
            ComputeKind::Quantum(QuantumProperties { runtime_features, value_kind }),
        );
        i += 1;
    }
    Ok(ApplicationGeneratorSet { inherent, dynamic_param_applications })
}

/// Derives the conservative applications table pre-seeded for a
/// specialization that takes part in a call cycle, before the main pass
/// runs: a cycled function stays inherently classical but any dynamic
/// argument is assumed to need everything; a cycled operation is assumed to
/// need everything in every application.
pub fn derive_cycled_application_generator_set(
    kind: CallableKind,
    input_param_count: usize,
    output_ty: &Ty,
) -> (r: ApplicationGeneratorSet)
    ensures
        r.inherent == match kind {
            CallableKind::Function => ComputeKind::Classical,
            CallableKind::Operation => spec_cycled_operation_compute_kind(*output_ty),
        },
        r.dynamic_param_applications@.len() == input_param_count,
        forall|j: int|
            0 <= j < input_param_count ==> r.dynamic_param_applications@[j] == match kind {
                CallableKind::Function => spec_cycled_function_param_entry(*output_ty),
                CallableKind::Operation => spec_cycled_operation_compute_kind(*output_ty),
            },
{
    let value_kind = if output_ty.is_unit() {
        ValueKind::new_static_from_type(output_ty)
    } else {
        ValueKind::new_dynamic_from_type(output_ty)
    };
    let (inherent, param_entry) = match kind {
        CallableKind::Function => (
            ComputeKind::Classical,
            ComputeKind::Quantum(
                QuantumProperties {
                    runtime_features: CYCLED_FUNCTION_APPLICATION_USES_DYNAMIC_ARG,
                    value_kind,
                },
            ),
        ),
        CallableKind::Operation => {
            let compute_kind = ComputeKind::Quantum(
                QuantumProperties {
                    runtime_features: CYCLED_OPERATION_SPECIALIZATION_APPLICATION,
                    value_kind,
                },
            );
            (compute_kind, compute_kind)
        }
    };
    let mut dynamic_param_applications: Vec<ComputeKind> = Vec::new();
    let mut i: usize = 0;
    while i < input_param_count
        invariant
            i <= input_param_count,
            dynamic_param_applications@.len() == i as int,
            forall|j: int| 0 <= j < i ==> dynamic_param_applications@[j] == param_entry,
            param_entry == match kind {
                CallableKind::Function => spec_cycled_function_param_entry(*output_ty),
                CallableKind::Operation => spec_cycled_operation_compute_kind(*output_ty),
            },
        decreases input_param_count - i,
    {
        dynamic_param_applications.push(param_entry);
        i += 1;
    }
    ApplicationGeneratorSet { inherent, dynamic_param_applications }
}

/// Deriving an applications table for an intrinsic signature is a pure
/// function of the signature: two derivations from the same signature yield
/// identical tables.
pub proof fn lemma_intrinsic_derivation_idempotent(
    t1: ApplicationGeneratorSet,
    t2: ApplicationGeneratorSet,
    kind: CallableKind,
    param_tys: Seq<Ty>,
    output_ty: Ty,
)
    requires
        t1.inherent == match kind {
            CallableKind::Function => ComputeKind::Classical,
            CallableKind::Operation => spec_intrinsic_operation_inherent(output_ty),
        },
        t2.inherent == match kind {
            CallableKind::Function => ComputeKind::Classical,
            CallableKind::Operation => spec_intrinsic_operation_inherent(output_ty),
        },
        t1.dynamic_param_applications@.len() == param_tys.len(),
        t2.dynamic_param_applications@.len() == param_tys.len(),
        forall|j: int|
            0 <= j < param_tys.len() ==> t1.dynamic_param_applications@[j] == match kind {
                CallableKind::Function => spec_intrinsic_function_param_entry(
                    param_tys[j],
                    output_ty,
                ),
                CallableKind::Operation => spec_intrinsic_operation_param_entry(
                    param_tys[j],
                    output_ty,
                ),
            },
        forall|j: int|
            0 <= j < param_tys.len() ==> t2.dynamic_param_applications@[j] == match kind {
                CallableKind::Function => spec_intrinsic_function_param_entry(
                    param_tys[j],
                    output_ty,
                ),
                CallableKind::Operation => spec_intrinsic_operation_param_entry(
                    param_tys[j],
                    output_ty,
                ),
            },
    ensures
        t1.inherent == t2.inherent,
        t1.dynamic_param_applications@ == t2.dynamic_param_applications@,
{
    assert(t1.dynamic_param_applications@ =~= t2.dynamic_param_applications@);
}

/// Monotonicity of the derived tables for intrinsic and cycled callables:
/// every dynamic-parameter application requires at least the features of the
/// inherent application, and its value kind is at least as dynamic.
pub proof fn lemma_intrinsic_table_monotone(param_ty: Ty, output_ty: Ty, kind: CallableKind)
    ensures
        ({
            let inherent = match kind {
                CallableKind::Function => ComputeKind::Classical,
                CallableKind::Operation => spec_intrinsic_operation_inherent(output_ty),
            };
            let entry = match kind {
                CallableKind::Function => spec_intrinsic_function_param_entry(param_ty, output_ty),
                CallableKind::Operation => spec_intrinsic_operation_param_entry(
                    param_ty,
                    output_ty,
                ),
            };
            &&& entry.spec_features() & inherent.spec_features() == inherent.spec_features()
            &&& (inherent.spec_is_dynamic() ==> entry.spec_is_dynamic())
            &&& inherent.spec_dynamism_le(entry)
        }),
{
    let inherent = match kind {
        CallableKind::Function => ComputeKind::Classical,
        CallableKind::Operation => spec_intrinsic_operation_inherent(output_ty),
    };
    let entry = match kind {
        CallableKind::Function => spec_intrinsic_function_param_entry(param_ty, output_ty),
        CallableKind::Operation => spec_intrinsic_operation_param_entry(param_ty, output_ty),
    };
    let ef = entry.spec_features();
    assert(ef & 0u64 == 0u64) by (bit_vector);
}

/// Monotonicity of the pre-seeded tables for cycled specializations.
pub proof fn lemma_cycled_table_monotone(output_ty: Ty, kind: CallableKind)
    ensures
        ({
            let inherent = match kind {
                CallableKind::Function => ComputeKind::Classical,
                CallableKind::Operation => spec_cycled_operation_compute_kind(output_ty),
            };
            let entry = match kind {
                CallableKind::Function => spec_cycled_function_param_entry(output_ty),
                CallableKind::Operation => spec_cycled_operation_compute_kind(output_ty),
            };
            &&& entry.spec_features() & inherent.spec_features() == inherent.spec_features()
            &&& (inherent.spec_is_dynamic() ==> entry.spec_is_dynamic())
            &&& inherent.spec_dynamism_le(entry)
        }),
{
    let inherent = match kind {
        CallableKind::Function => ComputeKind::Classical,
        CallableKind::Operation => spec_cycled_operation_compute_kind(output_ty),
    };
    let entry = match kind {
        CallableKind::Function => spec_cycled_function_param_entry(output_ty),
        CallableKind::Operation => spec_cycled_operation_compute_kind(output_ty),
    };
    let ef = entry.spec_features();
    let inf = inherent.spec_features();
    assert(ef & 0u64 == 0u64) by (bit_vector);
    assert(ef == inf ==> ef & inf == inf) by (bit_vector);
}

} // verus!

verus! {

/// The package stored under an identifier.
fn get_package<'a>(store: &'a PackageStore, id: PackageId) -> (r: Result<&'a Package, AnalysisError>)
    ensures
        match r {
            Ok(package) => store.packages.spec_get(id.idx()) == Some(
                *package,
            ),
            Err(_) => true,
        },
{
    match store.get(id) {
        Some(package) => Ok(package),
        None => Err(AnalysisError::MalformedProgram),
    }
}

/// The compute kind recorded for an expression in the active instance.
fn expr_compute_kind(instance: &ApplicationInstance, id: ExprId) -> (r: Result<
    ComputeKind,
    AnalysisError,
>)
    ensures
        match r {
            Ok(kind) => instance.exprs.spec_get(id.idx()) == Some(kind),
            Err(_) => instance.exprs.spec_get(id.idx()) is None,
        },
{
    match instance.exprs.get(id) {
        Some(kind) => Ok(*kind),
        None => Err(AnalysisError::MalformedProgram),
    }
}

/// The compute kind recorded for a statement in the active instance.
fn stmt_compute_kind(instance: &ApplicationInstance, id: StmtId) -> (r: Result<
    ComputeKind,
    AnalysisError,
>)
    ensures
        match r {
            Ok(kind) => instance.stmts.spec_get(id.idx()) == Some(kind),
            Err(_) => instance.stmts.spec_get(id.idx()) is None,
        },
{
    match instance.stmts.get(id) {
        Some(kind) => Ok(*kind),
        None => Err(AnalysisError::MalformedProgram),
    }
}

/// The compute kind recorded for a block in the active instance.
fn block_compute_kind(instance: &ApplicationInstance, id: BlockId) -> (r: Result<
    ComputeKind,
    AnalysisError,
>)
    ensures
        match r {
            Ok(kind) => instance.blocks.spec_get(id.idx()) == Some(kind),
            Err(_) => instance.blocks.spec_get(id.idx()) is None,
        },
{
    match instance.blocks.get(id) {
        Some(kind) => Ok(*kind),
        None => Err(AnalysisError::MalformedProgram),
    }
}

/// The type of the pattern a local was declared by.
fn local_pat_ty<'a>(package: &'a Package, local: &Local) -> (r: Result<&'a Ty, AnalysisError>)
{
    match package.get_pat(local.pat) {
        Some(pat) => Ok(&pat.ty),
        None => Err(AnalysisError::MalformedProgram),
    }
}

/// Splits the argument expression of a call under `controlled` functor
/// applications into the control-register expressions and the remaining
/// argument expression.
fn split_controls_and_input(
    package: &Package,
    args_expr_id: ExprId,
    functor_app: FunctorApp,
) -> (r: Result<(Vec<ExprId>, ExprId), AnalysisError>)
{
    let mut controls: Vec<ExprId> = Vec::new();
    let mut remainder_expr_id = args_expr_id;
    let mut i: usize = 0;
    while i < functor_app.controlled
        decreases functor_app.controlled - i,
    {
        let expr = match package.get_expr(remainder_expr_id) {
            Some(expr) => expr,
            None => {
                return Err(AnalysisError::MalformedProgram);
            }
        };
        match &expr.kind {
            ExprKind::Tuple(items) => {
                if items.len() != 2 {
                    return Err(AnalysisError::MalformedProgram);
                }
                controls.push(items[0]);
                remainder_expr_id = items[1];
            }
            _ => {
                return Err(AnalysisError::MalformedProgram);
            }
        }
        i += 1;
    }
    Ok((controls, remainder_expr_id))
}

/// Maps the input pattern of a callee onto the argument expression of a
/// call, flattening tuples in lock-step: the result holds one argument
/// expression per flattened input parameter, in order. When a tuple pattern
/// is bound to a non-tuple expression, every parameter of the tuple receives
/// that whole expression.
fn map_input_pattern_to_input_exprs(
    callee_package: &Package,
    caller_package: &Package,
    pat_id: PatId,
    expr_id: ExprId,
    arg_exprs: &mut Vec<ExprId>,
    fuel: u64,
) -> (r: Result<(), AnalysisError>)
    decreases fuel,
{
    if fuel == 0 {
        return Err(AnalysisError::BudgetExceeded);
    }
    let pat = match callee_package.get_pat(pat_id) {
        Some(pat) => pat,
        None => {
            return Err(AnalysisError::MalformedProgram);
        }
    };
    match &pat.kind {
        PatKind::Bind(_) | PatKind::Discard => {
            arg_exprs.push(expr_id);
            Ok(())
        }
        PatKind::Tuple(pat_items) => {
            let expr = match caller_package.get_expr(expr_id) {
                Some(expr) => expr,
                None => {
                    return Err(AnalysisError::MalformedProgram);
                }
            };
            match &expr.kind {
                ExprKind::Tuple(expr_items) if expr_items.len() == pat_items.len() => {
                    let mut i: usize = 0;
                    while i < pat_items.len()
                        invariant
                            fuel >= 1,
                            i <= pat_items@.len(),
                            pat_items@.len() == expr_items@.len(),
                        decreases pat_items@.len() - i,
                    {
                        match map_input_pattern_to_input_exprs(
                            callee_package,
                            caller_package,
                            pat_items[i],
                            expr_items[i],
                            arg_exprs,
                            fuel - 1,
                        ) {
                            Ok(()) => (),
                            Err(e) => {
                                return Err(e);
                            }
                        }
                        i += 1;
                    }
                    Ok(())
                }
                _ => {
                    // The whole expression stands for every parameter of the
                    // tuple pattern.
                    let mut i: usize = 0;
                    while i < pat_items.len()
                        invariant
                            fuel >= 1,
                            i <= pat_items@.len(),
                        decreases pat_items@.len() - i,
                    {
                        match map_input_pattern_to_input_exprs(
                            callee_package,
                            caller_package,
                            pat_items[i],
                            expr_id,
                            arg_exprs,
                            fuel - 1,
                        ) {
                            Ok(()) => (),
                            Err(e) => {
                                return Err(e);
                            }
                        }
                        i += 1;
                    }
                    Ok(())
                }
            }
        }
    }
}

/// The compute kind a binding stores for a local: the bound value's
/// dynamism projected onto the shape of the local's type, with exactly the
/// runtime features that type requires for that dynamism.
pub open spec fn spec_bound_local_kind(expr_kind: ComputeKind, pat_ty: Ty) -> ComputeKind {
    match expr_kind {
        ComputeKind::Classical => ComputeKind::Classical,
        ComputeKind::Quantum(properties) => {
            let value_kind = properties.value_kind.spec_projected_onto(
                ValueKind::spec_new_static_from_type(pat_ty),
            );
            ComputeKind::Quantum(
                QuantumProperties {
                    runtime_features: spec_features_for_value_kind(value_kind, pat_ty),
                    value_kind,
                },
            )
        },
    }
}

/// Records a local for a bound name, deriving the local's stored compute
/// kind from the bound value: the value's dynamism is projected onto the
/// shape of the local's type, and the recorded features are exactly those
/// the local's type requires for that dynamism. Features the initializer
/// needed on its own are accounted for at the binding statement, not
/// re-reported at every later read of the local.
fn bind_compute_kind_to_ident(
    instance: &mut ApplicationInstance,
    pat_id: PatId,
    pat_ty: &Ty,
    var: LocalVarId,
    local_kind: LocalKind,
    expr_compute_kind: ComputeKind,
)
    ensures
        spec_entities_preserved(*old(instance), *final(instance)),
        final(instance).active_dynamic_scopes@ == old(instance).active_dynamic_scopes@,
        final(instance).locals_map.kinds.spec_get(var.idx()) == Some(
            spec_bound_local_kind(expr_compute_kind, *pat_ty),
        ),
{
    let compute_kind = match expr_compute_kind {
        ComputeKind::Classical => ComputeKind::Classical,
        ComputeKind::Quantum(properties) => {
            let value_kind = properties.value_kind.projected_onto(
                ValueKind::new_static_from_type(pat_ty),
            );
            ComputeKind::Quantum(
                QuantumProperties {
                    runtime_features: derive_runtime_features_for_value_kind(value_kind, pat_ty),
                    value_kind,
                },
            )
        }
    };
    instance.locals_map.insert(
        var,
        LocalComputeKind {
            local: Local { var, pat: pat_id, kind: local_kind },
            compute_kind,
        },
    );
}

/// Binds the compute kind of a fixed expression to every name bound by a
/// pattern, used when a tuple pattern is bound to a non-tuple expression.
fn bind_fixed_expr_compute_kind_to_pattern(
    package: &Package,
    instance: &mut ApplicationInstance,
    mutability: Mutability,
    pat_id: PatId,
    expr_id: ExprId,
    fuel: u64,
) -> (r: Result<(), AnalysisError>)
    ensures
        spec_entities_preserved(*old(instance), *final(instance)),
        final(instance).active_dynamic_scopes@ == old(instance).active_dynamic_scopes@,
        r is Ok ==> match package.pats.spec_get(pat_id.idx()) {
            Some(pat) => match pat.kind {
                PatKind::Bind(ident) => {
                    &&& old(instance).exprs.spec_get(expr_id.idx()) is Some
                    &&& final(instance).locals_map.kinds.spec_get(ident.id.idx()) == Some(
                        spec_bound_local_kind(
                            old(instance).exprs.spec_get(expr_id.idx())->Some_0,
                            pat.ty,
                        ),
                    )
                },
                _ => true,
            },
            None => false,
        },
    decreases fuel,
{
    if fuel == 0 {
        return Err(AnalysisError::BudgetExceeded);
    }
    let pat = match package.get_pat(pat_id) {
        Some(pat) => pat,
        None => {
            return Err(AnalysisError::MalformedProgram);
        }
    };
    match &pat.kind {
        PatKind::Bind(ident) => {
            let expr_kind_value = expr_compute_kind(instance, expr_id)?;
            let local_kind = match mutability {
                Mutability::Immutable => LocalKind::Immutable(expr_id),
                Mutability::Mutable => LocalKind::Mutable,
            };
            bind_compute_kind_to_ident(
                instance,
                pat_id,
                &pat.ty,
                ident.id,
                local_kind,
                expr_kind_value,
            );
            Ok(())
        }
        PatKind::Tuple(pat_items) => {
            let mut i: usize = 0;
            while i < pat_items.len()
                invariant
                    spec_entities_preserved(*old(instance), *instance),
            instance.active_dynamic_scopes@ == old(instance).active_dynamic_scopes@,
                    fuel >= 1,
                    i <= pat_items@.len(),
                decreases pat_items@.len() - i,
            {
                match bind_fixed_expr_compute_kind_to_pattern(
                    package,
                    instance,
                    mutability,
                    pat_items[i],
                    expr_id,
                    fuel - 1,
                ) {
                    Ok(()) => (),
                    Err(e) => {
                        return Err(e);
                    }
                }
                i += 1;
            }
            Ok(())
        }
        PatKind::Discard => Ok(()),
    }
}

/// Binds the compute kind of an already visited expression to a pattern,
/// flattening tuples in lock-step.
fn bind_expr_compute_kind_to_pattern(
    package: &Package,
    instance: &mut ApplicationInstance,
    mutability: Mutability,
    pat_id: PatId,
    expr_id: ExprId,
    fuel: u64,
) -> (r: Result<(), AnalysisError>)
    ensures
        spec_entities_preserved(*old(instance), *final(instance)),
        final(instance).active_dynamic_scopes@ == old(instance).active_dynamic_scopes@,
        r is Ok ==> match package.pats.spec_get(pat_id.idx()) {
            Some(pat) => match pat.kind {
                PatKind::Bind(ident) => {
                    &&& old(instance).exprs.spec_get(expr_id.idx()) is Some
                    &&& final(instance).locals_map.kinds.spec_get(ident.id.idx()) == Some(
                        spec_bound_local_kind(
                            old(instance).exprs.spec_get(expr_id.idx())->Some_0,
                            pat.ty,
                        ),
                    )
                },
                _ => true,
            },
            None => false,
        },
    decreases fuel,
{
    if fuel == 0 {
        return Err(AnalysisError::BudgetExceeded);
    }
    let pat = match package.get_pat(pat_id) {
        Some(pat) => pat,
        None => {
            return Err(AnalysisError::MalformedProgram);
        }
    };
    match &pat.kind {
        PatKind::Bind(ident) => {
            let expr_kind_value = expr_compute_kind(instance, expr_id)?;
            let local_kind = match mutability {
                Mutability::Immutable => LocalKind::Immutable(expr_id),
                Mutability::Mutable => LocalKind::Mutable,
            };
            bind_compute_kind_to_ident(
                instance,
                pat_id,
                &pat.ty,
                ident.id,
                local_kind,
                expr_kind_value,
            );
            Ok(())
        }
        PatKind::Tuple(pat_items) => {
            let expr = match package.get_expr(expr_id) {
                Some(expr) => expr,
                None => {
                    return Err(AnalysisError::MalformedProgram);
                }
            };
            match &expr.kind {
                ExprKind::Tuple(expr_items) if expr_items.len() == pat_items.len() => {
                    let mut i: usize = 0;
                    while i < pat_items.len()
                        invariant
                            spec_entities_preserved(*old(instance), *instance),
            instance.active_dynamic_scopes@ == old(instance).active_dynamic_scopes@,
                            fuel >= 1,
                            i <= pat_items@.len(),
                            pat_items@.len() == expr_items@.len(),
                        decreases pat_items@.len() - i,
                    {
                        match bind_expr_compute_kind_to_pattern(
                            package,
                            instance,
                            mutability,
                            pat_items[i],
                            expr_items[i],
                            fuel - 1,
                        ) {
                            Ok(()) => (),
                            Err(e) => {
                                return Err(e);
                            }
                        }
                        i += 1;
                    }
                    Ok(())
                }
                _ => bind_fixed_expr_compute_kind_to_pattern(
                    package,
                    instance,
                    mutability,
                    pat_id,
                    expr_id,
                    fuel - 1,
                ),
            }
        }
        PatKind::Discard => Ok(()),
    }
}

} // verus!

verus! {

/// A compute kind with the runtime features its own type implies for its
/// value kind joined in; classical entities are left alone.
pub open spec fn spec_with_type_features(kind: ComputeKind, ty: Ty) -> ComputeKind {
    match kind {
        ComputeKind::Classical => ComputeKind::Classical,
        ComputeKind::Quantum(properties) => ComputeKind::Quantum(
            QuantumProperties {
                runtime_features: properties.runtime_features | spec_features_for_value_kind(
                    properties.value_kind,
                    ty,
                ),
                value_kind: properties.value_kind,
            },
        ),
    }
}

/// The rule for a binary operator expression: both operands are aggregated
/// in full, and a dynamic result additionally costs the features of the
/// expression's own type, which can differ from the operand types.
pub open spec fn spec_bin_op_kind(lhs: ComputeKind, rhs: ComputeKind, ty: Ty) -> ComputeKind {
    spec_with_type_features(
        ComputeKind::Classical.spec_aggregate(lhs).spec_aggregate(rhs),
        ty,
    )
}

/// The rule for an array-repeat expression: value and size features are
/// aggregated, a dynamic size costs the dynamically-sized-array feature, and
/// the result's content and size track the value and size dynamism.
pub open spec fn spec_array_repeat_kind(value: ComputeKind, size: ComputeKind) -> ComputeKind {
    let default = ValueKind::Array(RuntimeKind::Static, RuntimeKind::Static);
    let base = ComputeKind::Classical.spec_aggregate_runtime_features(
        size,
        default,
    ).spec_aggregate_runtime_features(value, default);
    match base {
        ComputeKind::Classical => ComputeKind::Classical,
        ComputeKind::Quantum(properties) => ComputeKind::Quantum(
            QuantumProperties {
                runtime_features: if size.spec_is_dynamic() {
                    properties.runtime_features | USE_OF_DYNAMICALLY_SIZED_ARRAY
                } else {
                    properties.runtime_features
                },
                value_kind: ValueKind::Array(
                    if value.spec_is_dynamic() {
                        RuntimeKind::Dynamic
                    } else {
                        RuntimeKind::Static
                    },
                    if size.spec_is_dynamic() {
                        RuntimeKind::Dynamic
                    } else {
                        RuntimeKind::Static
                    },
                ),
            },
        ),
    }
}

/// The rule for a conditional: the condition and branches contribute their
/// features, and when any of them is dynamic the conditional becomes dynamic
/// at the cost of its type's features.
pub open spec fn spec_if_kind(
    condition: ComputeKind,
    body: ComputeKind,
    otherwise: Option<ComputeKind>,
    ty: Ty,
) -> ComputeKind {
    let default = ValueKind::spec_new_static_from_type(ty);
    let base = ComputeKind::Classical.spec_aggregate_runtime_features(
        condition,
        default,
    ).spec_aggregate_runtime_features(body, default);
    let with_otherwise = match otherwise {
        Some(otherwise_kind) => base.spec_aggregate_runtime_features(otherwise_kind, default),
        None => base,
    };
    let any_dynamic = condition.spec_is_dynamic() || body.spec_is_dynamic() || match otherwise {
        Some(otherwise_kind) => otherwise_kind.spec_is_dynamic(),
        None => false,
    };
    if any_dynamic {
        let dynamic_value_kind = ValueKind::spec_new_dynamic_from_type(ty);
        with_otherwise.spec_aggregate(
            ComputeKind::Quantum(
                QuantumProperties {
                    runtime_features: spec_features_for_value_kind(dynamic_value_kind, ty),
                    value_kind: dynamic_value_kind,
                },
            ),
        )
    } else {
        with_otherwise
    }
}

/// The rule for an array access: array and index features are aggregated,
/// and the result is dynamic when the array's content is dynamic.
pub open spec fn spec_index_kind(array: ComputeKind, index: ComputeKind, ty: Ty) -> ComputeKind {
    let default = ValueKind::spec_new_static_from_type(ty);
    let base = ComputeKind::Classical.spec_aggregate_runtime_features(
        array,
        default,
    ).spec_aggregate_runtime_features(index, default);
    match array {
        ComputeKind::Quantum(array_properties) => {
            let content_is_dynamic = match array_properties.value_kind {
                ValueKind::Array(content, _) => content == RuntimeKind::Dynamic,
                ValueKind::Element(kind) => kind == RuntimeKind::Dynamic,
            };
            if content_is_dynamic {
                base.spec_aggregate_value_kind(ValueKind::spec_new_dynamic_from_type(ty))
            } else {
                base
            }
        }
        ComputeKind::Classical => base,
    }
}

/// The rule for a range expression: start, step and end are aggregated in
/// full, and a dynamic range costs the dynamic-range feature.
pub open spec fn spec_range_kind(
    start: Option<ComputeKind>,
    step: Option<ComputeKind>,
    end: Option<ComputeKind>,
    ty: Ty,
) -> ComputeKind {
    let with_start = match start {
        Some(kind) => ComputeKind::Classical.spec_aggregate(kind),
        None => ComputeKind::Classical,
    };
    let with_step = match step {
        Some(kind) => with_start.spec_aggregate(kind),
        None => with_start,
    };
    let with_end = match end {
        Some(kind) => with_step.spec_aggregate(kind),
        None => with_step,
    };
    if with_end.spec_is_dynamic() {
        with_end.spec_aggregate(
            ComputeKind::Quantum(
                QuantumProperties {
                    runtime_features: USE_OF_DYNAMIC_RANGE,
                    value_kind: ValueKind::spec_new_static_from_type(ty),
                },
            ),
        )
    } else {
        with_end
    }
}

/// The rule for a copy-and-update of a field: record and replacement are
/// aggregated, and either being dynamic makes the result dynamic.
pub open spec fn spec_update_field_kind(record: ComputeKind, replace: ComputeKind) -> ComputeKind {
    let default = ValueKind::Element(RuntimeKind::Static);
    let base = ComputeKind::Classical.spec_aggregate_runtime_features(
        record,
        default,
    ).spec_aggregate_runtime_features(replace, default);
    if record.spec_is_dynamic() || replace.spec_is_dynamic() {
        base.spec_aggregate_value_kind(ValueKind::Element(RuntimeKind::Dynamic))
    } else {
        base
    }
}

/// The rule for a copy-and-update of an array element: the array's shape
/// carries over, a dynamic index costs the dynamic-index feature, and a
/// dynamic index or replacement makes the content dynamic.
pub open spec fn spec_update_index_kind(
    array: ComputeKind,
    index: ComputeKind,
    replacement: ComputeKind,
) -> ComputeKind {
    let default = ValueKind::Array(RuntimeKind::Static, RuntimeKind::Static);
    let base = ComputeKind::Classical.spec_aggregate_runtime_features(
        array,
        default,
    ).spec_aggregate_runtime_features(index, default).spec_aggregate_runtime_features(
        replacement,
        default,
    );
    let with_index_feature = if index.spec_is_dynamic() {
        base.spec_aggregate_runtime_features(
            ComputeKind::Quantum(
                QuantumProperties { runtime_features: USE_OF_DYNAMIC_INDEX, value_kind: default },
            ),
            default,
        )
    } else {
        base
    };
    let with_array_shape = match array {
        ComputeKind::Quantum(array_properties) => with_index_feature.spec_aggregate_value_kind(
            array_properties.value_kind,
        ),
        ComputeKind::Classical => with_index_feature,
    };
    if index.spec_is_dynamic() || replacement.spec_is_dynamic() {
        with_array_shape.spec_aggregate_value_kind(
            ValueKind::Array(RuntimeKind::Dynamic, RuntimeKind::Static),
        )
    } else {
        with_array_shape
    }
}

/// The rule for a while loop: the condition and the single body visit
/// contribute their features; one syntactic pass suffices because the
/// analysis over-approximates by construction.
pub open spec fn spec_while_kind(condition: ComputeKind, block: ComputeKind) -> ComputeKind {
    let default = ValueKind::Element(RuntimeKind::Static);
    ComputeKind::Classical.spec_aggregate_runtime_features(
        condition,
        default,
    ).spec_aggregate_runtime_features(block, default)
}

/// The rule for a field access: the record's features carry over, and the
/// result is dynamic in the shape of its own type when the record is.
pub open spec fn spec_field_kind(record: ComputeKind, ty: Ty) -> ComputeKind {
    let value_kind = if record.spec_is_dynamic() {
        ValueKind::spec_new_dynamic_from_type(ty)
    } else {
        ValueKind::spec_new_static_from_type(ty)
    };
    ComputeKind::Classical.spec_aggregate_runtime_features(record, value_kind)
}

/// The compute kind a recorded entry holds, or classical when absent; the
/// folds below are only applied where presence is separately guaranteed.
pub open spec fn spec_entry_kind(
    entries: IndexMap<ExprId, ComputeKind>,
    id: ExprId,
) -> ComputeKind {
    match entries.spec_get(id.idx()) {
        Some(kind) => kind,
        None => ComputeKind::Classical,
    }
}

/// The runtime-feature fold over the first `n` listed expressions' recorded
/// compute kinds.
pub open spec fn spec_expr_list_fold(
    items: Seq<ExprId>,
    entries: IndexMap<ExprId, ComputeKind>,
    default: ValueKind,
    n: int,
) -> ComputeKind
    decreases n,
{
    if n <= 0 {
        ComputeKind::Classical
    } else {
        spec_expr_list_fold(items, entries, default, n - 1).spec_aggregate_runtime_features(
            spec_entry_kind(entries, items[n - 1]),
            default,
        )
    }
}

/// Whether any of the first `n` listed expressions' recorded compute kinds
/// is dynamic.
pub open spec fn spec_expr_list_any_dynamic(
    items: Seq<ExprId>,
    entries: IndexMap<ExprId, ComputeKind>,
    n: int,
) -> bool
    decreases n,
{
    if n <= 0 {
        false
    } else {
        spec_expr_list_any_dynamic(items, entries, n - 1) || spec_entry_kind(
            entries,
            items[n - 1],
        ).spec_is_dynamic()
    }
}

/// The folds only read the listed entries, so they are unchanged by a
/// traversal step that keeps those entries.
pub proof fn lemma_expr_list_fold_stable(
    items: Seq<ExprId>,
    before: IndexMap<ExprId, ComputeKind>,
    after: IndexMap<ExprId, ComputeKind>,
    default: ValueKind,
    n: int,
)
    requires
        forall|j: int|
            0 <= j < n ==> before.spec_get(items[j].idx()) is Some && after.spec_get(
                items[j].idx(),
            ) == before.spec_get(items[j].idx()),
    ensures
        spec_expr_list_fold(items, after, default, n) == spec_expr_list_fold(
            items,
            before,
            default,
            n,
        ),
        spec_expr_list_any_dynamic(items, after, n) == spec_expr_list_any_dynamic(
            items,
            before,
            n,
        ),
    decreases n,
{
    if n > 0 {
        lemma_expr_list_fold_stable(items, before, after, default, n - 1);
    }
}

/// The folds only read the first `n` listed identifiers, so two lists that
/// agree there fold alike.
pub proof fn lemma_expr_list_fold_prefix(
    first: Seq<ExprId>,
    second: Seq<ExprId>,
    entries: IndexMap<ExprId, ComputeKind>,
    default: ValueKind,
    n: int,
)
    requires
        forall|j: int| 0 <= j < n ==> first[j] == second[j],
    ensures
        spec_expr_list_fold(first, entries, default, n) == spec_expr_list_fold(
            second,
            entries,
            default,
            n,
        ),
        spec_expr_list_any_dynamic(first, entries, n) == spec_expr_list_any_dynamic(
            second,
            entries,
            n,
        ),
    decreases n,
{
    if n > 0 {
        lemma_expr_list_fold_prefix(first, second, entries, default, n - 1);
    }
}

/// The rule for an array literal: the elements' runtime features are
/// aggregated, and the array's content is dynamic when any element is; its
/// size is always static.
pub open spec fn spec_array_literal_kind(
    items: Seq<ExprId>,
    entries: IndexMap<ExprId, ComputeKind>,
) -> ComputeKind {
    let default = ValueKind::Array(RuntimeKind::Static, RuntimeKind::Static);
    let fold = spec_expr_list_fold(items, entries, default, items.len() as int);
    if spec_expr_list_any_dynamic(items, entries, items.len() as int) {
        fold.spec_aggregate_value_kind(ValueKind::Array(RuntimeKind::Dynamic, RuntimeKind::Static))
    } else {
        fold
    }
}

/// The rule for a tuple expression: components are aggregated, and any
/// dynamic component makes the tuple dynamic.
pub open spec fn spec_tuple_kind(
    items: Seq<ExprId>,
    entries: IndexMap<ExprId, ComputeKind>,
) -> ComputeKind {
    let default = ValueKind::Element(RuntimeKind::Static);
    let fold = spec_expr_list_fold(items, entries, default, items.len() as int);
    if spec_expr_list_any_dynamic(items, entries, items.len() as int) {
        fold.spec_aggregate_value_kind(ValueKind::Element(RuntimeKind::Dynamic))
    } else {
        fold
    }
}

/// The interpolated expressions of the first `n` string components.
pub open spec fn spec_component_exprs(components: Seq<StringComponent>, n: int) -> Seq<ExprId>
    decreases n,
{
    if n <= 0 {
        Seq::<ExprId>::empty()
    } else {
        let prefix = spec_component_exprs(components, n - 1);
        match components[n - 1] {
            StringComponent::Expr(id) => prefix.push(id),
            StringComponent::Lit => prefix,
        }
    }
}

/// The rule for a string interpolation: interpolated expressions are
/// aggregated, and any dynamic component makes the string dynamic at the
/// cost of the dynamic-string feature.
pub open spec fn spec_string_kind(
    components: Seq<StringComponent>,
    entries: IndexMap<ExprId, ComputeKind>,
) -> ComputeKind {
    let items = spec_component_exprs(components, components.len() as int);
    let default = ValueKind::Element(RuntimeKind::Static);
    let fold = spec_expr_list_fold(items, entries, default, items.len() as int);
    if spec_expr_list_any_dynamic(items, entries, items.len() as int) {
        match fold {
            ComputeKind::Quantum(properties) => ComputeKind::Quantum(
                QuantumProperties {
                    runtime_features: properties.runtime_features | USE_OF_DYNAMIC_STRING,
                    value_kind: ValueKind::Element(RuntimeKind::Dynamic),
                },
            ),
            ComputeKind::Classical => fold,
        }
    } else {
        fold
    }
}

/// Computes the compute kind of an array literal: the runtime features of
/// every element are aggregated, and the array's content is dynamic when any
/// element is dynamic; its size is always static.
fn analyze_expr_array(
    store: &PackageStore,
    package_id: PackageId,
    scaffolding: &mut PackageStoreScaffolding,
    instance: &mut ApplicationInstance,
    items: &Vec<ExprId>,
    fuel: u64,
) -> (r: Result<ComputeKind, AnalysisError>)
    ensures
        spec_entities_preserved(*old(instance), *final(instance)),
        r is Ok ==> final(instance).active_dynamic_scopes@ == old(instance).active_dynamic_scopes@,
        spec_packages_preserved(*old(scaffolding), *final(scaffolding)),
        spec_specs_preserved(*old(scaffolding), *final(scaffolding)),
        spec_stmt_entries_preserved(*old(scaffolding), *final(scaffolding)),
        spec_block_entries_preserved(*old(scaffolding), *final(scaffolding)),
        spec_expr_entries_preserved(*old(scaffolding), *final(scaffolding)),
        r is Ok ==> {
            &&& forall|j: int|
                0 <= j < items@.len() ==> final(instance).exprs.spec_get(
                    items@[j].idx(),
                ) is Some
            &&& r->Ok_0 == spec_array_literal_kind(items@, final(instance).exprs)
        },
    decreases fuel,
{
    if fuel == 0 {
        return Err(AnalysisError::BudgetExceeded);
    }
    let default_value_kind = ValueKind::Array(RuntimeKind::Static, RuntimeKind::Static);
    let mut compute_kind = ComputeKind::Classical;
    let mut has_dynamic_content = false;
    let mut i: usize = 0;
    while i < items.len()
        invariant
            spec_entities_preserved(*old(instance), *instance),
            instance.active_dynamic_scopes@ == old(instance).active_dynamic_scopes@,
            spec_packages_preserved(*old(scaffolding), *scaffolding),
            spec_specs_preserved(*old(scaffolding), *scaffolding),
            spec_stmt_entries_preserved(*old(scaffolding), *scaffolding),
            spec_block_entries_preserved(*old(scaffolding), *scaffolding),
            spec_expr_entries_preserved(*old(scaffolding), *scaffolding),
            default_value_kind == ValueKind::Array(RuntimeKind::Static, RuntimeKind::Static),
            fuel >= 1,
            i <= items@.len(),
            forall|j: int|
                0 <= j < i ==> instance.exprs.spec_get((#[trigger] items@[j]).idx()) is Some,
            compute_kind == spec_expr_list_fold(items@, instance.exprs, default_value_kind, i as int),
            has_dynamic_content == spec_expr_list_any_dynamic(items@, instance.exprs, i as int),
        decreases items@.len() - i,
    {
        let ghost pre_entries = instance.exprs;
        match visit_expr(store, package_id, scaffolding, instance, items[i], fuel - 1) {
            Ok(()) => (),
            Err(e) => {
                return Err(e);
            }
        }
        proof {
            lemma_expr_list_fold_stable(
                items@,
                pre_entries,
                instance.exprs,
                default_value_kind,
                i as int,
            );
        }
        let item_compute_kind = match expr_compute_kind(instance, items[i]) {
            Ok(kind) => kind,
            Err(e) => {
                return Err(e);
            }
        };
        compute_kind = compute_kind.aggregate_runtime_features(item_compute_kind, default_value_kind);
        if item_compute_kind.is_dynamic() {
            has_dynamic_content = true;
        }
        i += 1;
    }
    if has_dynamic_content {
        compute_kind = compute_kind.aggregate_value_kind(
            ValueKind::Array(RuntimeKind::Dynamic, RuntimeKind::Static),
        );
    }
    Ok(compute_kind)
}

/// Computes the compute kind of an array-repeat expression: the features of
/// the value and size expressions are aggregated, a dynamic size costs the
/// dynamically-sized-array feature, and the result's content and size track
/// the value and size expressions' dynamism respectively.
fn analyze_expr_array_repeat(
    store: &PackageStore,
    package_id: PackageId,
    scaffolding: &mut PackageStoreScaffolding,
    instance: &mut ApplicationInstance,
    value_expr_id: ExprId,
    size_expr_id: ExprId,
    fuel: u64,
) -> (r: Result<ComputeKind, AnalysisError>)
    ensures
        spec_entities_preserved(*old(instance), *final(instance)),
        r is Ok ==> final(instance).active_dynamic_scopes@ == old(instance).active_dynamic_scopes@,
        spec_packages_preserved(*old(scaffolding), *final(scaffolding)),
        spec_specs_preserved(*old(scaffolding), *final(scaffolding)),
        spec_stmt_entries_preserved(*old(scaffolding), *final(scaffolding)),
        spec_block_entries_preserved(*old(scaffolding), *final(scaffolding)),
        spec_expr_entries_preserved(*old(scaffolding), *final(scaffolding)),
        r is Ok ==> {
            let entries = final(instance).exprs;
            &&& entries.spec_get(value_expr_id.idx()) is Some
            &&& entries.spec_get(size_expr_id.idx()) is Some
            &&& r->Ok_0 == spec_array_repeat_kind(
                entries.spec_get(value_expr_id.idx())->Some_0,
                entries.spec_get(size_expr_id.idx())->Some_0,
            )
        },
    decreases fuel,
{
    if fuel == 0 {
        return Err(AnalysisError::BudgetExceeded);
    }
    visit_expr(store, package_id, scaffolding, instance, value_expr_id, fuel - 1)?;
    visit_expr(store, package_id, scaffolding, instance, size_expr_id, fuel - 1)?;
    let size_compute_kind = expr_compute_kind(instance, size_expr_id)?;
    let value_compute_kind = expr_compute_kind(instance, value_expr_id)?;
    let default_value_kind = ValueKind::Array(RuntimeKind::Static, RuntimeKind::Static);
    let mut compute_kind = ComputeKind::Classical;
    compute_kind = compute_kind.aggregate_runtime_features(size_compute_kind, default_value_kind);
    compute_kind = compute_kind.aggregate_runtime_features(value_compute_kind, default_value_kind);
    if let ComputeKind::Quantum(properties) = compute_kind {
        let runtime_features = if size_compute_kind.is_dynamic() {
            properties.runtime_features | USE_OF_DYNAMICALLY_SIZED_ARRAY
        } else {
            properties.runtime_features
        };
        let content = if value_compute_kind.is_dynamic() {
            RuntimeKind::Dynamic
        } else {
            RuntimeKind::Static
        };
        let size = if size_compute_kind.is_dynamic() {
            RuntimeKind::Dynamic
        } else {
            RuntimeKind::Static
        };
        compute_kind = ComputeKind::Quantum(
            QuantumProperties { runtime_features, value_kind: ValueKind::Array(content, size) },
        );
    }
    Ok(compute_kind)
}

/// The rule for updating one local: the assigned value's dynamism is
/// projected onto the local's type, forced fully dynamic inside a dynamic
/// scope, and the features the local's type implies for the resulting
/// dynamism are joined in.
pub open spec fn spec_assignment_update_kind(
    value_entry: ComputeKind,
    local_ty: Ty,
    in_dynamic_scope: bool,
) -> ComputeKind {
    let projected_value_kind = match value_entry {
        ComputeKind::Quantum(properties) => properties.value_kind.spec_projected_onto(
            ValueKind::spec_new_static_from_type(local_ty),
        ),
        ComputeKind::Classical => ValueKind::spec_new_static_from_type(local_ty),
    };
    let base = ComputeKind::Classical.spec_aggregate_runtime_features(
        value_entry,
        projected_value_kind,
    );
    let scoped = if in_dynamic_scope {
        let dynamic_value_kind = ValueKind::spec_new_dynamic_from_type(local_ty);
        base.spec_aggregate(
            ComputeKind::Quantum(
                QuantumProperties {
                    runtime_features: spec_features_for_value_kind(dynamic_value_kind, local_ty),
                    value_kind: dynamic_value_kind,
                },
            ),
        )
    } else {
        base
    };
    spec_with_type_features(scoped, local_ty)
}

/// Updates the compute kind recorded for the locals an assignment writes to,
/// and returns the compute kind of the update. Inside a dynamic scope the
/// updated value is forced dynamic, because the assignment itself was only
/// conditionally executed. For an assignment to a single local, the returned
/// update and the local's new recorded kind are fixed exactly; a tuple
/// assignment applies the same rule element by element.
fn update_locals_compute_kind(
    store: &PackageStore,
    package_id: PackageId,
    locals_map: &mut LocalsComputeKindMap,
    expr_kinds: &IndexMap<ExprId, ComputeKind>,
    in_dynamic_scope: bool,
    assignee_expr_id: ExprId,
    value_expr_id: ExprId,
    fuel: u64,
) -> (r: Result<ComputeKind, AnalysisError>)
    ensures
        r is Ok ==> final(locals_map).locals == old(locals_map).locals,
        r is Ok ==> forall|w: int|
            old(locals_map).kinds.spec_get(w) is Some ==> final(locals_map).kinds.spec_get(
                w,
            ) is Some,
        r is Ok ==> match store.packages.spec_get(package_id.idx()) {
            Some(package) => match package.exprs.spec_get(assignee_expr_id.idx()) {
                Some(assignee) => match assignee.kind {
                    ExprKind::Var(Res::Local(local_var_id)) => {
                        &&& expr_kinds.spec_get(value_expr_id.idx()) is Some
                        &&& old(locals_map).locals.spec_get(local_var_id.idx()) is Some
                        &&& old(locals_map).kinds.spec_get(local_var_id.idx()) is Some
                        &&& match package.pats.spec_get(
                            old(locals_map).locals.spec_get(local_var_id.idx())->Some_0.pat.idx(),
                        ) {
                            Some(local_pat) => {
                                let update = spec_assignment_update_kind(
                                    expr_kinds.spec_get(value_expr_id.idx())->Some_0,
                                    local_pat.ty,
                                    in_dynamic_scope,
                                );
                                &&& r->Ok_0 == update
                                &&& final(locals_map).kinds.spec_get(local_var_id.idx()) == Some(
                                    old(locals_map).kinds.spec_get(
                                        local_var_id.idx(),
                                    )->Some_0.spec_aggregate(update),
                                )
                                &&& final(locals_map).locals == old(locals_map).locals
                                &&& forall|w: int|
                                    w != local_var_id.idx() ==> final(locals_map).kinds.spec_get(w)
                                        == old(locals_map).kinds.spec_get(w)
                            },
                            None => false,
                        }
                    },
                    _ => true,
                },
                None => true,
            },
            None => true,
        },
    decreases fuel,
{
    if fuel == 0 {
        return Err(AnalysisError::BudgetExceeded);
    }
    let package = match get_package(store, package_id) {
        Ok(package) => package,
        Err(e) => {
            return Err(e);
        }
    };
    let assignee_expr = match package.get_expr(assignee_expr_id) {
        Some(expr) => expr,
        None => {
            return Err(AnalysisError::MalformedProgram);
        }
    };
    match &assignee_expr.kind {
        ExprKind::Var(Res::Local(local_var_id)) => {
            let value_compute_kind = match expr_kinds.get(value_expr_id) {
                Some(kind) => *kind,
                None => {
                    return Err(AnalysisError::MalformedProgram);
                }
            };
            let local = match locals_map.find_local(*local_var_id) {
                Some(local) => *local,
                None => {
                    return Err(AnalysisError::MalformedProgram);
                }
            };
            let local_ty = match package.get_pat(local.pat) {
                Some(pat) => &pat.ty,
                None => {
                    return Err(AnalysisError::MalformedProgram);
                }
            };
            let mut value_kind = ValueKind::new_static_from_type(local_ty);
            if let ComputeKind::Quantum(value_properties) = value_compute_kind {
                value_kind = value_properties.value_kind.projected_onto(value_kind);
            }
            let mut updated_compute_kind = ComputeKind::Classical;
            updated_compute_kind = updated_compute_kind.aggregate_runtime_features(
                value_compute_kind,
                value_kind,
            );
            if in_dynamic_scope {
                let dynamic_value_kind = ValueKind::new_dynamic_from_type(local_ty);
                let dynamic_runtime_features = derive_runtime_features_for_value_kind(
                    dynamic_value_kind,
                    local_ty,
                );
                updated_compute_kind = updated_compute_kind.aggregate(
                    ComputeKind::Quantum(
                        QuantumProperties {
                            runtime_features: dynamic_runtime_features,
                            value_kind: dynamic_value_kind,
                        },
                    ),
                );
            }
            if let ComputeKind::Quantum(updated_properties) = updated_compute_kind {
                updated_compute_kind = ComputeKind::Quantum(
                    QuantumProperties {
                        runtime_features: updated_properties.runtime_features
                            | derive_runtime_features_for_value_kind(
                            updated_properties.value_kind,
                            local_ty,
                        ),
                        value_kind: updated_properties.value_kind,
                    },
                );
            }
            match locals_map.aggregate_compute_kind(*local_var_id, updated_compute_kind) {
                Ok(()) => (),
                Err(e) => {
                    return Err(e);
                }
            }
            Ok(updated_compute_kind)
        }
        ExprKind::Tuple(assignee_items) => {
            let value_expr = match package.get_expr(value_expr_id) {
                Some(expr) => expr,
                None => {
                    return Err(AnalysisError::MalformedProgram);
                }
            };
            let default_value_kind = ValueKind::new_static_from_type(&value_expr.ty);
            match &value_expr.kind {
                ExprKind::Tuple(value_items) if value_items.len() == assignee_items.len() => {
                    let mut updated_compute_kind = ComputeKind::Classical;
                    let mut i: usize = 0;
                    while i < assignee_items.len()
                        invariant
                            fuel >= 1,
                            i <= assignee_items@.len(),
                            assignee_items@.len() == value_items@.len(),
                            locals_map.locals == old(locals_map).locals,
                            forall|w: int|
                                old(locals_map).kinds.spec_get(w) is Some
                                    ==> locals_map.kinds.spec_get(w) is Some,
                        decreases assignee_items@.len() - i,
                    {
                        let element_updated = match update_locals_compute_kind(
                            store,
                            package_id,
                            locals_map,
                            expr_kinds,
                            in_dynamic_scope,
                            assignee_items[i],
                            value_items[i],
                            fuel - 1,
                        ) {
                            Ok(kind) => kind,
                            Err(e) => {
                                return Err(e);
                            }
                        };
                        updated_compute_kind = updated_compute_kind.aggregate_runtime_features(
                            element_updated,
                            default_value_kind,
                        );
                        i += 1;
                    }
                    Ok(updated_compute_kind)
                }
                _ => Err(AnalysisError::MalformedProgram),
            }
        }
        _ => Err(AnalysisError::MalformedProgram),
    }
}

/// Computes the compute kind of an assignment: the locals written to are
/// updated, and the assignment expression itself carries only the features
/// of the update.
fn analyze_expr_assign(
    store: &PackageStore,
    package_id: PackageId,
    scaffolding: &mut PackageStoreScaffolding,
    instance: &mut ApplicationInstance,
    assignee_expr_id: ExprId,
    value_expr_id: ExprId,
    fuel: u64,
) -> (r: Result<ComputeKind, AnalysisError>)
    ensures
        spec_entities_preserved(*old(instance), *final(instance)),
        r is Ok ==> final(instance).active_dynamic_scopes@ == old(instance).active_dynamic_scopes@,
        spec_packages_preserved(*old(scaffolding), *final(scaffolding)),
        spec_specs_preserved(*old(scaffolding), *final(scaffolding)),
        spec_stmt_entries_preserved(*old(scaffolding), *final(scaffolding)),
        spec_block_entries_preserved(*old(scaffolding), *final(scaffolding)),
        spec_expr_entries_preserved(*old(scaffolding), *final(scaffolding)),
        r is Ok ==> match store.packages.spec_get(package_id.idx()) {
            Some(package) => match package.exprs.spec_get(assignee_expr_id.idx()) {
                Some(assignee) => match assignee.kind {
                    ExprKind::Var(Res::Local(local_var_id)) => {
                        &&& final(instance).exprs.spec_get(value_expr_id.idx()) is Some
                        &&& final(instance).locals_map.locals.spec_get(local_var_id.idx()) is Some
                        &&& final(instance).locals_map.kinds.spec_get(local_var_id.idx()) is Some
                        &&& match package.pats.spec_get(
                            final(instance).locals_map.locals.spec_get(
                                local_var_id.idx(),
                            )->Some_0.pat.idx(),
                        ) {
                            Some(local_pat) => r->Ok_0
                                == ComputeKind::Classical.spec_aggregate_runtime_features(
                                spec_assignment_update_kind(
                                    final(instance).exprs.spec_get(value_expr_id.idx())->Some_0,
                                    local_pat.ty,
                                    old(instance).active_dynamic_scopes@.len() > 0,
                                ),
                                ValueKind::Element(RuntimeKind::Static),
                            ),
                            None => false,
                        }
                    },
                    _ => true,
                },
                None => true,
            },
            None => true,
        },
    decreases fuel,
{
    if fuel == 0 {
        return Err(AnalysisError::BudgetExceeded);
    }
    visit_expr(store, package_id, scaffolding, instance, assignee_expr_id, fuel - 1)?;
    visit_expr(store, package_id, scaffolding, instance, value_expr_id, fuel - 1)?;
    let in_dynamic_scope = instance.active_dynamic_scopes.len() > 0;
    let updated_compute_kind = update_locals_compute_kind(
        store,
        package_id,
        &mut instance.locals_map,
        &instance.exprs,
        in_dynamic_scope,
        assignee_expr_id,
        value_expr_id,
        fuel - 1,
    )?;
    let mut compute_kind = ComputeKind::Classical;
    compute_kind = compute_kind.aggregate_runtime_features(
        updated_compute_kind,
        ValueKind::Element(RuntimeKind::Static),
    );
    Ok(compute_kind)
}

/// Computes the compute kind of an in-place array-element assignment: the
/// written array local becomes dynamic in content when the replacement is
/// dynamic, and a dynamic index costs an extra feature.
fn analyze_expr_assign_index(
    store: &PackageStore,
    package_id: PackageId,
    scaffolding: &mut PackageStoreScaffolding,
    instance: &mut ApplicationInstance,
    array_var_expr_id: ExprId,
    index_expr_id: ExprId,
    replacement_expr_id: ExprId,
    fuel: u64,
) -> (r: Result<ComputeKind, AnalysisError>)
    ensures
        spec_entities_preserved(*old(instance), *final(instance)),
        r is Ok ==> final(instance).active_dynamic_scopes@ == old(instance).active_dynamic_scopes@,
        spec_packages_preserved(*old(scaffolding), *final(scaffolding)),
        spec_specs_preserved(*old(scaffolding), *final(scaffolding)),
        spec_stmt_entries_preserved(*old(scaffolding), *final(scaffolding)),
        spec_block_entries_preserved(*old(scaffolding), *final(scaffolding)),
        spec_expr_entries_preserved(*old(scaffolding), *final(scaffolding)),
        r is Ok ==> {
            let entries = final(instance).exprs;
            let element_default = ValueKind::Element(RuntimeKind::Static);
            &&& entries.spec_get(index_expr_id.idx()) is Some
            &&& entries.spec_get(replacement_expr_id.idx()) is Some
            &&& {
                let index_kind = entries.spec_get(index_expr_id.idx())->Some_0;
                let replacement_kind = entries.spec_get(replacement_expr_id.idx())->Some_0;
                let base = ComputeKind::Classical.spec_aggregate_runtime_features(
                    index_kind,
                    element_default,
                ).spec_aggregate_runtime_features(replacement_kind, element_default);
                r->Ok_0 == if index_kind.spec_is_dynamic() {
                    base.spec_aggregate_runtime_features(
                        ComputeKind::Quantum(
                            QuantumProperties {
                                runtime_features: USE_OF_DYNAMIC_INDEX,
                                value_kind: element_default,
                            },
                        ),
                        element_default,
                    )
                } else {
                    base
                }
            }
            &&& match store.packages.spec_get(package_id.idx()) {
                Some(package) => match package.exprs.spec_get(array_var_expr_id.idx()) {
                    Some(array_var) => match array_var.kind {
                        ExprKind::Var(Res::Local(local_var_id)) => final(instance)
                            .locals_map.kinds.spec_get(local_var_id.idx()) is Some,
                        _ => false,
                    },
                    None => false,
                },
                None => false,
            }
        },
    decreases fuel,
{
    if fuel == 0 {
        return Err(AnalysisError::BudgetExceeded);
    }
    visit_expr(store, package_id, scaffolding, instance, array_var_expr_id, fuel - 1)?;
    visit_expr(store, package_id, scaffolding, instance, index_expr_id, fuel - 1)?;
    visit_expr(store, package_id, scaffolding, instance, replacement_expr_id, fuel - 1)?;
    let replacement_compute_kind = expr_compute_kind(instance, replacement_expr_id)?;
    let default_value_kind = ValueKind::Array(RuntimeKind::Static, RuntimeKind::Static);
    let mut updated_compute_kind = ComputeKind::Classical;
    updated_compute_kind = updated_compute_kind.aggregate_runtime_features(
        replacement_compute_kind,
        default_value_kind,
    );
    if replacement_compute_kind.is_dynamic() {
        updated_compute_kind = updated_compute_kind.aggregate_value_kind(
            ValueKind::Array(RuntimeKind::Dynamic, RuntimeKind::Static),
        );
    }
    let package = get_package(store, package_id)?;
    let array_var_expr = match package.get_expr(array_var_expr_id) {
        Some(expr) => expr,
        None => {
            return Err(AnalysisError::MalformedProgram);
        }
    };
    let local_var_id = match &array_var_expr.kind {
        ExprKind::Var(Res::Local(local_var_id)) => *local_var_id,
        _ => {
            return Err(AnalysisError::MalformedProgram);
        }
    };
    match instance.locals_map.aggregate_compute_kind(local_var_id, updated_compute_kind) {
        Ok(()) => (),
        Err(e) => {
            return Err(e);
        }
    }
    let index_compute_kind = expr_compute_kind(instance, index_expr_id)?;
    let element_default = ValueKind::Element(RuntimeKind::Static);
    let mut compute_kind = ComputeKind::Classical;
    compute_kind = compute_kind.aggregate_runtime_features(index_compute_kind, element_default);
    compute_kind = compute_kind.aggregate_runtime_features(replacement_compute_kind, element_default);
    if index_compute_kind.is_dynamic() {
        compute_kind = compute_kind.aggregate_runtime_features(
            ComputeKind::new_with_runtime_features(USE_OF_DYNAMIC_INDEX, element_default),
            element_default,
        );
    }
    Ok(compute_kind)
}

/// Computes the compute kind of a binary operator expression: the operands
/// are aggregated in full, and a dynamic result additionally costs the
/// features its own type implies, since the result type can differ from the
/// operand types.
fn analyze_expr_bin_op(
    store: &PackageStore,
    package_id: PackageId,
    scaffolding: &mut PackageStoreScaffolding,
    instance: &mut ApplicationInstance,
    lhs_expr_id: ExprId,
    rhs_expr_id: ExprId,
    expr_ty: &Ty,
    fuel: u64,
) -> (r: Result<ComputeKind, AnalysisError>)
    ensures
        spec_entities_preserved(*old(instance), *final(instance)),
        r is Ok ==> final(instance).active_dynamic_scopes@ == old(instance).active_dynamic_scopes@,
        spec_packages_preserved(*old(scaffolding), *final(scaffolding)),
        spec_specs_preserved(*old(scaffolding), *final(scaffolding)),
        spec_stmt_entries_preserved(*old(scaffolding), *final(scaffolding)),
        spec_block_entries_preserved(*old(scaffolding), *final(scaffolding)),
        spec_expr_entries_preserved(*old(scaffolding), *final(scaffolding)),
        r is Ok ==> {
            let entries = final(instance).exprs;
            &&& entries.spec_get(lhs_expr_id.idx()) is Some
            &&& entries.spec_get(rhs_expr_id.idx()) is Some
            &&& r->Ok_0 == spec_bin_op_kind(
                entries.spec_get(lhs_expr_id.idx())->Some_0,
                entries.spec_get(rhs_expr_id.idx())->Some_0,
                *expr_ty,
            )
        },
    decreases fuel,
{
    if fuel == 0 {
        return Err(AnalysisError::BudgetExceeded);
    }
    visit_expr(store, package_id, scaffolding, instance, lhs_expr_id, fuel - 1)?;
    visit_expr(store, package_id, scaffolding, instance, rhs_expr_id, fuel - 1)?;
    let lhs_compute_kind = expr_compute_kind(instance, lhs_expr_id)?;
    let rhs_compute_kind = expr_compute_kind(instance, rhs_expr_id)?;
    let mut compute_kind = ComputeKind::Classical;
    compute_kind = compute_kind.aggregate(lhs_compute_kind);
    compute_kind = compute_kind.aggregate(rhs_compute_kind);
    if let ComputeKind::Quantum(properties) = compute_kind {
        compute_kind = ComputeKind::Quantum(
            QuantumProperties {
                runtime_features: properties.runtime_features
                    | derive_runtime_features_for_value_kind(properties.value_kind, expr_ty),
                value_kind: properties.value_kind,
            },
        );
    }
    Ok(compute_kind)
}

/// Computes the compute kind of a conditional: a dynamic condition opens a
/// dynamic scope around the branches, and when any sub-expression is dynamic
/// the whole conditional becomes dynamic at the cost of its type's features.
fn analyze_expr_if(
    store: &PackageStore,
    package_id: PackageId,
    scaffolding: &mut PackageStoreScaffolding,
    instance: &mut ApplicationInstance,
    condition_expr_id: ExprId,
    body_expr_id: ExprId,
    otherwise_expr_id: Option<ExprId>,
    expr_ty: &Ty,
    fuel: u64,
) -> (r: Result<ComputeKind, AnalysisError>)
    ensures
        spec_entities_preserved(*old(instance), *final(instance)),
        r is Ok ==> final(instance).active_dynamic_scopes@ == old(instance).active_dynamic_scopes@,
        spec_packages_preserved(*old(scaffolding), *final(scaffolding)),
        spec_specs_preserved(*old(scaffolding), *final(scaffolding)),
        spec_stmt_entries_preserved(*old(scaffolding), *final(scaffolding)),
        spec_block_entries_preserved(*old(scaffolding), *final(scaffolding)),
        spec_expr_entries_preserved(*old(scaffolding), *final(scaffolding)),
        r is Ok ==> {
            let entries = final(instance).exprs;
            &&& entries.spec_get(condition_expr_id.idx()) is Some
            &&& entries.spec_get(body_expr_id.idx()) is Some
            &&& (otherwise_expr_id is Some ==> entries.spec_get(
                otherwise_expr_id->Some_0.idx(),
            ) is Some)
            &&& r->Ok_0 == spec_if_kind(
                entries.spec_get(condition_expr_id.idx())->Some_0,
                entries.spec_get(body_expr_id.idx())->Some_0,
                match otherwise_expr_id {
                    Some(otherwise) => Some(entries.spec_get(otherwise.idx())->Some_0),
                    None => None,
                },
                *expr_ty,
            )
        },
    decreases fuel,
{
    if fuel == 0 {
        return Err(AnalysisError::BudgetExceeded);
    }
    visit_expr(store, package_id, scaffolding, instance, condition_expr_id, fuel - 1)?;
    let scope_condition_kind = expr_compute_kind(instance, condition_expr_id)?;
    let within_dynamic_scope = scope_condition_kind.is_dynamic();
    if within_dynamic_scope {
        instance.active_dynamic_scopes.push(condition_expr_id);
    }
    visit_expr(store, package_id, scaffolding, instance, body_expr_id, fuel - 1)?;
    if let Some(otherwise) = otherwise_expr_id {
        visit_expr(store, package_id, scaffolding, instance, otherwise, fuel - 1)?;
    }
    if within_dynamic_scope {
        match instance.active_dynamic_scopes.pop() {
            Some(popped) => {
                if popped != condition_expr_id {
                    return Err(AnalysisError::MalformedProgram);
                }
            }
            None => {
                return Err(AnalysisError::MalformedProgram);
            }
        }
    }
    let default_value_kind = ValueKind::new_static_from_type(expr_ty);
    let condition_compute_kind = expr_compute_kind(instance, condition_expr_id)?;
    let mut compute_kind = ComputeKind::Classical;
    compute_kind = compute_kind.aggregate_runtime_features(condition_compute_kind, default_value_kind);
    let body_compute_kind = expr_compute_kind(instance, body_expr_id)?;
    compute_kind = compute_kind.aggregate_runtime_features(body_compute_kind, default_value_kind);
    let mut is_any_sub_expr_dynamic = condition_compute_kind.is_dynamic()
        || body_compute_kind.is_dynamic();
    if let Some(otherwise) = otherwise_expr_id {
        let otherwise_compute_kind = expr_compute_kind(instance, otherwise)?;
        compute_kind = compute_kind.aggregate_runtime_features(
            otherwise_compute_kind,
            default_value_kind,
        );
        if otherwise_compute_kind.is_dynamic() {
            is_any_sub_expr_dynamic = true;
        }
    }
    if is_any_sub_expr_dynamic {
        let dynamic_value_kind = ValueKind::new_dynamic_from_type(expr_ty);
        let dynamic_runtime_features = derive_runtime_features_for_value_kind(
            dynamic_value_kind,
            expr_ty,
        );
        compute_kind = compute_kind.aggregate(
            ComputeKind::Quantum(
                QuantumProperties {
                    runtime_features: dynamic_runtime_features,
                    value_kind: dynamic_value_kind,
                },
            ),
        );
    }
    Ok(compute_kind)
}

/// Computes the compute kind of an array access: the array and index
/// features are aggregated, and the result is dynamic when the array's
/// content is dynamic.
fn analyze_expr_index(
    store: &PackageStore,
    package_id: PackageId,
    scaffolding: &mut PackageStoreScaffolding,
    instance: &mut ApplicationInstance,
    array_expr_id: ExprId,
    index_expr_id: ExprId,
    expr_ty: &Ty,
    fuel: u64,
) -> (r: Result<ComputeKind, AnalysisError>)
    ensures
        spec_entities_preserved(*old(instance), *final(instance)),
        r is Ok ==> final(instance).active_dynamic_scopes@ == old(instance).active_dynamic_scopes@,
        spec_packages_preserved(*old(scaffolding), *final(scaffolding)),
        spec_specs_preserved(*old(scaffolding), *final(scaffolding)),
        spec_stmt_entries_preserved(*old(scaffolding), *final(scaffolding)),
        spec_block_entries_preserved(*old(scaffolding), *final(scaffolding)),
        spec_expr_entries_preserved(*old(scaffolding), *final(scaffolding)),
        r is Ok ==> {
            let entries = final(instance).exprs;
            &&& entries.spec_get(array_expr_id.idx()) is Some
            &&& entries.spec_get(index_expr_id.idx()) is Some
            &&& r->Ok_0 == spec_index_kind(
                entries.spec_get(array_expr_id.idx())->Some_0,
                entries.spec_get(index_expr_id.idx())->Some_0,
                *expr_ty,
            )
        },
    decreases fuel,
{
    if fuel == 0 {
        return Err(AnalysisError::BudgetExceeded);
    }
    visit_expr(store, package_id, scaffolding, instance, array_expr_id, fuel - 1)?;
    visit_expr(store, package_id, scaffolding, instance, index_expr_id, fuel - 1)?;
    let array_compute_kind = expr_compute_kind(instance, array_expr_id)?;
    let index_compute_kind = expr_compute_kind(instance, index_expr_id)?;
    let default_value_kind = ValueKind::new_static_from_type(expr_ty);
    let mut compute_kind = ComputeKind::Classical;
    compute_kind = compute_kind.aggregate_runtime_features(array_compute_kind, default_value_kind);
    compute_kind = compute_kind.aggregate_runtime_features(index_compute_kind, default_value_kind);
    if let ComputeKind::Quantum(array_properties) = array_compute_kind {
        let content_is_dynamic = match array_properties.value_kind {
            ValueKind::Array(content, _) => matches!(content, RuntimeKind::Dynamic),
            ValueKind::Element(kind) => matches!(kind, RuntimeKind::Dynamic),
        };
        if content_is_dynamic {
            compute_kind = compute_kind.aggregate_value_kind(
                ValueKind::new_dynamic_from_type(expr_ty),
            );
        }
    }
    Ok(compute_kind)
}

/// Computes the compute kind of a range expression: the start, step and end
/// are aggregated in full, and a dynamic range costs the dynamic-range
/// feature.
fn analyze_expr_range(
    store: &PackageStore,
    package_id: PackageId,
    scaffolding: &mut PackageStoreScaffolding,
    instance: &mut ApplicationInstance,
    start_expr_id: Option<ExprId>,
    step_expr_id: Option<ExprId>,
    end_expr_id: Option<ExprId>,
    expr_ty: &Ty,
    fuel: u64,
) -> (r: Result<ComputeKind, AnalysisError>)
    ensures
        spec_entities_preserved(*old(instance), *final(instance)),
        r is Ok ==> final(instance).active_dynamic_scopes@ == old(instance).active_dynamic_scopes@,
        spec_packages_preserved(*old(scaffolding), *final(scaffolding)),
        spec_specs_preserved(*old(scaffolding), *final(scaffolding)),
        spec_stmt_entries_preserved(*old(scaffolding), *final(scaffolding)),
        spec_block_entries_preserved(*old(scaffolding), *final(scaffolding)),
        spec_expr_entries_preserved(*old(scaffolding), *final(scaffolding)),
        r is Ok ==> {
            let entries = final(instance).exprs;
            &&& (start_expr_id is Some ==> entries.spec_get(start_expr_id->Some_0.idx()) is Some)
            &&& (step_expr_id is Some ==> entries.spec_get(step_expr_id->Some_0.idx()) is Some)
            &&& (end_expr_id is Some ==> entries.spec_get(end_expr_id->Some_0.idx()) is Some)
            &&& r->Ok_0 == spec_range_kind(
                match start_expr_id {
                    Some(start) => Some(entries.spec_get(start.idx())->Some_0),
                    None => None,
                },
                match step_expr_id {
                    Some(step) => Some(entries.spec_get(step.idx())->Some_0),
                    None => None,
                },
                match end_expr_id {
                    Some(end) => Some(entries.spec_get(end.idx())->Some_0),
                    None => None,
                },
                *expr_ty,
            )
        },
    decreases fuel,
{
    if fuel == 0 {
        return Err(AnalysisError::BudgetExceeded);
    }
    if let Some(start) = start_expr_id {
        visit_expr(store, package_id, scaffolding, instance, start, fuel - 1)?;
    }
    if let Some(step) = step_expr_id {
        visit_expr(store, package_id, scaffolding, instance, step, fuel - 1)?;
    }
    if let Some(end) = end_expr_id {
        visit_expr(store, package_id, scaffolding, instance, end, fuel - 1)?;
    }
    let mut compute_kind = ComputeKind::Classical;
    if let Some(start) = start_expr_id {
        compute_kind = compute_kind.aggregate(expr_compute_kind(instance, start)?);
    }
    if let Some(step) = step_expr_id {
        compute_kind = compute_kind.aggregate(expr_compute_kind(instance, step)?);
    }
    if let Some(end) = end_expr_id {
        compute_kind = compute_kind.aggregate(expr_compute_kind(instance, end)?);
    }
    if compute_kind.is_dynamic() {
        compute_kind = compute_kind.aggregate(
            ComputeKind::new_with_runtime_features(
                USE_OF_DYNAMIC_RANGE,
                ValueKind::new_static_from_type(expr_ty),
            ),
        );
    }
    Ok(compute_kind)
}

/// Computes the compute kind of a return expression: the returned value's
/// features propagate, and the value expression is recorded for the
/// instance-level value kind aggregation.
fn analyze_expr_return(
    store: &PackageStore,
    package_id: PackageId,
    scaffolding: &mut PackageStoreScaffolding,
    instance: &mut ApplicationInstance,
    value_expr_id: ExprId,
    fuel: u64,
) -> (r: Result<ComputeKind, AnalysisError>)
    ensures
        spec_entities_preserved(*old(instance), *final(instance)),
        r is Ok ==> final(instance).active_dynamic_scopes@ == old(instance).active_dynamic_scopes@,
        spec_packages_preserved(*old(scaffolding), *final(scaffolding)),
        spec_specs_preserved(*old(scaffolding), *final(scaffolding)),
        spec_stmt_entries_preserved(*old(scaffolding), *final(scaffolding)),
        spec_block_entries_preserved(*old(scaffolding), *final(scaffolding)),
        spec_expr_entries_preserved(*old(scaffolding), *final(scaffolding)),
        r is Ok ==> {
            let entries = final(instance).exprs;
            &&& entries.spec_get(value_expr_id.idx()) is Some
            &&& r->Ok_0 == ComputeKind::Classical.spec_aggregate_runtime_features(
                entries.spec_get(value_expr_id.idx())->Some_0,
                ValueKind::Element(RuntimeKind::Static),
            )
            &&& final(instance).return_expressions@.len() > 0
            &&& final(instance).return_expressions@.last() == value_expr_id
        },
    decreases fuel,
{
    if fuel == 0 {
        return Err(AnalysisError::BudgetExceeded);
    }
    visit_expr(store, package_id, scaffolding, instance, value_expr_id, fuel - 1)?;
    let value_compute_kind = expr_compute_kind(instance, value_expr_id)?;
    instance.return_expressions.push(value_expr_id);
    let mut compute_kind = ComputeKind::Classical;
    compute_kind = compute_kind.aggregate_runtime_features(
        value_compute_kind,
        ValueKind::Element(RuntimeKind::Static),
    );
    Ok(compute_kind)
}

/// Computes the compute kind of a string interpolation: the interpolated
/// expressions are aggregated, and any dynamic component makes the string
/// dynamic at the cost of the dynamic-string feature.
fn analyze_expr_string(
    store: &PackageStore,
    package_id: PackageId,
    scaffolding: &mut PackageStoreScaffolding,
    instance: &mut ApplicationInstance,
    components: &Vec<StringComponent>,
    fuel: u64,
) -> (r: Result<ComputeKind, AnalysisError>)
    ensures
        spec_entities_preserved(*old(instance), *final(instance)),
        r is Ok ==> final(instance).active_dynamic_scopes@ == old(instance).active_dynamic_scopes@,
        spec_packages_preserved(*old(scaffolding), *final(scaffolding)),
        spec_specs_preserved(*old(scaffolding), *final(scaffolding)),
        spec_stmt_entries_preserved(*old(scaffolding), *final(scaffolding)),
        spec_block_entries_preserved(*old(scaffolding), *final(scaffolding)),
        spec_expr_entries_preserved(*old(scaffolding), *final(scaffolding)),
        r is Ok ==> {
            let interpolated = spec_component_exprs(components@, components@.len() as int);
            &&& forall|j: int|
                0 <= j < interpolated.len() ==> final(instance).exprs.spec_get(
                    (#[trigger] interpolated[j]).idx(),
                ) is Some
            &&& r->Ok_0 == spec_string_kind(components@, final(instance).exprs)
        },
    decreases fuel,
{
    if fuel == 0 {
        return Err(AnalysisError::BudgetExceeded);
    }
    let default_value_kind = ValueKind::Element(RuntimeKind::Static);
    let mut has_dynamic_components = false;
    let mut compute_kind = ComputeKind::Classical;
    let mut i: usize = 0;
    while i < components.len()
        invariant
            spec_entities_preserved(*old(instance), *instance),
            instance.active_dynamic_scopes@ == old(instance).active_dynamic_scopes@,
            spec_packages_preserved(*old(scaffolding), *scaffolding),
            spec_specs_preserved(*old(scaffolding), *scaffolding),
            spec_stmt_entries_preserved(*old(scaffolding), *scaffolding),
            spec_block_entries_preserved(*old(scaffolding), *scaffolding),
            spec_expr_entries_preserved(*old(scaffolding), *scaffolding),
            default_value_kind == ValueKind::Element(RuntimeKind::Static),
            fuel >= 1,
            i <= components@.len(),
            ({
                let interpolated = spec_component_exprs(components@, i as int);
                &&& forall|j: int|
                    0 <= j < interpolated.len() ==> instance.exprs.spec_get(
                        (#[trigger] interpolated[j]).idx(),
                    ) is Some
                &&& compute_kind == spec_expr_list_fold(
                    interpolated,
                    instance.exprs,
                    default_value_kind,
                    interpolated.len() as int,
                )
                &&& has_dynamic_components == spec_expr_list_any_dynamic(
                    interpolated,
                    instance.exprs,
                    interpolated.len() as int,
                )
            }),
        decreases components@.len() - i,
    {
        let ghost interpolated = spec_component_exprs(components@, i as int);
        match components[i] {
            StringComponent::Expr(component_expr_id) => {
                let ghost pre_entries = instance.exprs;
                match visit_expr(
                    store,
                    package_id,
                    scaffolding,
                    instance,
                    component_expr_id,
                    fuel - 1,
                ) {
                    Ok(()) => (),
                    Err(e) => {
                        return Err(e);
                    }
                }
                proof {
                    lemma_expr_list_fold_stable(
                        interpolated,
                        pre_entries,
                        instance.exprs,
                        default_value_kind,
                        interpolated.len() as int,
                    );
                    lemma_expr_list_fold_prefix(
                        interpolated,
                        interpolated.push(component_expr_id),
                        instance.exprs,
                        default_value_kind,
                        interpolated.len() as int,
                    );
                }
                let component_compute_kind = match expr_compute_kind(instance, component_expr_id) {
                    Ok(kind) => kind,
                    Err(e) => {
                        return Err(e);
                    }
                };
                compute_kind = compute_kind.aggregate_runtime_features(
                    component_compute_kind,
                    default_value_kind,
                );
                if component_compute_kind.is_dynamic() {
                    has_dynamic_components = true;
                }
            }
            StringComponent::Lit => (),
        }
        i += 1;
    }
    if has_dynamic_components {
        match compute_kind {
            ComputeKind::Quantum(properties) => {
                compute_kind = ComputeKind::Quantum(
                    QuantumProperties {
                        runtime_features: properties.runtime_features | USE_OF_DYNAMIC_STRING,
                        value_kind: ValueKind::Element(RuntimeKind::Dynamic),
                    },
                );
            }
            ComputeKind::Classical => {
                return Err(AnalysisError::MalformedProgram);
            }
        }
    }
    Ok(compute_kind)
}

/// Computes the compute kind of a tuple expression: components are
/// aggregated, and any dynamic component makes the tuple dynamic.
fn analyze_expr_tuple(
    store: &PackageStore,
    package_id: PackageId,
    scaffolding: &mut PackageStoreScaffolding,
    instance: &mut ApplicationInstance,
    items: &Vec<ExprId>,
    fuel: u64,
) -> (r: Result<ComputeKind, AnalysisError>)
    ensures
        spec_entities_preserved(*old(instance), *final(instance)),
        r is Ok ==> final(instance).active_dynamic_scopes@ == old(instance).active_dynamic_scopes@,
        spec_packages_preserved(*old(scaffolding), *final(scaffolding)),
        spec_specs_preserved(*old(scaffolding), *final(scaffolding)),
        spec_stmt_entries_preserved(*old(scaffolding), *final(scaffolding)),
        spec_block_entries_preserved(*old(scaffolding), *final(scaffolding)),
        spec_expr_entries_preserved(*old(scaffolding), *final(scaffolding)),
        r is Ok ==> {
            &&& forall|j: int|
                0 <= j < items@.len() ==> final(instance).exprs.spec_get(
                    items@[j].idx(),
                ) is Some
            &&& r->Ok_0 == spec_tuple_kind(items@, final(instance).exprs)
        },
    decreases fuel,
{
    if fuel == 0 {
        return Err(AnalysisError::BudgetExceeded);
    }
    let default_value_kind = ValueKind::Element(RuntimeKind::Static);
    let mut compute_kind = ComputeKind::Classical;
    let mut has_dynamic_sub_exprs = false;
    let mut i: usize = 0;
    while i < items.len()
        invariant
            spec_entities_preserved(*old(instance), *instance),
            instance.active_dynamic_scopes@ == old(instance).active_dynamic_scopes@,
            spec_packages_preserved(*old(scaffolding), *scaffolding),
            spec_specs_preserved(*old(scaffolding), *scaffolding),
            spec_stmt_entries_preserved(*old(scaffolding), *scaffolding),
            spec_block_entries_preserved(*old(scaffolding), *scaffolding),
            spec_expr_entries_preserved(*old(scaffolding), *scaffolding),
            default_value_kind == ValueKind::Element(RuntimeKind::Static),
            fuel >= 1,
            i <= items@.len(),
            forall|j: int|
                0 <= j < i ==> instance.exprs.spec_get((#[trigger] items@[j]).idx()) is Some,
            compute_kind == spec_expr_list_fold(items@, instance.exprs, default_value_kind, i as int),
            has_dynamic_sub_exprs == spec_expr_list_any_dynamic(items@, instance.exprs, i as int),
        decreases items@.len() - i,
    {
        let ghost pre_entries = instance.exprs;
        match visit_expr(store, package_id, scaffolding, instance, items[i], fuel - 1) {
            Ok(()) => (),
            Err(e) => {
                return Err(e);
            }
        }
        proof {
            lemma_expr_list_fold_stable(
                items@,
                pre_entries,
                instance.exprs,
                default_value_kind,
                i as int,
            );
        }
        let item_compute_kind = match expr_compute_kind(instance, items[i]) {
            Ok(kind) => kind,
            Err(e) => {
                return Err(e);
            }
        };
        compute_kind = compute_kind.aggregate_runtime_features(item_compute_kind, default_value_kind);
        if item_compute_kind.is_dynamic() {
            has_dynamic_sub_exprs = true;
        }
        i += 1;
    }
    if has_dynamic_sub_exprs {
        compute_kind = compute_kind.aggregate_value_kind(ValueKind::Element(RuntimeKind::Dynamic));
    }
    Ok(compute_kind)
}

/// Computes the compute kind of a copy-and-update of a field: record and
/// replacement are aggregated, and either being dynamic makes the result
/// dynamic.
fn analyze_expr_update_field(
    store: &PackageStore,
    package_id: PackageId,
    scaffolding: &mut PackageStoreScaffolding,
    instance: &mut ApplicationInstance,
    record_expr_id: ExprId,
    replace_expr_id: ExprId,
    fuel: u64,
) -> (r: Result<ComputeKind, AnalysisError>)
    ensures
        spec_entities_preserved(*old(instance), *final(instance)),
        r is Ok ==> final(instance).active_dynamic_scopes@ == old(instance).active_dynamic_scopes@,
        spec_packages_preserved(*old(scaffolding), *final(scaffolding)),
        spec_specs_preserved(*old(scaffolding), *final(scaffolding)),
        spec_stmt_entries_preserved(*old(scaffolding), *final(scaffolding)),
        spec_block_entries_preserved(*old(scaffolding), *final(scaffolding)),
        spec_expr_entries_preserved(*old(scaffolding), *final(scaffolding)),
        r is Ok ==> {
            let entries = final(instance).exprs;
            &&& entries.spec_get(record_expr_id.idx()) is Some
            &&& entries.spec_get(replace_expr_id.idx()) is Some
            &&& r->Ok_0 == spec_update_field_kind(
                entries.spec_get(record_expr_id.idx())->Some_0,
                entries.spec_get(replace_expr_id.idx())->Some_0,
            )
        },
    decreases fuel,
{
    if fuel == 0 {
        return Err(AnalysisError::BudgetExceeded);
    }
    visit_expr(store, package_id, scaffolding, instance, record_expr_id, fuel - 1)?;
    visit_expr(store, package_id, scaffolding, instance, replace_expr_id, fuel - 1)?;
    let record_compute_kind = expr_compute_kind(instance, record_expr_id)?;
    let replace_compute_kind = expr_compute_kind(instance, replace_expr_id)?;
    let default_value_kind = ValueKind::Element(RuntimeKind::Static);
    let mut compute_kind = ComputeKind::Classical;
    compute_kind = compute_kind.aggregate_runtime_features(record_compute_kind, default_value_kind);
    compute_kind = compute_kind.aggregate_runtime_features(replace_compute_kind, default_value_kind);
    if record_compute_kind.is_dynamic() || replace_compute_kind.is_dynamic() {
        compute_kind = compute_kind.aggregate_value_kind(ValueKind::Element(RuntimeKind::Dynamic));
    }
    Ok(compute_kind)
}

/// Computes the compute kind of a copy-and-update of an array element: the
/// array's shape carries over, a dynamic index costs an extra feature, and a
/// dynamic index or replacement makes the content dynamic.
fn analyze_expr_update_index(
    store: &PackageStore,
    package_id: PackageId,
    scaffolding: &mut PackageStoreScaffolding,
    instance: &mut ApplicationInstance,
    array_expr_id: ExprId,
    index_expr_id: ExprId,
    replacement_expr_id: ExprId,
    fuel: u64,
) -> (r: Result<ComputeKind, AnalysisError>)
    ensures
        spec_entities_preserved(*old(instance), *final(instance)),
        r is Ok ==> final(instance).active_dynamic_scopes@ == old(instance).active_dynamic_scopes@,
        spec_packages_preserved(*old(scaffolding), *final(scaffolding)),
        spec_specs_preserved(*old(scaffolding), *final(scaffolding)),
        spec_stmt_entries_preserved(*old(scaffolding), *final(scaffolding)),
        spec_block_entries_preserved(*old(scaffolding), *final(scaffolding)),
        spec_expr_entries_preserved(*old(scaffolding), *final(scaffolding)),
        r is Ok ==> {
            let entries = final(instance).exprs;
            &&& entries.spec_get(array_expr_id.idx()) is Some
            &&& entries.spec_get(index_expr_id.idx()) is Some
            &&& entries.spec_get(replacement_expr_id.idx()) is Some
            &&& r->Ok_0 == spec_update_index_kind(
                entries.spec_get(array_expr_id.idx())->Some_0,
                entries.spec_get(index_expr_id.idx())->Some_0,
                entries.spec_get(replacement_expr_id.idx())->Some_0,
            )
        },
    decreases fuel,
{
    if fuel == 0 {
        return Err(AnalysisError::BudgetExceeded);
    }
    visit_expr(store, package_id, scaffolding, instance, array_expr_id, fuel - 1)?;
    visit_expr(store, package_id, scaffolding, instance, index_expr_id, fuel - 1)?;
    visit_expr(store, package_id, scaffolding, instance, replacement_expr_id, fuel - 1)?;
    let array_compute_kind = expr_compute_kind(instance, array_expr_id)?;
    let index_compute_kind = expr_compute_kind(instance, index_expr_id)?;
    let replacement_compute_kind = expr_compute_kind(instance, replacement_expr_id)?;
    let default_value_kind = ValueKind::Array(RuntimeKind::Static, RuntimeKind::Static);
    let mut compute_kind = ComputeKind::Classical;
    compute_kind = compute_kind.aggregate_runtime_features(array_compute_kind, default_value_kind);
    compute_kind = compute_kind.aggregate_runtime_features(index_compute_kind, default_value_kind);
    compute_kind = compute_kind.aggregate_runtime_features(
        replacement_compute_kind,
        default_value_kind,
    );
    if index_compute_kind.is_dynamic() {
        compute_kind = compute_kind.aggregate_runtime_features(
            ComputeKind::Quantum(
                QuantumProperties {
                    runtime_features: USE_OF_DYNAMIC_INDEX,
                    value_kind: default_value_kind,
                },
            ),
            default_value_kind,
        );
    }
    if let ComputeKind::Quantum(array_properties) = array_compute_kind {
        compute_kind = compute_kind.aggregate_value_kind(array_properties.value_kind);
    }
    if index_compute_kind.is_dynamic() || replacement_compute_kind.is_dynamic() {
        compute_kind = compute_kind.aggregate_value_kind(
            ValueKind::Array(RuntimeKind::Dynamic, RuntimeKind::Static),
        );
    }
    Ok(compute_kind)
}

/// Computes the compute kind of a while loop: a dynamic condition opens a
/// dynamic scope around the single body visit; the analysis over-approximates
/// by construction, so one syntactic pass suffices.
fn analyze_expr_while(
    store: &PackageStore,
    package_id: PackageId,
    scaffolding: &mut PackageStoreScaffolding,
    instance: &mut ApplicationInstance,
    condition_expr_id: ExprId,
    block_id: BlockId,
    fuel: u64,
) -> (r: Result<ComputeKind, AnalysisError>)
    ensures
        spec_entities_preserved(*old(instance), *final(instance)),
        r is Ok ==> final(instance).active_dynamic_scopes@ == old(instance).active_dynamic_scopes@,
        spec_packages_preserved(*old(scaffolding), *final(scaffolding)),
        spec_specs_preserved(*old(scaffolding), *final(scaffolding)),
        spec_stmt_entries_preserved(*old(scaffolding), *final(scaffolding)),
        spec_block_entries_preserved(*old(scaffolding), *final(scaffolding)),
        spec_expr_entries_preserved(*old(scaffolding), *final(scaffolding)),
        r is Ok ==> {
            &&& final(instance).exprs.spec_get(condition_expr_id.idx()) is Some
            &&& final(instance).blocks.spec_get(block_id.idx()) is Some
            &&& r->Ok_0 == spec_while_kind(
                final(instance).exprs.spec_get(condition_expr_id.idx())->Some_0,
                final(instance).blocks.spec_get(block_id.idx())->Some_0,
            )
        },
    decreases fuel,
{
    if fuel == 0 {
        return Err(AnalysisError::BudgetExceeded);
    }
    visit_expr(store, package_id, scaffolding, instance, condition_expr_id, fuel - 1)?;
    let scope_condition_kind = expr_compute_kind(instance, condition_expr_id)?;
    let within_dynamic_scope = scope_condition_kind.is_dynamic();
    if within_dynamic_scope {
        instance.active_dynamic_scopes.push(condition_expr_id);
    }
    visit_block(store, package_id, scaffolding, instance, block_id, fuel - 1)?;
    if within_dynamic_scope {
        match instance.active_dynamic_scopes.pop() {
            Some(popped) => {
                if popped != condition_expr_id {
                    return Err(AnalysisError::MalformedProgram);
                }
            }
            None => {
                return Err(AnalysisError::MalformedProgram);
            }
        }
    }
    let condition_kind_after = expr_compute_kind(instance, condition_expr_id)?;
    let block_kind = block_compute_kind(instance, block_id)?;
    let default_value_kind = ValueKind::Element(RuntimeKind::Static);
    let mut compute_kind = ComputeKind::Classical;
    compute_kind = compute_kind.aggregate_runtime_features(condition_kind_after, default_value_kind);
    compute_kind = compute_kind.aggregate_runtime_features(block_kind, default_value_kind);
    Ok(compute_kind)
}

} // verus!

verus! {

/// Computes the compute kind of a call whose callee resolved to a user
/// declared type constructor: dynamic arguments make the constructed value
/// dynamic.
fn analyze_expr_call_with_udt_callee(
    instance: &ApplicationInstance,
    args_expr_id: ExprId,
) -> (r: Result<ComputeKind, AnalysisError>)
    ensures
        r is Ok <==> instance.exprs.spec_get(args_expr_id.idx()) is Some,
        r is Ok ==> {
            let args_kind = instance.exprs.spec_get(args_expr_id.idx())->Some_0;
            let propagated = ComputeKind::Classical.spec_aggregate_runtime_features(
                args_kind,
                ValueKind::Element(RuntimeKind::Static),
            );
            r->Ok_0 == if args_kind.spec_is_dynamic() {
                propagated.spec_aggregate_value_kind(ValueKind::Element(RuntimeKind::Dynamic))
            } else {
                propagated
            }
        },
{
    let args_compute_kind = expr_compute_kind(instance, args_expr_id)?;
    let default_value_kind = ValueKind::Element(RuntimeKind::Static);
    let mut compute_kind = ComputeKind::Classical;
    compute_kind = compute_kind.aggregate_runtime_features(args_compute_kind, default_value_kind);
    if args_compute_kind.is_dynamic() {
        compute_kind = compute_kind.aggregate_value_kind(ValueKind::Element(RuntimeKind::Dynamic));
    }
    Ok(compute_kind)
}

/// Computes the compute kind of a call to a statically resolved callable:
/// the callee specialization is analyzed (or its memoized table reused), and
/// the call's compute kind is derived from that table and the value kinds of
/// the actual arguments, with the control registers of controlled
/// applications aggregated on top.
fn analyze_expr_call_with_spec_callee(
    store: &PackageStore,
    package_id: PackageId,
    scaffolding: &mut PackageStoreScaffolding,
    instance: &mut ApplicationInstance,
    callee: Callee,
    args_expr_id: ExprId,
    fuel: u64,
) -> (r: Result<ComputeKind, AnalysisError>)
    ensures
        spec_entities_preserved(*old(instance), *final(instance)),
        r is Ok ==> final(instance).active_dynamic_scopes@ == old(instance).active_dynamic_scopes@,
        spec_packages_preserved(*old(scaffolding), *final(scaffolding)),
        spec_specs_preserved(*old(scaffolding), *final(scaffolding)),
        spec_stmt_entries_preserved(*old(scaffolding), *final(scaffolding)),
        spec_block_entries_preserved(*old(scaffolding), *final(scaffolding)),
        spec_expr_entries_preserved(*old(scaffolding), *final(scaffolding)),
        r is Ok ==> {
            let callee_package = store.packages.spec_get(callee.item.package.idx());
            &&& callee_package is Some
            &&& callee_package->Some_0.items.spec_get(callee.item.item.idx()) is Some
            &&& match callee_package->Some_0.items.spec_get(callee.item.item.idx())->Some_0.kind {
                ItemKind::Callable(decl) => final(scaffolding).spec_find_specialization(
                    GlobalSpecId {
                        callable: callee.item,
                        functor_set_value: match decl.implementation {
                            CallableImpl::Intrinsic => FunctorSetValue::Empty,
                            CallableImpl::Spec(_) => callee.functor_app.spec_functor_set_value(),
                        },
                    },
                ) is Some,
                _ => false,
            }
        },
    decreases fuel,
{
    if fuel == 0 {
        return Err(AnalysisError::BudgetExceeded);
    }
    let callee_package = get_package(store, callee.item.package)?;
    let callee_item = match callee_package.get_item(callee.item.item) {
        Some(item) => item,
        None => {
            return Err(AnalysisError::MalformedProgram);
        }
    };
    let callable_decl = match &callee_item.kind {
        ItemKind::Callable(decl) => decl,
        _ => {
            return Err(AnalysisError::MalformedProgram);
        }
    };
    // Intrinsic callables only have a body entry; functor information is
    // irrelevant to their derived table.
    let functor_set_value = match &callable_decl.implementation {
        CallableImpl::Intrinsic => FunctorSetValue::Empty,
        CallableImpl::Spec(_) => callee.functor_app.functor_set_value(),
    };
    let callee_spec_id = GlobalSpecId { callable: callee.item, functor_set_value };
    analyze_spec(store, scaffolding, callee_spec_id, fuel - 1)?;

    let caller_package = get_package(store, package_id)?;
    let (controls, args_input_id) = split_controls_and_input(
        caller_package,
        args_expr_id,
        callee.functor_app,
    )?;
    let mut arg_exprs: Vec<ExprId> = Vec::new();
    map_input_pattern_to_input_exprs(
        callee_package,
        caller_package,
        callable_decl.input,
        args_input_id,
        &mut arg_exprs,
        fuel,
    )?;
    let mut arg_value_kinds: Vec<ValueKind> = Vec::new();
    let mut i: usize = 0;
    while i < arg_exprs.len()
        invariant
            spec_entities_preserved(*old(instance), *instance),
            instance.active_dynamic_scopes@ == old(instance).active_dynamic_scopes@,
            spec_packages_preserved(*old(scaffolding), *scaffolding),
            spec_specs_preserved(*old(scaffolding), *scaffolding),
            spec_stmt_entries_preserved(*old(scaffolding), *scaffolding),
            spec_block_entries_preserved(*old(scaffolding), *scaffolding),
            spec_expr_entries_preserved(*old(scaffolding), *scaffolding),
            i <= arg_exprs@.len(),
        decreases arg_exprs@.len() - i,
    {
        let arg_expr_id = arg_exprs[i];
        let arg_compute_kind = match expr_compute_kind(instance, arg_expr_id) {
            Ok(kind) => kind,
            Err(e) => {
                return Err(e);
            }
        };
        let arg_expr = match caller_package.get_expr(arg_expr_id) {
            Some(expr) => expr,
            None => {
                return Err(AnalysisError::MalformedProgram);
            }
        };
        arg_value_kinds.push(
            arg_compute_kind.value_kind_or_default(ValueKind::new_static_from_type(&arg_expr.ty)),
        );
        i += 1;
    }

    // A specialization with its own input carries a leading controls
    // parameter; its assumed dynamism is the join of the control registers.
    let has_controls_param = match &callable_decl.implementation {
        CallableImpl::Intrinsic => false,
        CallableImpl::Spec(specializations) => {
            let spec_decl = match crate::cycle_detection::get_spec_decl(
                specializations,
                functor_set_value,
            ) {
                Ok(decl) => decl,
                Err(e) => {
                    return Err(e);
                }
            };
            spec_decl.input.is_some()
        }
    };
    let mut has_dynamic_controls = false;
    let mut ci: usize = 0;
    while ci < controls.len()
        invariant
            spec_entities_preserved(*old(instance), *instance),
            instance.active_dynamic_scopes@ == old(instance).active_dynamic_scopes@,
            spec_packages_preserved(*old(scaffolding), *scaffolding),
            spec_specs_preserved(*old(scaffolding), *scaffolding),
            spec_stmt_entries_preserved(*old(scaffolding), *scaffolding),
            spec_block_entries_preserved(*old(scaffolding), *scaffolding),
            spec_expr_entries_preserved(*old(scaffolding), *scaffolding),
            ci <= controls@.len(),
        decreases controls@.len() - ci,
    {
        let control_compute_kind = match expr_compute_kind(instance, controls[ci]) {
            Ok(kind) => kind,
            Err(e) => {
                return Err(e);
            }
        };
        if control_compute_kind.is_dynamic() {
            has_dynamic_controls = true;
        }
        ci += 1;
    }
    if has_controls_param {
        let controls_value_kind = if has_dynamic_controls {
            ValueKind::Element(RuntimeKind::Dynamic)
        } else {
            ValueKind::Element(RuntimeKind::Static)
        };
        arg_value_kinds.insert(0, controls_value_kind);
    }

    let generator_set = match scaffolding.find_specialization(callee_spec_id) {
        Some(set) => set,
        None => {
            return Err(AnalysisError::MalformedProgram);
        }
    };
    if generator_set.dynamic_param_applications.len() != arg_value_kinds.len() {
        return Err(AnalysisError::MalformedProgram);
    }
    let mut compute_kind = generator_set.derive_application_compute_kind(&arg_value_kinds);

    let default_value_kind = ValueKind::new_static_from_type(&callable_decl.output);
    let mut cj: usize = 0;
    while cj < controls.len()
        invariant
            spec_entities_preserved(*old(instance), *instance),
            instance.active_dynamic_scopes@ == old(instance).active_dynamic_scopes@,
            spec_packages_preserved(*old(scaffolding), *scaffolding),
            spec_specs_preserved(*old(scaffolding), *scaffolding),
            spec_stmt_entries_preserved(*old(scaffolding), *scaffolding),
            spec_block_entries_preserved(*old(scaffolding), *scaffolding),
            spec_expr_entries_preserved(*old(scaffolding), *scaffolding),
            cj <= controls@.len(),
        decreases controls@.len() - cj,
    {
        let control_compute_kind = match expr_compute_kind(instance, controls[cj]) {
            Ok(kind) => kind,
            Err(e) => {
                return Err(e);
            }
        };
        compute_kind = compute_kind.aggregate_runtime_features(
            control_compute_kind,
            default_value_kind,
        );
        cj += 1;
    }
    if has_dynamic_controls {
        compute_kind = compute_kind.aggregate_value_kind(
            ValueKind::new_dynamic_from_type(&callable_decl.output),
        );
    }
    Ok(compute_kind)
}

/// Computes the compute kind of a call whose callee expression is not itself
/// dynamic: the callee is resolved statically when possible; an unresolvable
/// callee is assumed fully dynamic.
fn analyze_expr_call_with_static_callee(
    store: &PackageStore,
    package_id: PackageId,
    scaffolding: &mut PackageStoreScaffolding,
    instance: &mut ApplicationInstance,
    callee_expr_id: ExprId,
    args_expr_id: ExprId,
    expr_ty: &Ty,
    fuel: u64,
) -> (r: Result<ComputeKind, AnalysisError>)
    ensures
        spec_entities_preserved(*old(instance), *final(instance)),
        r is Ok ==> final(instance).active_dynamic_scopes@ == old(instance).active_dynamic_scopes@,
        spec_packages_preserved(*old(scaffolding), *final(scaffolding)),
        spec_specs_preserved(*old(scaffolding), *final(scaffolding)),
        spec_stmt_entries_preserved(*old(scaffolding), *final(scaffolding)),
        spec_block_entries_preserved(*old(scaffolding), *final(scaffolding)),
        spec_expr_entries_preserved(*old(scaffolding), *final(scaffolding)),
        r is Ok ==> {
            let caller_package = store.packages.spec_get(package_id.idx());
            &&& caller_package is Some
            &&& {
                let resolved = spec_resolved_callee(
                    package_id,
                    caller_package->Some_0,
                    old(instance).locals_map.locals,
                    callee_expr_id,
                    fuel as nat,
                );
                &&& resolved is Ok
                &&& (resolved->Ok_0 is None ==> r->Ok_0 == ComputeKind::Quantum(
                    QuantumProperties {
                        runtime_features: CALL_TO_UNRESOLVED_CALLEE,
                        value_kind: ValueKind::spec_new_dynamic_from_type(*expr_ty),
                    },
                ))
                &&& (resolved->Ok_0 is Some ==> {
                    let callee = resolved->Ok_0->Some_0;
                    let callee_package = store.packages.spec_get(callee.item.package.idx());
                    &&& callee_package is Some
                    &&& callee_package->Some_0.items.spec_get(callee.item.item.idx()) is Some
                    &&& match callee_package->Some_0.items.spec_get(
                        callee.item.item.idx(),
                    )->Some_0.kind {
                        ItemKind::Callable(decl) => final(scaffolding).spec_find_specialization(
                            GlobalSpecId {
                                callable: callee.item,
                                functor_set_value: match decl.implementation {
                                    CallableImpl::Intrinsic => FunctorSetValue::Empty,
                                    CallableImpl::Spec(_) =>
                                        callee.functor_app.spec_functor_set_value(),
                                },
                            },
                        ) is Some,
                        ItemKind::Ty => true,
                        ItemKind::Namespace => false,
                    }
                })
            }
        },
    decreases fuel,
{
    if fuel == 0 {
        return Err(AnalysisError::BudgetExceeded);
    }
    let caller_package = get_package(store, package_id)?;
    let resolved = try_resolve_callee(
        callee_expr_id,
        package_id,
        caller_package,
        &instance.locals_map.locals,
        fuel,
    )?;
    let callee = match resolved {
        Some(callee) => callee,
        None => {
            return Ok(
                ComputeKind::Quantum(
                    QuantumProperties {
                        runtime_features: CALL_TO_UNRESOLVED_CALLEE,
                        value_kind: ValueKind::new_dynamic_from_type(expr_ty),
                    },
                ),
            );
        }
    };
    let callee_package = get_package(store, callee.item.package)?;
    let callee_item = match callee_package.get_item(callee.item.item) {
        Some(item) => item,
        None => {
            return Err(AnalysisError::MalformedProgram);
        }
    };
    match &callee_item.kind {
        ItemKind::Callable(_) => analyze_expr_call_with_spec_callee(
            store,
            package_id,
            scaffolding,
            instance,
            callee,
            args_expr_id,
            fuel - 1,
        ),
        ItemKind::Ty => analyze_expr_call_with_udt_callee(instance, args_expr_id),
        ItemKind::Namespace => Err(AnalysisError::MalformedProgram),
    }
}

/// Computes the compute kind of a call expression. A dynamic callee makes
/// the whole call dynamic; otherwise the callee is resolved and the call
/// derived from its applications table. A call inside a dynamic scope
/// additionally requires forward branching, and allocating a qubit or
/// producing a result inside a dynamic scope requires the corresponding
/// dynamic-allocation features.
fn analyze_expr_call(
    store: &PackageStore,
    package_id: PackageId,
    scaffolding: &mut PackageStoreScaffolding,
    instance: &mut ApplicationInstance,
    callee_expr_id: ExprId,
    args_expr_id: ExprId,
    expr_ty: &Ty,
    fuel: u64,
) -> (r: Result<ComputeKind, AnalysisError>)
    ensures
        spec_entities_preserved(*old(instance), *final(instance)),
        r is Ok ==> final(instance).active_dynamic_scopes@ == old(instance).active_dynamic_scopes@,
        spec_packages_preserved(*old(scaffolding), *final(scaffolding)),
        spec_specs_preserved(*old(scaffolding), *final(scaffolding)),
        spec_stmt_entries_preserved(*old(scaffolding), *final(scaffolding)),
        spec_block_entries_preserved(*old(scaffolding), *final(scaffolding)),
        spec_expr_entries_preserved(*old(scaffolding), *final(scaffolding)),
        r is Ok ==> {
            let entries = final(instance).exprs;
            let callee_features = spec_entry_kind(entries, callee_expr_id).spec_features();
            let args_features = spec_entry_kind(entries, args_expr_id).spec_features();
            &&& entries.spec_get(callee_expr_id.idx()) is Some
            &&& entries.spec_get(args_expr_id.idx()) is Some
            &&& r->Ok_0.spec_features() & (callee_features | args_features) == (callee_features
                | args_features)
            &&& (spec_entry_kind(entries, callee_expr_id).spec_is_dynamic() ==> {
                &&& r->Ok_0.spec_features() & CALL_TO_DYNAMIC_CALLEE == CALL_TO_DYNAMIC_CALLEE
                &&& r->Ok_0.spec_value_kind() == Some(
                    ValueKind::spec_new_dynamic_from_type(*expr_ty),
                )
            })
            &&& (old(instance).active_dynamic_scopes@.len() > 0 ==> {
                &&& r->Ok_0.spec_features() & FORWARD_BRANCHING_ON_DYNAMIC_VALUE
                    == FORWARD_BRANCHING_ON_DYNAMIC_VALUE
                &&& (expr_ty.spec_is_prim(Prim::Qubit) ==> r->Ok_0.spec_features()
                    & DYNAMIC_QUBIT_ALLOCATION == DYNAMIC_QUBIT_ALLOCATION)
                &&& (expr_ty.spec_is_prim(Prim::Result) ==> r->Ok_0.spec_features()
                    & DYNAMIC_RESULT_ALLOCATION == DYNAMIC_RESULT_ALLOCATION)
            })
        },
    decreases fuel,
{
    if fuel == 0 {
        return Err(AnalysisError::BudgetExceeded);
    }
    visit_expr(store, package_id, scaffolding, instance, callee_expr_id, fuel - 1)?;
    visit_expr(store, package_id, scaffolding, instance, args_expr_id, fuel - 1)?;
    let callee_compute_kind = expr_compute_kind(instance, callee_expr_id)?;
    let ghost callee_is_dynamic = callee_compute_kind.spec_is_dynamic();
    let mut compute_kind = if callee_compute_kind.is_dynamic() {
        proof {
            crate::compute::lemma_and_self(CALL_TO_DYNAMIC_CALLEE);
        }
        ComputeKind::Quantum(
            QuantumProperties {
                runtime_features: CALL_TO_DYNAMIC_CALLEE,
                value_kind: ValueKind::new_dynamic_from_type(expr_ty),
            },
        )
    } else {
        analyze_expr_call_with_static_callee(
            store,
            package_id,
            scaffolding,
            instance,
            callee_expr_id,
            args_expr_id,
            expr_ty,
            fuel - 1,
        )?
    };
    let ghost before_type_features = compute_kind;
    if let ComputeKind::Quantum(properties) = compute_kind {
        let derived = derive_runtime_features_for_value_kind(properties.value_kind, expr_ty);
        compute_kind = ComputeKind::Quantum(
            QuantumProperties {
                runtime_features: properties.runtime_features | derived,
                value_kind: properties.value_kind,
            },
        );
        proof {
            if callee_is_dynamic {
                crate::compute::lemma_or_flag_preserved(
                    before_type_features.spec_features(),
                    derived,
                    CALL_TO_DYNAMIC_CALLEE,
                );
            }
        }
    }
    let default_value_kind = ValueKind::new_static_from_type(expr_ty);
    if instance.active_dynamic_scopes.len() > 0 {
        let ghost before_branching = compute_kind;
        compute_kind = compute_kind.aggregate_runtime_features(
            ComputeKind::new_with_runtime_features(
                FORWARD_BRANCHING_ON_DYNAMIC_VALUE,
                default_value_kind,
            ),
            default_value_kind,
        );
        proof {
            crate::compute::lemma_aggregate_runtime_features_union(
                before_branching,
                ComputeKind::Quantum(
                    QuantumProperties {
                        runtime_features: FORWARD_BRANCHING_ON_DYNAMIC_VALUE,
                        value_kind: default_value_kind,
                    },
                ),
                default_value_kind,
            );
            if callee_is_dynamic {
                crate::compute::lemma_or_flag_preserved(
                    before_branching.spec_features(),
                    FORWARD_BRANCHING_ON_DYNAMIC_VALUE,
                    CALL_TO_DYNAMIC_CALLEE,
                );
            }
            crate::compute::lemma_and_self(FORWARD_BRANCHING_ON_DYNAMIC_VALUE);
            crate::compute::lemma_or_flag_preserved(
                FORWARD_BRANCHING_ON_DYNAMIC_VALUE,
                before_branching.spec_features(),
                FORWARD_BRANCHING_ON_DYNAMIC_VALUE,
            );
        }
        if expr_ty.is_prim(Prim::Qubit) {
            let ghost before_qubit_allocation = compute_kind;
            compute_kind = compute_kind.aggregate_runtime_features(
                ComputeKind::new_with_runtime_features(DYNAMIC_QUBIT_ALLOCATION, default_value_kind),
                default_value_kind,
            );
            proof {
                crate::compute::lemma_aggregate_runtime_features_union(
                    before_qubit_allocation,
                    ComputeKind::Quantum(
                        QuantumProperties {
                            runtime_features: DYNAMIC_QUBIT_ALLOCATION,
                            value_kind: default_value_kind,
                        },
                    ),
                    default_value_kind,
                );
                if callee_is_dynamic {
                    crate::compute::lemma_or_flag_preserved(
                        before_qubit_allocation.spec_features(),
                        DYNAMIC_QUBIT_ALLOCATION,
                        CALL_TO_DYNAMIC_CALLEE,
                    );
                }
                crate::compute::lemma_or_flag_preserved(
                    before_qubit_allocation.spec_features(),
                    DYNAMIC_QUBIT_ALLOCATION,
                    FORWARD_BRANCHING_ON_DYNAMIC_VALUE,
                );
                crate::compute::lemma_and_self(DYNAMIC_QUBIT_ALLOCATION);
                crate::compute::lemma_or_flag_preserved(
                    DYNAMIC_QUBIT_ALLOCATION,
                    before_qubit_allocation.spec_features(),
                    DYNAMIC_QUBIT_ALLOCATION,
                );
            }
        }
        if expr_ty.is_prim(Prim::Result) {
            let ghost before_result_allocation = compute_kind;
            compute_kind = compute_kind.aggregate_runtime_features(
                ComputeKind::new_with_runtime_features(
                    DYNAMIC_RESULT_ALLOCATION,
                    default_value_kind,
                ),
                default_value_kind,
            );
            proof {
                crate::compute::lemma_aggregate_runtime_features_union(
                    before_result_allocation,
                    ComputeKind::Quantum(
                        QuantumProperties {
                            runtime_features: DYNAMIC_RESULT_ALLOCATION,
                            value_kind: default_value_kind,
                        },
                    ),
                    default_value_kind,
                );
                if callee_is_dynamic {
                    crate::compute::lemma_or_flag_preserved(
                        before_result_allocation.spec_features(),
                        DYNAMIC_RESULT_ALLOCATION,
                        CALL_TO_DYNAMIC_CALLEE,
                    );
                }
                crate::compute::lemma_or_flag_preserved(
                    before_result_allocation.spec_features(),
                    DYNAMIC_RESULT_ALLOCATION,
                    FORWARD_BRANCHING_ON_DYNAMIC_VALUE,
                );
                crate::compute::lemma_and_self(DYNAMIC_RESULT_ALLOCATION);
                crate::compute::lemma_or_flag_preserved(
                    DYNAMIC_RESULT_ALLOCATION,
                    before_result_allocation.spec_features(),
                    DYNAMIC_RESULT_ALLOCATION,
                );
            }
        }
    }
    let callee_kind_after = expr_compute_kind(instance, callee_expr_id)?;
    let args_kind_after = expr_compute_kind(instance, args_expr_id)?;
    let ghost before_operand_features = compute_kind;
    compute_kind = compute_kind.aggregate_runtime_features(callee_kind_after, default_value_kind);
    compute_kind = compute_kind.aggregate_runtime_features(args_kind_after, default_value_kind);
    proof {
        crate::compute::lemma_aggregate_runtime_features_union(
            before_operand_features,
            callee_kind_after,
            default_value_kind,
        );
        crate::compute::lemma_aggregate_runtime_features_union(
            before_operand_features.spec_aggregate_runtime_features(
                callee_kind_after,
                default_value_kind,
            ),
            args_kind_after,
            default_value_kind,
        );
        crate::compute::lemma_or_superset(
            before_operand_features.spec_features(),
            callee_kind_after.spec_features(),
            args_kind_after.spec_features(),
        );
        if callee_is_dynamic {
            crate::compute::lemma_or_flag_preserved(
                before_operand_features.spec_features(),
                callee_kind_after.spec_features(),
                CALL_TO_DYNAMIC_CALLEE,
            );
            crate::compute::lemma_or_flag_preserved(
                before_operand_features.spec_features() | callee_kind_after.spec_features(),
                args_kind_after.spec_features(),
                CALL_TO_DYNAMIC_CALLEE,
            );
        }
        if old(instance).active_dynamic_scopes@.len() > 0 {
            crate::compute::lemma_or_flag_preserved(
                before_operand_features.spec_features(),
                callee_kind_after.spec_features(),
                FORWARD_BRANCHING_ON_DYNAMIC_VALUE,
            );
            crate::compute::lemma_or_flag_preserved(
                before_operand_features.spec_features() | callee_kind_after.spec_features(),
                args_kind_after.spec_features(),
                FORWARD_BRANCHING_ON_DYNAMIC_VALUE,
            );
            if expr_ty.spec_is_prim(Prim::Qubit) {
                crate::compute::lemma_or_flag_preserved(
                    before_operand_features.spec_features(),
                    callee_kind_after.spec_features(),
                    DYNAMIC_QUBIT_ALLOCATION,
                );
                crate::compute::lemma_or_flag_preserved(
                    before_operand_features.spec_features() | callee_kind_after.spec_features(),
                    args_kind_after.spec_features(),
                    DYNAMIC_QUBIT_ALLOCATION,
                );
            }
            if expr_ty.spec_is_prim(Prim::Result) {
                crate::compute::lemma_or_flag_preserved(
                    before_operand_features.spec_features(),
                    callee_kind_after.spec_features(),
                    DYNAMIC_RESULT_ALLOCATION,
                );
                crate::compute::lemma_or_flag_preserved(
                    before_operand_features.spec_features() | callee_kind_after.spec_features(),
                    args_kind_after.spec_features(),
                    DYNAMIC_RESULT_ALLOCATION,
                );
            }
        }
    }
    Ok(compute_kind)
}

/// Computes the compute kind of a failure expression: the message
/// expression's features propagate and nothing else is recorded.
fn analyze_expr_fail(
    store: &PackageStore,
    package_id: PackageId,
    scaffolding: &mut PackageStoreScaffolding,
    instance: &mut ApplicationInstance,
    msg_expr_id: ExprId,
    fuel: u64,
) -> (r: Result<ComputeKind, AnalysisError>)
    ensures
        spec_entities_preserved(*old(instance), *final(instance)),
        r is Ok ==> final(instance).active_dynamic_scopes@ == old(instance).active_dynamic_scopes@,
        spec_packages_preserved(*old(scaffolding), *final(scaffolding)),
        spec_specs_preserved(*old(scaffolding), *final(scaffolding)),
        spec_stmt_entries_preserved(*old(scaffolding), *final(scaffolding)),
        spec_block_entries_preserved(*old(scaffolding), *final(scaffolding)),
        spec_expr_entries_preserved(*old(scaffolding), *final(scaffolding)),
        r is Ok ==> {
            &&& final(instance).exprs.spec_get(msg_expr_id.idx()) is Some
            &&& r->Ok_0 == ComputeKind::Classical.spec_aggregate_runtime_features(
                final(instance).exprs.spec_get(msg_expr_id.idx())->Some_0,
                ValueKind::Element(RuntimeKind::Static),
            )
        },
    decreases fuel,
{
    if fuel == 0 {
        return Err(AnalysisError::BudgetExceeded);
    }
    visit_expr(store, package_id, scaffolding, instance, msg_expr_id, fuel - 1)?;
    let msg_compute_kind = expr_compute_kind(instance, msg_expr_id)?;
    Ok(
        ComputeKind::Classical.aggregate_runtime_features(
            msg_compute_kind,
            ValueKind::Element(RuntimeKind::Static),
        ),
    )
}

/// Computes the compute kind of a field access: the record's features carry
/// over, and the result is dynamic in the shape of its own type when the
/// record is.
fn analyze_expr_field(
    store: &PackageStore,
    package_id: PackageId,
    scaffolding: &mut PackageStoreScaffolding,
    instance: &mut ApplicationInstance,
    record_expr_id: ExprId,
    expr_ty: &Ty,
    fuel: u64,
) -> (r: Result<ComputeKind, AnalysisError>)
    ensures
        spec_entities_preserved(*old(instance), *final(instance)),
        r is Ok ==> final(instance).active_dynamic_scopes@ == old(instance).active_dynamic_scopes@,
        spec_packages_preserved(*old(scaffolding), *final(scaffolding)),
        spec_specs_preserved(*old(scaffolding), *final(scaffolding)),
        spec_stmt_entries_preserved(*old(scaffolding), *final(scaffolding)),
        spec_block_entries_preserved(*old(scaffolding), *final(scaffolding)),
        spec_expr_entries_preserved(*old(scaffolding), *final(scaffolding)),
        r is Ok ==> {
            &&& final(instance).exprs.spec_get(record_expr_id.idx()) is Some
            &&& r->Ok_0 == spec_field_kind(
                final(instance).exprs.spec_get(record_expr_id.idx())->Some_0,
                *expr_ty,
            )
        },
    decreases fuel,
{
    if fuel == 0 {
        return Err(AnalysisError::BudgetExceeded);
    }
    visit_expr(store, package_id, scaffolding, instance, record_expr_id, fuel - 1)?;
    let record_compute_kind = expr_compute_kind(instance, record_expr_id)?;
    let value_kind = if record_compute_kind.is_dynamic() {
        ValueKind::new_dynamic_from_type(expr_ty)
    } else {
        ValueKind::new_static_from_type(expr_ty)
    };
    Ok(ComputeKind::Classical.aggregate_runtime_features(record_compute_kind, value_kind))
}

/// A compute kind with its value kind projected onto the shape of the given
/// type, as the dispatcher stores it.
pub open spec fn spec_projected_kind(kind: ComputeKind, ty: Ty) -> ComputeKind {
    match kind {
        ComputeKind::Classical => ComputeKind::Classical,
        ComputeKind::Quantum(properties) => ComputeKind::Quantum(
            QuantumProperties {
                runtime_features: properties.runtime_features,
                value_kind: properties.value_kind.spec_projected_onto(
                    ValueKind::spec_new_static_from_type(ty),
                ),
            },
        ),
    }
}

/// What the dispatcher records for an assignment whose assignee is a single
/// local read: the assigned value's update kind, computed by the assignment
/// rule, propagated without a value of its own. Other assignee shapes apply
/// the same rule per written local and are not pinned here.
pub open spec fn spec_recorded_assign_kind(
    package: Package,
    instance: ApplicationInstance,
    assignee_id: ExprId,
    value_id: ExprId,
    expr_ty: Ty,
    recorded: ComputeKind,
) -> bool {
    match package.exprs.spec_get(assignee_id.idx()) {
        Some(assignee) => match assignee.kind {
            ExprKind::Var(Res::Local(local_var_id)) => {
                &&& instance.exprs.spec_get(value_id.idx()) is Some
                &&& instance.locals_map.locals.spec_get(local_var_id.idx()) is Some
                &&& instance.locals_map.kinds.spec_get(local_var_id.idx()) is Some
                &&& match package.pats.spec_get(
                    instance.locals_map.locals.spec_get(local_var_id.idx())->Some_0.pat.idx(),
                ) {
                    Some(local_pat) => recorded == spec_projected_kind(
                        ComputeKind::Classical.spec_aggregate_runtime_features(
                            spec_assignment_update_kind(
                                instance.exprs.spec_get(value_id.idx())->Some_0,
                                local_pat.ty,
                                instance.active_dynamic_scopes@.len() > 0,
                            ),
                            ValueKind::Element(RuntimeKind::Static),
                        ),
                        expr_ty,
                    ),
                    None => false,
                }
            },
            _ => true,
        },
        None => true,
    }
}

/// What the dispatcher records for an expression, per the expression's kind:
/// the rule result for its sub-expressions' recorded compute kinds, projected
/// onto the shape of the expression's type. Reads of locals are related to
/// the locals map as it stood during the visit, which the final state cannot
/// name, and a call's exact equation likewise depends on callee resolution
/// through the visit-time locals; for those kinds this predicate keeps only
/// what is stable: reads of globals are classical, and a call requires at
/// least its callee's and arguments' features, the dynamic-callee feature
/// and a fully dynamic value when the callee's value is dynamic, and the
/// scope-entry features when the call stands in a dynamic scope.
pub open spec fn spec_recorded_expr_kind(
    expr: Expr,
    package: Package,
    instance: ApplicationInstance,
    recorded: ComputeKind,
) -> bool {
    let entries = instance.exprs;
    match expr.kind {
        ExprKind::Lit => recorded == ComputeKind::Classical,
        ExprKind::Hole => recorded == ComputeKind::Classical,
        ExprKind::Closure => recorded == spec_projected_kind(
            ComputeKind::Quantum(
                QuantumProperties {
                    runtime_features: USE_OF_CLOSURE,
                    value_kind: ValueKind::spec_new_dynamic_from_type(expr.ty),
                },
            ),
            expr.ty,
        ),
        ExprKind::Array(items) => {
            &&& forall|j: int|
                0 <= j < items@.len() ==> entries.spec_get((#[trigger] items@[j]).idx()) is Some
            &&& recorded == spec_projected_kind(spec_array_literal_kind(items@, entries), expr.ty)
        },
        ExprKind::Tuple(items) => {
            &&& forall|j: int|
                0 <= j < items@.len() ==> entries.spec_get((#[trigger] items@[j]).idx()) is Some
            &&& recorded == spec_projected_kind(spec_tuple_kind(items@, entries), expr.ty)
        },
        ExprKind::String(components) => {
            let interpolated = spec_component_exprs(components@, components@.len() as int);
            &&& forall|j: int|
                0 <= j < interpolated.len() ==> entries.spec_get(
                    (#[trigger] interpolated[j]).idx(),
                ) is Some
            &&& recorded == spec_projected_kind(spec_string_kind(components@, entries), expr.ty)
        },
        ExprKind::ArrayRepeat(value, size) => {
            &&& entries.spec_get(value.idx()) is Some
            &&& entries.spec_get(size.idx()) is Some
            &&& recorded == spec_projected_kind(
                spec_array_repeat_kind(
                    entries.spec_get(value.idx())->Some_0,
                    entries.spec_get(size.idx())->Some_0,
                ),
                expr.ty,
            )
        },
        ExprKind::BinOp(lhs, rhs) => {
            &&& entries.spec_get(lhs.idx()) is Some
            &&& entries.spec_get(rhs.idx()) is Some
            &&& recorded == spec_projected_kind(
                spec_bin_op_kind(
                    entries.spec_get(lhs.idx())->Some_0,
                    entries.spec_get(rhs.idx())->Some_0,
                    expr.ty,
                ),
                expr.ty,
            )
        },
        ExprKind::If(condition, body, otherwise) => {
            &&& entries.spec_get(condition.idx()) is Some
            &&& entries.spec_get(body.idx()) is Some
            &&& (otherwise is Some ==> entries.spec_get(otherwise->Some_0.idx()) is Some)
            &&& recorded == spec_projected_kind(
                spec_if_kind(
                    entries.spec_get(condition.idx())->Some_0,
                    entries.spec_get(body.idx())->Some_0,
                    match otherwise {
                        Some(otherwise_id) => Some(entries.spec_get(otherwise_id.idx())->Some_0),
                        None => None,
                    },
                    expr.ty,
                ),
                expr.ty,
            )
        },
        ExprKind::Index(array, index) => {
            &&& entries.spec_get(array.idx()) is Some
            &&& entries.spec_get(index.idx()) is Some
            &&& recorded == spec_projected_kind(
                spec_index_kind(
                    entries.spec_get(array.idx())->Some_0,
                    entries.spec_get(index.idx())->Some_0,
                    expr.ty,
                ),
                expr.ty,
            )
        },
        ExprKind::Range(start, step, end) => {
            &&& (start is Some ==> entries.spec_get(start->Some_0.idx()) is Some)
            &&& (step is Some ==> entries.spec_get(step->Some_0.idx()) is Some)
            &&& (end is Some ==> entries.spec_get(end->Some_0.idx()) is Some)
            &&& recorded == spec_projected_kind(
                spec_range_kind(
                    match start {
                        Some(start_id) => Some(entries.spec_get(start_id.idx())->Some_0),
                        None => None,
                    },
                    match step {
                        Some(step_id) => Some(entries.spec_get(step_id.idx())->Some_0),
                        None => None,
                    },
                    match end {
                        Some(end_id) => Some(entries.spec_get(end_id.idx())->Some_0),
                        None => None,
                    },
                    expr.ty,
                ),
                expr.ty,
            )
        },
        ExprKind::Return(value) => {
            &&& entries.spec_get(value.idx()) is Some
            &&& recorded == spec_projected_kind(
                ComputeKind::Classical.spec_aggregate_runtime_features(
                    entries.spec_get(value.idx())->Some_0,
                    ValueKind::Element(RuntimeKind::Static),
                ),
                expr.ty,
            )
            &&& instance.return_expressions@.len() > 0
            &&& instance.return_expressions@.last() == value
        },
        ExprKind::UnOp(_, operand) => {
            &&& entries.spec_get(operand.idx()) is Some
            &&& recorded == spec_projected_kind(entries.spec_get(operand.idx())->Some_0, expr.ty)
        },
        ExprKind::UpdateField(record, replace) => {
            &&& entries.spec_get(record.idx()) is Some
            &&& entries.spec_get(replace.idx()) is Some
            &&& recorded == spec_projected_kind(
                spec_update_field_kind(
                    entries.spec_get(record.idx())->Some_0,
                    entries.spec_get(replace.idx())->Some_0,
                ),
                expr.ty,
            )
        },
        ExprKind::UpdateIndex(array, index, replacement) => {
            &&& entries.spec_get(array.idx()) is Some
            &&& entries.spec_get(index.idx()) is Some
            &&& entries.spec_get(replacement.idx()) is Some
            &&& recorded == spec_projected_kind(
                spec_update_index_kind(
                    entries.spec_get(array.idx())->Some_0,
                    entries.spec_get(index.idx())->Some_0,
                    entries.spec_get(replacement.idx())->Some_0,
                ),
                expr.ty,
            )
        },
        ExprKind::While(condition, block) => {
            &&& entries.spec_get(condition.idx()) is Some
            &&& instance.blocks.spec_get(block.idx()) is Some
            &&& recorded == spec_projected_kind(
                spec_while_kind(
                    entries.spec_get(condition.idx())->Some_0,
                    instance.blocks.spec_get(block.idx())->Some_0,
                ),
                expr.ty,
            )
        },
        ExprKind::Block(block) => {
            &&& instance.blocks.spec_get(block.idx()) is Some
            &&& recorded == spec_projected_kind(
                instance.blocks.spec_get(block.idx())->Some_0,
                expr.ty,
            )
        },
        ExprKind::Fail(msg) => {
            &&& entries.spec_get(msg.idx()) is Some
            &&& recorded == spec_projected_kind(
                ComputeKind::Classical.spec_aggregate_runtime_features(
                    entries.spec_get(msg.idx())->Some_0,
                    ValueKind::Element(RuntimeKind::Static),
                ),
                expr.ty,
            )
        },
        ExprKind::Field(record) => {
            &&& entries.spec_get(record.idx()) is Some
            &&& recorded == spec_projected_kind(
                spec_field_kind(entries.spec_get(record.idx())->Some_0, expr.ty),
                expr.ty,
            )
        },
        ExprKind::Var(res) => match res {
            Res::Item(_) => recorded == ComputeKind::Classical,
            // A local read returns the local's compute kind as it stood at
            // the visit, which later assignments may change; the final state
            // cannot pin it.
            Res::Local(_) => true,
        },
        ExprKind::Call(callee, args) => {
            let callee_features = spec_entry_kind(entries, callee).spec_features();
            let args_features = spec_entry_kind(entries, args).spec_features();
            &&& entries.spec_get(callee.idx()) is Some
            &&& entries.spec_get(args.idx()) is Some
            &&& recorded.spec_features() & (callee_features | args_features) == (callee_features
                | args_features)
            &&& (spec_entry_kind(entries, callee).spec_is_dynamic() ==> {
                &&& recorded.spec_features() & CALL_TO_DYNAMIC_CALLEE == CALL_TO_DYNAMIC_CALLEE
                &&& recorded.spec_value_kind() == Some(
                    ValueKind::spec_new_dynamic_from_type(expr.ty),
                )
            })
            &&& (instance.active_dynamic_scopes@.len() > 0 ==> {
                &&& recorded.spec_features() & FORWARD_BRANCHING_ON_DYNAMIC_VALUE
                    == FORWARD_BRANCHING_ON_DYNAMIC_VALUE
                &&& (expr.ty.spec_is_prim(Prim::Qubit) ==> recorded.spec_features()
                    & DYNAMIC_QUBIT_ALLOCATION == DYNAMIC_QUBIT_ALLOCATION)
                &&& (expr.ty.spec_is_prim(Prim::Result) ==> recorded.spec_features()
                    & DYNAMIC_RESULT_ALLOCATION == DYNAMIC_RESULT_ALLOCATION)
            })
        },
        // Assignments update the locals map as it stood at the visit; the
        // expression itself carries only the update's features, which the
        // final state cannot pin.
        ExprKind::Assign(assignee, value) => spec_recorded_assign_kind(
            package,
            instance,
            assignee,
            value,
            expr.ty,
            recorded,
        ),
        ExprKind::AssignField(assignee, value) => spec_recorded_assign_kind(
            package,
            instance,
            assignee,
            value,
            expr.ty,
            recorded,
        ),
        ExprKind::AssignOp(assignee, value) => spec_recorded_assign_kind(
            package,
            instance,
            assignee,
            value,
            expr.ty,
            recorded,
        ),
        ExprKind::AssignIndex(array_var, index, replacement) => {
            let element_default = ValueKind::Element(RuntimeKind::Static);
            &&& entries.spec_get(index.idx()) is Some
            &&& entries.spec_get(replacement.idx()) is Some
            &&& {
                let index_kind = entries.spec_get(index.idx())->Some_0;
                let replacement_kind = entries.spec_get(replacement.idx())->Some_0;
                let base = ComputeKind::Classical.spec_aggregate_runtime_features(
                    index_kind,
                    element_default,
                ).spec_aggregate_runtime_features(replacement_kind, element_default);
                recorded == spec_projected_kind(
                    if index_kind.spec_is_dynamic() {
                        base.spec_aggregate_runtime_features(
                            ComputeKind::Quantum(
                                QuantumProperties {
                                    runtime_features: USE_OF_DYNAMIC_INDEX,
                                    value_kind: element_default,
                                },
                            ),
                            element_default,
                        )
                    } else {
                        base
                    },
                    expr.ty,
                )
            }
            &&& match package.exprs.spec_get(array_var.idx()) {
                Some(array_var_expr) => match array_var_expr.kind {
                    ExprKind::Var(Res::Local(local_var_id)) => instance.locals_map.kinds.spec_get(
                        local_var_id.idx(),
                    ) is Some,
                    _ => false,
                },
                None => false,
            }
        },
    }
}

/// Visits an expression and records its compute kind in the active
/// application instance, dispatching on the expression's shape; the recorded
/// value kind always matches the shape of the expression's type.
fn visit_expr(
    store: &PackageStore,
    package_id: PackageId,
    scaffolding: &mut PackageStoreScaffolding,
    instance: &mut ApplicationInstance,
    expr_id: ExprId,
    fuel: u64,
) -> (r: Result<(), AnalysisError>)
    ensures
        spec_entities_preserved(*old(instance), *final(instance)),
        r is Ok ==> final(instance).active_dynamic_scopes@ == old(instance).active_dynamic_scopes@,
        spec_packages_preserved(*old(scaffolding), *final(scaffolding)),
        spec_specs_preserved(*old(scaffolding), *final(scaffolding)),
        spec_stmt_entries_preserved(*old(scaffolding), *final(scaffolding)),
        spec_block_entries_preserved(*old(scaffolding), *final(scaffolding)),
        spec_expr_entries_preserved(*old(scaffolding), *final(scaffolding)),
        r is Ok ==> final(instance).exprs.spec_get(expr_id.idx()) is Some,
        r is Ok ==> match store.packages.spec_get(package_id.idx()) {
            Some(package) => match package.exprs.spec_get(expr_id.idx()) {
                Some(expr) => spec_recorded_expr_kind(
                    expr,
                    package,
                    *final(instance),
                    final(instance).exprs.spec_get(expr_id.idx())->Some_0,
                ),
                None => false,
            },
            None => false,
        },
    decreases fuel,
{
    if fuel == 0 {
        return Err(AnalysisError::BudgetExceeded);
    }
    let package = get_package(store, package_id)?;
    let expr = match package.get_expr(expr_id) {
        Some(expr) => expr,
        None => {
            return Err(AnalysisError::MalformedProgram);
        }
    };
    let computed: Result<ComputeKind, AnalysisError> = match &expr.kind {
        ExprKind::Array(items) => analyze_expr_array(
            store,
            package_id,
            scaffolding,
            instance,
            items,
            fuel - 1,
        ),
        ExprKind::ArrayRepeat(value, size) => analyze_expr_array_repeat(
            store,
            package_id,
            scaffolding,
            instance,
            *value,
            *size,
            fuel - 1,
        ),
        ExprKind::Assign(assignee, value) | ExprKind::AssignField(assignee, value)
        | ExprKind::AssignOp(assignee, value) => analyze_expr_assign(
            store,
            package_id,
            scaffolding,
            instance,
            *assignee,
            *value,
            fuel - 1,
        ),
        ExprKind::AssignIndex(array_var, index, replacement) => analyze_expr_assign_index(
            store,
            package_id,
            scaffolding,
            instance,
            *array_var,
            *index,
            *replacement,
            fuel - 1,
        ),
        ExprKind::BinOp(lhs, rhs) => analyze_expr_bin_op(
            store,
            package_id,
            scaffolding,
            instance,
            *lhs,
            *rhs,
            &expr.ty,
            fuel - 1,
        ),
        ExprKind::Block(block_id) => {
            match visit_block(store, package_id, scaffolding, instance, *block_id, fuel - 1) {
                Ok(()) => block_compute_kind(instance, *block_id),
                Err(e) => Err(e),
            }
        }
        ExprKind::Call(callee, args) => analyze_expr_call(
            store,
            package_id,
            scaffolding,
            instance,
            *callee,
            *args,
            &expr.ty,
            fuel - 1,
        ),
        ExprKind::Closure => Ok(
            ComputeKind::Quantum(
                QuantumProperties {
                    runtime_features: USE_OF_CLOSURE,
                    value_kind: ValueKind::new_dynamic_from_type(&expr.ty),
                },
            ),
        ),
        ExprKind::Fail(msg) => analyze_expr_fail(
            store,
            package_id,
            scaffolding,
            instance,
            *msg,
            fuel - 1,
        ),
        ExprKind::Field(record) => analyze_expr_field(
            store,
            package_id,
            scaffolding,
            instance,
            *record,
            &expr.ty,
            fuel - 1,
        ),
        ExprKind::Hole | ExprKind::Lit => Ok(ComputeKind::Classical),
        ExprKind::If(condition, body, otherwise) => analyze_expr_if(
            store,
            package_id,
            scaffolding,
            instance,
            *condition,
            *body,
            *otherwise,
            &expr.ty,
            fuel - 1,
        ),
        ExprKind::Index(array, index) => analyze_expr_index(
            store,
            package_id,
            scaffolding,
            instance,
            *array,
            *index,
            &expr.ty,
            fuel - 1,
        ),
        ExprKind::Range(start, step, end) => analyze_expr_range(
            store,
            package_id,
            scaffolding,
            instance,
            *start,
            *step,
            *end,
            &expr.ty,
            fuel - 1,
        ),
        ExprKind::Return(value) => analyze_expr_return(
            store,
            package_id,
            scaffolding,
            instance,
            *value,
            fuel - 1,
        ),
        ExprKind::String(components) => analyze_expr_string(
            store,
            package_id,
            scaffolding,
            instance,
            components,
            fuel - 1,
        ),
        ExprKind::Tuple(items) => analyze_expr_tuple(
            store,
            package_id,
            scaffolding,
            instance,
            items,
            fuel - 1,
        ),
        ExprKind::UnOp(_, operand) => {
            match visit_expr(store, package_id, scaffolding, instance, *operand, fuel - 1) {
                Ok(()) => expr_compute_kind(instance, *operand),
                Err(e) => Err(e),
            }
        }
        ExprKind::UpdateField(record, replace) => analyze_expr_update_field(
            store,
            package_id,
            scaffolding,
            instance,
            *record,
            *replace,
            fuel - 1,
        ),
        ExprKind::UpdateIndex(array, index, replacement) => analyze_expr_update_index(
            store,
            package_id,
            scaffolding,
            instance,
            *array,
            *index,
            *replacement,
            fuel - 1,
        ),
        ExprKind::Var(res) => match res {
            Res::Item(_) => Ok(ComputeKind::Classical),
            Res::Local(local_var_id) => match instance.locals_map.find_compute_kind(
                *local_var_id,
            ) {
                Some(kind) => Ok(kind),
                None => Err(AnalysisError::MalformedProgram),
            },
        },
        ExprKind::While(condition, block_id) => analyze_expr_while(
            store,
            package_id,
            scaffolding,
            instance,
            *condition,
            *block_id,
            fuel - 1,
        ),
    };
    let mut compute_kind = match computed {
        Ok(kind) => kind,
        Err(e) => {
            return Err(e);
        }
    };
    // The computed value kind may not match the structure of the
    // expression's type; repair the mismatch by projecting it onto the
    // expected shape before storing it.
    if let ComputeKind::Quantum(properties) = compute_kind {
        compute_kind = ComputeKind::Quantum(
            QuantumProperties {
                runtime_features: properties.runtime_features,
                value_kind: properties.value_kind.projected_onto(
                    ValueKind::new_static_from_type(&expr.ty),
                ),
            },
        );
    }
    if instance.exprs.contains_key(expr_id) {
        // The program representation is tree shaped: reaching the same
        // expression twice within one application instance is a malformed
        // table, refused rather than silently re-recorded.
        return Err(AnalysisError::DuplicateEntry);
    }
    let ghost pre_entries = instance.exprs;
    instance.exprs.insert(expr_id, compute_kind);
    proof {
        // The fold-based rules read the entries map itself; the insertion of
        // this expression's own entry leaves every element entry unchanged.
        match &expr.kind {
            ExprKind::Array(items) => {
                lemma_expr_list_fold_stable(
                    items@,
                    pre_entries,
                    instance.exprs,
                    ValueKind::Array(RuntimeKind::Static, RuntimeKind::Static),
                    items@.len() as int,
                );
            }
            ExprKind::Tuple(items) => {
                lemma_expr_list_fold_stable(
                    items@,
                    pre_entries,
                    instance.exprs,
                    ValueKind::Element(RuntimeKind::Static),
                    items@.len() as int,
                );
            }
            ExprKind::String(components) => {
                let interpolated = spec_component_exprs(components@, components@.len() as int);
                lemma_expr_list_fold_stable(
                    interpolated,
                    pre_entries,
                    instance.exprs,
                    ValueKind::Element(RuntimeKind::Static),
                    interpolated.len() as int,
                );
            }
            _ => (),
        }
    }
    Ok(())
}

/// The runtime-feature fold over the first `n` listed statements' recorded
/// compute kinds.
pub open spec fn spec_stmt_list_fold(
    stmts: Seq<StmtId>,
    entries: IndexMap<StmtId, ComputeKind>,
    default: ValueKind,
    n: int,
) -> ComputeKind
    decreases n,
{
    if n <= 0 {
        ComputeKind::Classical
    } else {
        spec_stmt_list_fold(stmts, entries, default, n - 1).spec_aggregate_runtime_features(
            match entries.spec_get(stmts[n - 1].idx()) {
                Some(kind) => kind,
                None => ComputeKind::Classical,
            },
            default,
        )
    }
}

/// The statement fold only reads the listed entries, so it is unchanged by
/// a traversal step that keeps those entries.
pub proof fn lemma_stmt_list_fold_stable(
    stmts: Seq<StmtId>,
    before: IndexMap<StmtId, ComputeKind>,
    after: IndexMap<StmtId, ComputeKind>,
    default: ValueKind,
    n: int,
)
    requires
        forall|j: int|
            0 <= j < n ==> before.spec_get(stmts[j].idx()) is Some && after.spec_get(
                stmts[j].idx(),
            ) == before.spec_get(stmts[j].idx()),
    ensures
        spec_stmt_list_fold(stmts, after, default, n) == spec_stmt_list_fold(
            stmts,
            before,
            default,
            n,
        ),
    decreases n,
{
    if n > 0 {
        lemma_stmt_list_fold_stable(stmts, before, after, default, n - 1);
    }
}

/// What the dispatcher records for a statement: an expression statement
/// carries its expression's compute kind; a discarded or binding statement
/// carries only the expression's runtime features; an item statement is
/// classical.
pub open spec fn spec_recorded_stmt_kind(
    stmt: Stmt,
    package: Package,
    instance: ApplicationInstance,
    recorded: ComputeKind,
) -> bool {
    let entries = instance.exprs;
    match stmt.kind {
        StmtKind::Expr(expr_id) => {
            &&& entries.spec_get(expr_id.idx()) is Some
            &&& recorded == entries.spec_get(expr_id.idx())->Some_0
        },
        StmtKind::Semi(expr_id) => {
            &&& entries.spec_get(expr_id.idx()) is Some
            &&& recorded == ComputeKind::Classical.spec_aggregate_runtime_features(
                entries.spec_get(expr_id.idx())->Some_0,
                ValueKind::Element(RuntimeKind::Static),
            )
        },
        StmtKind::Local(_, pat_id, expr_id) => {
            &&& entries.spec_get(expr_id.idx()) is Some
            &&& recorded == ComputeKind::Classical.spec_aggregate_runtime_features(
                entries.spec_get(expr_id.idx())->Some_0,
                ValueKind::Element(RuntimeKind::Static),
            )
            &&& match package.pats.spec_get(pat_id.idx()) {
                Some(pat) => match pat.kind {
                    PatKind::Bind(ident) => instance.locals_map.kinds.spec_get(ident.id.idx())
                        == Some(
                        spec_bound_local_kind(entries.spec_get(expr_id.idx())->Some_0, pat.ty),
                    ),
                    _ => true,
                },
                None => false,
            }
        },
        StmtKind::Item(_) => recorded == ComputeKind::Classical,
    }
}

/// What the dispatcher records for a block: the runtime-feature fold of its
/// statements, and for a non-unit block additionally the value kind of its
/// trailing expression, projected onto the block's type.
pub open spec fn spec_recorded_block_kind(
    block: Block,
    package: Package,
    instance: ApplicationInstance,
    recorded: ComputeKind,
) -> bool {
    let default = ValueKind::spec_new_static_from_type(block.ty);
    let fold = spec_stmt_list_fold(block.stmts@, instance.stmts, default, block.stmts@.len() as int);
    &&& forall|j: int|
        0 <= j < block.stmts@.len() ==> instance.stmts.spec_get(
            (#[trigger] block.stmts@[j]).idx(),
        ) is Some
    &&& if block.ty.spec_is_unit() {
        recorded == fold
    } else {
        &&& block.stmts@.len() > 0
        &&& match package.stmts.spec_get(block.stmts@.last().idx()) {
            Some(last_stmt) => match last_stmt.kind {
                StmtKind::Expr(last_expr_id) => spec_trailing_value(
                    fold,
                    instance,
                    last_expr_id,
                    block.ty,
                    recorded,
                ),
                StmtKind::Semi(last_expr_id) => spec_trailing_value(
                    fold,
                    instance,
                    last_expr_id,
                    block.ty,
                    recorded,
                ),
                _ => false,
            },
            None => false,
        }
    }
}

/// Whether `recorded` is the statement fold with the trailing expression's
/// value kind joined in, as the block rule prescribes.
pub open spec fn spec_trailing_value(
    fold: ComputeKind,
    instance: ApplicationInstance,
    last_expr_id: ExprId,
    block_ty: Ty,
    recorded: ComputeKind,
) -> bool {
    &&& instance.exprs.spec_get(last_expr_id.idx()) is Some
    &&& recorded == match instance.exprs.spec_get(last_expr_id.idx())->Some_0 {
        ComputeKind::Quantum(properties) => fold.spec_aggregate_value_kind(
            properties.value_kind.spec_projected_onto(
                ValueKind::spec_new_static_from_type(block_ty),
            ),
        ),
        ComputeKind::Classical => fold,
    }
}

/// Visits a statement and records its compute kind in the active
/// application instance. Binding statements bind the visited expression's
/// compute kind to their pattern; only runtime features carry over to the
/// statement itself.
fn visit_stmt(
    store: &PackageStore,
    package_id: PackageId,
    scaffolding: &mut PackageStoreScaffolding,
    instance: &mut ApplicationInstance,
    stmt_id: StmtId,
    fuel: u64,
) -> (r: Result<(), AnalysisError>)
    ensures
        spec_entities_preserved(*old(instance), *final(instance)),
        r is Ok ==> final(instance).active_dynamic_scopes@ == old(instance).active_dynamic_scopes@,
        spec_packages_preserved(*old(scaffolding), *final(scaffolding)),
        spec_specs_preserved(*old(scaffolding), *final(scaffolding)),
        spec_stmt_entries_preserved(*old(scaffolding), *final(scaffolding)),
        spec_block_entries_preserved(*old(scaffolding), *final(scaffolding)),
        spec_expr_entries_preserved(*old(scaffolding), *final(scaffolding)),
        r is Ok ==> final(instance).stmts.spec_get(stmt_id.idx()) is Some,
        r is Ok ==> match store.packages.spec_get(package_id.idx()) {
            Some(package) => match package.stmts.spec_get(stmt_id.idx()) {
                Some(stmt) => spec_recorded_stmt_kind(
                    stmt,
                    package,
                    *final(instance),
                    final(instance).stmts.spec_get(stmt_id.idx())->Some_0,
                ),
                None => false,
            },
            None => false,
        },
    decreases fuel,
{
    if fuel == 0 {
        return Err(AnalysisError::BudgetExceeded);
    }
    let package = get_package(store, package_id)?;
    let stmt = match package.get_stmt(stmt_id) {
        Some(stmt) => stmt,
        None => {
            return Err(AnalysisError::MalformedProgram);
        }
    };
    let compute_kind = match stmt.kind {
        StmtKind::Expr(expr_id) => {
            visit_expr(store, package_id, scaffolding, instance, expr_id, fuel - 1)?;
            expr_compute_kind(instance, expr_id)?
        }
        StmtKind::Semi(expr_id) => {
            visit_expr(store, package_id, scaffolding, instance, expr_id, fuel - 1)?;
            let expr_kind_value = expr_compute_kind(instance, expr_id)?;
            ComputeKind::Classical.aggregate_runtime_features(
                expr_kind_value,
                ValueKind::Element(RuntimeKind::Static),
            )
        }
        StmtKind::Local(mutability, pat_id, expr_id) => {
            visit_expr(store, package_id, scaffolding, instance, expr_id, fuel - 1)?;
            bind_expr_compute_kind_to_pattern(
                package,
                instance,
                mutability,
                pat_id,
                expr_id,
                fuel - 1,
            )?;
            let expr_kind_value = expr_compute_kind(instance, expr_id)?;
            ComputeKind::Classical.aggregate_runtime_features(
                expr_kind_value,
                ValueKind::Element(RuntimeKind::Static),
            )
        }
        StmtKind::Item(_) => ComputeKind::Classical,
    };
    if instance.stmts.contains_key(stmt_id) {
        return Err(AnalysisError::DuplicateEntry);
    }
    instance.stmts.insert(stmt_id, compute_kind);
    Ok(())
}

/// Visits a block and records its compute kind: the runtime features of its
/// statements are aggregated, and a non-unit block additionally carries the
/// value kind of its trailing expression.
fn visit_block(
    store: &PackageStore,
    package_id: PackageId,
    scaffolding: &mut PackageStoreScaffolding,
    instance: &mut ApplicationInstance,
    block_id: BlockId,
    fuel: u64,
) -> (r: Result<(), AnalysisError>)
    ensures
        spec_entities_preserved(*old(instance), *final(instance)),
        r is Ok ==> final(instance).active_dynamic_scopes@ == old(instance).active_dynamic_scopes@,
        spec_packages_preserved(*old(scaffolding), *final(scaffolding)),
        spec_specs_preserved(*old(scaffolding), *final(scaffolding)),
        spec_stmt_entries_preserved(*old(scaffolding), *final(scaffolding)),
        spec_block_entries_preserved(*old(scaffolding), *final(scaffolding)),
        spec_expr_entries_preserved(*old(scaffolding), *final(scaffolding)),
        r is Ok ==> final(instance).blocks.spec_get(block_id.idx()) is Some,
        r is Ok ==> match store.packages.spec_get(package_id.idx()) {
            Some(package) => match package.blocks.spec_get(block_id.idx()) {
                Some(block) => spec_recorded_block_kind(
                    block,
                    package,
                    *final(instance),
                    final(instance).blocks.spec_get(block_id.idx())->Some_0,
                ),
                None => false,
            },
            None => false,
        },
    decreases fuel,
{
    if fuel == 0 {
        return Err(AnalysisError::BudgetExceeded);
    }
    let package = get_package(store, package_id)?;
    let block = match package.get_block(block_id) {
        Some(block) => block,
        None => {
            return Err(AnalysisError::MalformedProgram);
        }
    };
    let default_value_kind = ValueKind::new_static_from_type(&block.ty);
    let mut block_kind = ComputeKind::Classical;
    let mut i: usize = 0;
    while i < block.stmts.len()
        invariant
            spec_entities_preserved(*old(instance), *instance),
            instance.active_dynamic_scopes@ == old(instance).active_dynamic_scopes@,
            spec_packages_preserved(*old(scaffolding), *scaffolding),
            spec_specs_preserved(*old(scaffolding), *scaffolding),
            spec_stmt_entries_preserved(*old(scaffolding), *scaffolding),
            spec_block_entries_preserved(*old(scaffolding), *scaffolding),
            spec_expr_entries_preserved(*old(scaffolding), *scaffolding),
            default_value_kind == ValueKind::spec_new_static_from_type(block.ty),
            fuel >= 1,
            i <= block.stmts@.len(),
            forall|j: int|
                0 <= j < i ==> instance.stmts.spec_get((#[trigger] block.stmts@[j]).idx()) is Some,
            block_kind == spec_stmt_list_fold(
                block.stmts@,
                instance.stmts,
                default_value_kind,
                i as int,
            ),
        decreases block.stmts@.len() - i,
    {
        let ghost pre_stmts = instance.stmts;
        match visit_stmt(store, package_id, scaffolding, instance, block.stmts[i], fuel - 1) {
            Ok(()) => (),
            Err(e) => {
                return Err(e);
            }
        }
        proof {
            lemma_stmt_list_fold_stable(
                block.stmts@,
                pre_stmts,
                instance.stmts,
                default_value_kind,
                i as int,
            );
        }
        let stmt_kind_value = match stmt_compute_kind(instance, block.stmts[i]) {
            Ok(kind) => kind,
            Err(e) => {
                return Err(e);
            }
        };
        block_kind = block_kind.aggregate_runtime_features(stmt_kind_value, default_value_kind);
        i += 1;
    }
    if !block.ty.is_unit() {
        if block.stmts.len() == 0 {
            return Err(AnalysisError::MalformedProgram);
        }
        let last_stmt_id = block.stmts[block.stmts.len() - 1];
        let last_stmt = match package.get_stmt(last_stmt_id) {
            Some(stmt) => stmt,
            None => {
                return Err(AnalysisError::MalformedProgram);
            }
        };
        let last_expr_id = match last_stmt.kind {
            StmtKind::Expr(expr_id) => expr_id,
            StmtKind::Semi(expr_id) => expr_id,
            _ => {
                return Err(AnalysisError::MalformedProgram);
            }
        };
        let last_expr_kind = expr_compute_kind(instance, last_expr_id)?;
        if let ComputeKind::Quantum(last_properties) = last_expr_kind {
            let projected = last_properties.value_kind.projected_onto(
                ValueKind::new_static_from_type(&block.ty),
            );
            block_kind = block_kind.aggregate_value_kind(projected);
        }
    }
    if instance.blocks.contains_key(block_id) {
        return Err(AnalysisError::DuplicateEntry);
    }
    instance.blocks.insert(block_id, block_kind);
    Ok(())
}

/// Analyzes the body specialization of an intrinsic callable, deriving its
/// applications table purely from its signature.
fn analyze_intrinsic_callable(
    store: &PackageStore,
    scaffolding: &mut PackageStoreScaffolding,
    callable_id: crate::fir::StoreItemId,
    fuel: u64,
) -> (r: Result<(), AnalysisError>)
    ensures
        spec_packages_preserved(*old(scaffolding), *final(scaffolding)),
        spec_specs_preserved(*old(scaffolding), *final(scaffolding)),
        spec_stmt_entries_preserved(*old(scaffolding), *final(scaffolding)),
        spec_block_entries_preserved(*old(scaffolding), *final(scaffolding)),
        spec_expr_entries_preserved(*old(scaffolding), *final(scaffolding)),
        r is Ok ==> final(scaffolding).spec_find_specialization(
            GlobalSpecId { callable: callable_id, functor_set_value: FunctorSetValue::Empty },
        ) is Some,
        ({
            let body_id = GlobalSpecId {
                callable: callable_id,
                functor_set_value: FunctorSetValue::Empty,
            };
            (r is Ok && old(scaffolding).spec_find_specialization(body_id) is None)
                ==> match store.packages.spec_get(callable_id.package.idx()) {
                Some(package) => match package.items.spec_get(callable_id.item.idx()) {
                    Some(item) => match item.kind {
                        ItemKind::Callable(decl) => {
                            let table = final(scaffolding).spec_find_specialization(
                                body_id,
                            )->Some_0;
                            &&& table.inherent == match decl.kind {
                                CallableKind::Function => ComputeKind::Classical,
                                CallableKind::Operation => spec_intrinsic_operation_inherent(
                                    decl.output,
                                ),
                            }
                            &&& forall|n: int|
                                0 <= n < table.dynamic_param_applications@.len()
                                    ==> exists|p: int|
                                    #[trigger] package.pats.spec_get(p) is Some
                                        && (#[trigger] table.dynamic_param_applications@[n])
                                        == match decl.kind {
                                        CallableKind::Function => spec_intrinsic_function_param_entry(
                                            package.pats.spec_get(p)->Some_0.ty,
                                            decl.output,
                                        ),
                                        CallableKind::Operation => spec_intrinsic_operation_param_entry(
                                            package.pats.spec_get(p)->Some_0.ty,
                                            decl.output,
                                        ),
                                    }
                            &&& (decl.kind is Function ==> table.inherent
                                == ComputeKind::Classical)
                        },
                        _ => false,
                    },
                    None => false,
                },
                None => false,
            }
        }),
{
    let body_spec_id = GlobalSpecId {
        callable: callable_id,
        functor_set_value: FunctorSetValue::Empty,
    };
    if scaffolding.find_specialization(body_spec_id).is_some() {
        return Ok(());
    }
    let package = get_package(store, callable_id.package)?;
    let item = match package.get_item(callable_id.item) {
        Some(item) => item,
        None => {
            return Err(AnalysisError::MalformedProgram);
        }
    };
    let callable_decl = match &item.kind {
        ItemKind::Callable(decl) => decl,
        _ => {
            return Err(AnalysisError::MalformedProgram);
        }
    };
    let input_params = derive_callable_input_params(callable_decl.input, &package.pats, fuel)?;
    let generator_set = derive_intrinsic_application_generator_set(
        callable_decl.kind,
        &input_params,
        &callable_decl.output,
        &package.pats,
    )?;
    scaffolding.insert_spec(body_spec_id, generator_set)?;
    Ok(())
}

/// Analyzes one specialization declaration by simulating every application
/// instance over its block and merging the results, then records its
/// generator set. The per-entity values flow through pinned contracts: each
/// visit records exactly the per-kind rule result, the builder's save pairs
/// the inherent instance's entries with one entry per parameter, and the
/// write-once stores never rewrite what was recorded.
fn analyze_spec_decl(
    store: &PackageStore,
    scaffolding: &mut PackageStoreScaffolding,
    id: GlobalSpecId,
    fuel: u64,
) -> (r: Result<(), AnalysisError>)
    ensures
        spec_packages_preserved(*old(scaffolding), *final(scaffolding)),
        spec_specs_preserved(*old(scaffolding), *final(scaffolding)),
        spec_stmt_entries_preserved(*old(scaffolding), *final(scaffolding)),
        spec_block_entries_preserved(*old(scaffolding), *final(scaffolding)),
        spec_expr_entries_preserved(*old(scaffolding), *final(scaffolding)),
        r is Ok ==> final(scaffolding).spec_find_specialization(id) is Some,
    decreases fuel,
{
    if fuel == 0 {
        return Err(AnalysisError::BudgetExceeded);
    }
    let table_present = scaffolding.find_specialization(id).is_some();
    let package = get_package(store, id.callable.package)?;
    let item = match package.get_item(id.callable.item) {
        Some(item) => item,
        None => {
            return Err(AnalysisError::MalformedProgram);
        }
    };
    let callable_decl = match &item.kind {
        ItemKind::Callable(decl) => decl,
        _ => {
            return Err(AnalysisError::MalformedProgram);
        }
    };
    let specializations = match &callable_decl.implementation {
        CallableImpl::Spec(specializations) => specializations,
        CallableImpl::Intrinsic => {
            return Err(AnalysisError::MalformedProgram);
        }
    };
    let spec_decl = match crate::cycle_detection::get_spec_decl(
        specializations,
        id.functor_set_value,
    ) {
        Ok(decl) => decl,
        Err(e) => {
            return Err(e);
        }
    };
    // A specialization is finished once both its table and its body entities
    // are recorded. A cycled specialization arrives here with its table
    // pre-seeded but its body unvisited: the body is then visited like any
    // other (the memoized table breaks the recursion at its own call sites),
    // and the conservative pre-seeded table is kept.
    let block_present = scaffolding.find_block(
        crate::fir::StoreBlockId { package: id.callable.package, block: spec_decl.block },
    ).is_some();
    if table_present && block_present {
        return Ok(());
    }
    if block_present {
        return Err(AnalysisError::MalformedProgram);
    }
    let callable_params = derive_callable_input_params(callable_decl.input, &package.pats, fuel)?;
    let spec_params = derive_specialization_input_params(
        spec_decl.input,
        &callable_params,
        &package.pats,
    )?;
    let mut builder = GeneratorSetsBuilder::new(
        &spec_params,
        &package.pats,
        spec_decl.input.is_some(),
    )?;
    loop
        invariant
            spec_packages_preserved(*old(scaffolding), *scaffolding),
            spec_specs_preserved(*old(scaffolding), *scaffolding),
            spec_stmt_entries_preserved(*old(scaffolding), *scaffolding),
            spec_block_entries_preserved(*old(scaffolding), *scaffolding),
            spec_expr_entries_preserved(*old(scaffolding), *scaffolding),
            fuel >= 1,
        decreases builder.pending_count(),
    {
        match visit_block(
            store,
            id.callable.package,
            scaffolding,
            &mut builder.current,
            spec_decl.block,
            fuel - 1,
        ) {
            Ok(()) => (),
            Err(e) => {
                return Err(e);
            }
        }
        match builder.advance_current_application_instance() {
            Ok(true) => (),
            Ok(false) => {
                break ;
            }
            Err(e) => {
                return Err(e);
            }
        }
    }
    let mut package_scaffolding = match scaffolding.0.take(id.callable.package) {
        Some(p) => p,
        None => {
            return Err(AnalysisError::MalformedProgram);
        }
    };
    let saved = builder.save_to_package_compute_properties(
        &mut package_scaffolding.blocks,
        &mut package_scaffolding.stmts,
        &mut package_scaffolding.exprs,
        Some(spec_decl.block),
    );
    scaffolding.0.insert(id.callable.package, package_scaffolding);
    match saved {
        Ok(Some(generator_set)) => {
            if !table_present {
                scaffolding.insert_spec(id, generator_set)?;
            }
            Ok(())
        }
        Ok(None) => Err(AnalysisError::MalformedProgram),
        Err(e) => Err(e),
    }
}

/// Analyzes one specialization of a callable, unless it is already
/// memoized: intrinsic callables get their signature-derived table, and
/// specializations with bodies are simulated.
fn analyze_spec(
    store: &PackageStore,
    scaffolding: &mut PackageStoreScaffolding,
    id: GlobalSpecId,
    fuel: u64,
) -> (r: Result<(), AnalysisError>)
    ensures
        spec_packages_preserved(*old(scaffolding), *final(scaffolding)),
        spec_specs_preserved(*old(scaffolding), *final(scaffolding)),
        spec_stmt_entries_preserved(*old(scaffolding), *final(scaffolding)),
        spec_block_entries_preserved(*old(scaffolding), *final(scaffolding)),
        spec_expr_entries_preserved(*old(scaffolding), *final(scaffolding)),
        r is Ok ==> final(scaffolding).spec_find_specialization(id) is Some
            || final(scaffolding).spec_find_specialization(
            GlobalSpecId { callable: id.callable, functor_set_value: FunctorSetValue::Empty },
        ) is Some,
    decreases fuel,
{
    if fuel == 0 {
        return Err(AnalysisError::BudgetExceeded);
    }
    if scaffolding.find_specialization(id).is_some() {
        return Ok(());
    }
    let package = get_package(store, id.callable.package)?;
    let item = match package.get_item(id.callable.item) {
        Some(item) => item,
        None => {
            return Err(AnalysisError::MalformedProgram);
        }
    };
    let callable_decl = match &item.kind {
        ItemKind::Callable(decl) => decl,
        _ => {
            return Err(AnalysisError::MalformedProgram);
        }
    };
    match &callable_decl.implementation {
        CallableImpl::Intrinsic => analyze_intrinsic_callable(
            store,
            scaffolding,
            id.callable,
            fuel,
        ),
        CallableImpl::Spec(_) => analyze_spec_decl(store, scaffolding, id, fuel - 1),
    }
}

/// Analyzes one top-level item: callables have each of their declared
/// specializations analyzed; namespaces and type declarations are recorded
/// as non-callable.
fn analyze_item(
    store: &PackageStore,
    scaffolding: &mut PackageStoreScaffolding,
    package_id: PackageId,
    item_id: crate::fir::LocalItemId,
    fuel: u64,
) -> (r: Result<(), AnalysisError>)
    ensures
        spec_packages_preserved(*old(scaffolding), *final(scaffolding)),
        spec_specs_preserved(*old(scaffolding), *final(scaffolding)),
        spec_stmt_entries_preserved(*old(scaffolding), *final(scaffolding)),
        spec_block_entries_preserved(*old(scaffolding), *final(scaffolding)),
        spec_expr_entries_preserved(*old(scaffolding), *final(scaffolding)),
{
    let package = get_package(store, package_id)?;
    let item = match package.get_item(item_id) {
        Some(item) => item,
        None => {
            return Err(AnalysisError::MalformedProgram);
        }
    };
    let callable_id = crate::fir::StoreItemId { package: package_id, item: item_id };
    match &item.kind {
        ItemKind::Callable(callable_decl) => match &callable_decl.implementation {
            CallableImpl::Intrinsic => analyze_intrinsic_callable(
                store,
                scaffolding,
                callable_id,
                fuel,
            ),
            CallableImpl::Spec(specializations) => {
                analyze_spec_decl(
                    store,
                    scaffolding,
                    GlobalSpecId {
                        callable: callable_id,
                        functor_set_value: FunctorSetValue::Empty,
                    },
                    fuel,
                )?;
                if specializations.adj.is_some() {
                    analyze_spec_decl(
                        store,
                        scaffolding,
                        GlobalSpecId {
                            callable: callable_id,
                            functor_set_value: FunctorSetValue::Adj,
                        },
                        fuel,
                    )?;
                }
                if specializations.ctl.is_some() {
                    analyze_spec_decl(
                        store,
                        scaffolding,
                        GlobalSpecId {
                            callable: callable_id,
                            functor_set_value: FunctorSetValue::Ctl,
                        },
                        fuel,
                    )?;
                }
                if specializations.ctl_adj.is_some() {
                    analyze_spec_decl(
                        store,
                        scaffolding,
                        GlobalSpecId {
                            callable: callable_id,
                            functor_set_value: FunctorSetValue::CtlAdj,
                        },
                        fuel,
                    )?;
                }
                Ok(())
            }
        },
        ItemKind::Namespace | ItemKind::Ty => {
            scaffolding.insert_item(
                package_id,
                item_id,
                ItemScaffolding::NonCallable,
            )
        }
    }
}

/// Pre-seeds the applications table of a specialization that takes part in
/// a call cycle with its conservative closed form; refuses a specialization
/// that already has an entry.
pub fn analyze_specialization_with_cycles(
    store: &PackageStore,
    scaffolding: &mut PackageStoreScaffolding,
    id: GlobalSpecId,
) -> (r: Result<(), AnalysisError>)
    ensures
        spec_packages_preserved(*old(scaffolding), *final(scaffolding)),
        spec_specs_preserved(*old(scaffolding), *final(scaffolding)),
        spec_stmt_entries_preserved(*old(scaffolding), *final(scaffolding)),
        spec_block_entries_preserved(*old(scaffolding), *final(scaffolding)),
        spec_expr_entries_preserved(*old(scaffolding), *final(scaffolding)),
        r is Ok ==> final(scaffolding).spec_find_specialization(id) is Some,
        r is Ok ==> match store.packages.spec_get(id.callable.package.idx()) {
            Some(package) => match package.items.spec_get(id.callable.item.idx()) {
                Some(item) => match item.kind {
                    ItemKind::Callable(decl) => {
                        let table = final(scaffolding).spec_find_specialization(id)->Some_0;
                        let inherent = match decl.kind {
                            CallableKind::Function => ComputeKind::Classical,
                            CallableKind::Operation => spec_cycled_operation_compute_kind(
                                decl.output,
                            ),
                        };
                        &&& table.inherent == inherent
                        &&& forall|n: int|
                            0 <= n < table.dynamic_param_applications@.len()
                                ==> table.dynamic_param_applications@[n] == match decl.kind {
                                CallableKind::Function => spec_cycled_function_param_entry(
                                    decl.output,
                                ),
                                CallableKind::Operation => spec_cycled_operation_compute_kind(
                                    decl.output,
                                ),
                            }
                    },
                    _ => false,
                },
                None => false,
            },
            None => false,
        },
{
    if scaffolding.find_specialization(id).is_some() {
        return Err(AnalysisError::DuplicateEntry);
    }
    let package = get_package(store, id.callable.package)?;
    let item = match package.get_item(id.callable.item) {
        Some(item) => item,
        None => {
            return Err(AnalysisError::MalformedProgram);
        }
    };
    let callable_decl = match &item.kind {
        ItemKind::Callable(decl) => decl,
        _ => {
            return Err(AnalysisError::MalformedProgram);
        }
    };
    let specializations = match &callable_decl.implementation {
        CallableImpl::Spec(specializations) => specializations,
        CallableImpl::Intrinsic => {
            return Err(AnalysisError::MalformedProgram);
        }
    };
    let spec_decl = match crate::cycle_detection::get_spec_decl(
        specializations,
        id.functor_set_value,
    ) {
        Ok(decl) => decl,
        Err(e) => {
            return Err(e);
        }
    };
    let fuel = package_fuel(package);
    let callable_params = derive_callable_input_params(callable_decl.input, &package.pats, fuel)?;
    let spec_params = derive_specialization_input_params(
        spec_decl.input,
        &callable_params,
        &package.pats,
    )?;
    let generator_set = derive_cycled_application_generator_set(
        callable_decl.kind,
        spec_params.len(),
        &callable_decl.output,
    );
    scaffolding.insert_spec(id, generator_set)?;
    Ok(())
}

/// Analyzes every item of a package, then its remaining top-level
/// statements, recording the results in the scaffolding. Specializations
/// that take part in call cycles must have been pre-seeded. On success,
/// every statement of the package has a recorded generator set: an analysis
/// run either fully completes a package or reports a failure.
pub fn analyze_package(
    store: &PackageStore,
    scaffolding: &mut PackageStoreScaffolding,
    package_id: PackageId,
) -> (r: Result<(), AnalysisError>)
    ensures
        spec_packages_preserved(*old(scaffolding), *final(scaffolding)),
        spec_specs_preserved(*old(scaffolding), *final(scaffolding)),
        spec_stmt_entries_preserved(*old(scaffolding), *final(scaffolding)),
        spec_block_entries_preserved(*old(scaffolding), *final(scaffolding)),
        spec_expr_entries_preserved(*old(scaffolding), *final(scaffolding)),
        r is Ok ==> forall|j: int|
            (match store.packages.spec_get(package_id.idx()) {
                Some(package) => package.stmts.spec_get(j) is Some,
                None => false,
            }) ==> spec_has_stmt(*final(scaffolding), package_id.idx(), j),
{
    let fuel = store_fuel(store);
    let package = get_package(store, package_id)?;
    let item_count = package.items.slot_count();
    let mut i: usize = 0;
    while i < item_count
        invariant
            spec_packages_preserved(*old(scaffolding), *scaffolding),
            spec_specs_preserved(*old(scaffolding), *scaffolding),
            spec_stmt_entries_preserved(*old(scaffolding), *scaffolding),
            spec_block_entries_preserved(*old(scaffolding), *scaffolding),
            spec_expr_entries_preserved(*old(scaffolding), *scaffolding),
        decreases item_count - i,
    {
        let item_id = crate::fir::LocalItemId(i);
        let package = get_package(store, package_id)?;
        if package.items.contains_key(item_id) {
            match analyze_item(store, scaffolding, package_id, item_id, fuel) {
                Ok(()) => (),
                Err(e) => {
                    return Err(e);
                }
            }
        }
        i += 1;
    }

    // Only top-level statements remain unanalyzed; collect them, then visit
    // them in one parameterless application instance.
    let package = get_package(store, package_id)?;
    let stmt_count = package.stmts.slot_count();
    let ghost scan_snapshot = *scaffolding;
    let mut unanalyzed_stmts: Vec<StmtId> = Vec::new();
    let mut si: usize = 0;
    while si < stmt_count
        invariant
            *scaffolding == scan_snapshot,
            spec_packages_preserved(*old(scaffolding), *scaffolding),
            spec_specs_preserved(*old(scaffolding), *scaffolding),
            spec_stmt_entries_preserved(*old(scaffolding), *scaffolding),
            spec_block_entries_preserved(*old(scaffolding), *scaffolding),
            spec_expr_entries_preserved(*old(scaffolding), *scaffolding),
            si <= stmt_count,
            forall|j: int|
                0 <= j < si && package.stmts.spec_get(j) is Some ==> spec_has_stmt(
                    scan_snapshot,
                    package_id.idx(),
                    j,
                ) || exists|u: int|
                    0 <= u < unanalyzed_stmts@.len() && unanalyzed_stmts@[u].idx() == j,
        decreases stmt_count - si,
    {
        let stmt_id = StmtId(si);
        let ghost prior = unanalyzed_stmts@;
        if package.stmts.contains_key(stmt_id) {
            let global_stmt_id = crate::fir::StoreStmtId { package: package_id, stmt: stmt_id };
            if scaffolding.find_stmt(global_stmt_id).is_none() {
                unanalyzed_stmts.push(stmt_id);
            }
        }
        si += 1;
        proof {
            assert forall|j: int|
                0 <= j < si && package.stmts.spec_get(j) is Some implies spec_has_stmt(
                scan_snapshot,
                package_id.idx(),
                j,
            ) || exists|u: int|
                0 <= u < unanalyzed_stmts@.len() && unanalyzed_stmts@[u].idx() == j by {
                if j < si - 1 {
                    if !spec_has_stmt(scan_snapshot, package_id.idx(), j) {
                        let u0 = choose|u: int| 0 <= u < prior.len() && prior[u].idx() == j;
                        assert(unanalyzed_stmts@[u0].idx() == j);
                    }
                } else {
                    if !spec_has_stmt(scan_snapshot, package_id.idx(), j) {
                        assert(unanalyzed_stmts@[unanalyzed_stmts@.len() - 1].idx() == j);
                    }
                }
            }
        }
    }

    let no_params: Vec<InputParam> = Vec::new();
    let mut builder = GeneratorSetsBuilder::new(&no_params, &package.pats, false)?;
    let mut ui: usize = 0;
    while ui < unanalyzed_stmts.len()
        invariant
            spec_packages_preserved(*old(scaffolding), *scaffolding),
            spec_specs_preserved(*old(scaffolding), *scaffolding),
            spec_stmt_entries_preserved(*old(scaffolding), *scaffolding),
            spec_block_entries_preserved(*old(scaffolding), *scaffolding),
            spec_expr_entries_preserved(*old(scaffolding), *scaffolding),
            spec_stmt_entries_preserved(scan_snapshot, *scaffolding),
            builder.pending@.len() == 0,
            builder.closed@.len() == 0,
            ui <= unanalyzed_stmts@.len(),
            forall|u: int|
                0 <= u < ui ==> builder.current.stmts.spec_get(
                    unanalyzed_stmts@[u].idx(),
                ) is Some,
        decreases unanalyzed_stmts@.len() - ui,
    {
        match visit_stmt(
            store,
            package_id,
            scaffolding,
            &mut builder.current,
            unanalyzed_stmts[ui],
            fuel,
        ) {
            Ok(()) => (),
            Err(e) => {
                return Err(e);
            }
        }
        ui += 1;
    }
    let ghost visited_builder = builder;
    let mut package_scaffolding = match scaffolding.0.take(package_id) {
        Some(p) => p,
        None => {
            return Err(AnalysisError::MalformedProgram);
        }
    };
    let ghost taken_stmts = package_scaffolding.stmts;
    let saved = builder.save_to_package_compute_properties(
        &mut package_scaffolding.blocks,
        &mut package_scaffolding.stmts,
        &mut package_scaffolding.exprs,
        None,
    );
    scaffolding.0.insert(package_id, package_scaffolding);
    match saved {
        Ok(_) => {
            proof {
                assert forall|j: int|
                    (match store.packages.spec_get(package_id.idx()) {
                        Some(package) => package.stmts.spec_get(j) is Some,
                        None => false,
                    }) implies spec_has_stmt(*scaffolding, package_id.idx(), j) by {
                    if spec_has_stmt(scan_snapshot, package_id.idx(), j) {
                        assert(taken_stmts.spec_get(j) is Some);
                    } else {
                        let u0 = choose|u: int|
                            0 <= u < unanalyzed_stmts@.len() && unanalyzed_stmts@[u].idx() == j;
                        assert(visited_builder.current.stmts.spec_get(j) is Some);
                    }
                }
            }
            Ok(())
        }
        Err(e) => Err(e),
    }
}

} // verus!
