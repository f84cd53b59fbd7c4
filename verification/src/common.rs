//! Shared pieces of the analysis: the internal error kind, flattened input
//! parameters, locals, specialization identifiers and static callee
//! resolution.

use crate::fir::{
    ExprId, ExprKind, Functor, FunctorApp, FunctorSetValue, LocalVarId, Package, PackageId,
    PackageStore, Pat, PatId, PatKind, Res, StoreItemId, UnOp,
};
use crate::index_map::IndexMap;
use vstd::prelude::*;

verus! {

/// A violation of the analysis' internal invariants. The analyzed program is
/// assumed well formed; when that assumption breaks, or the recursion budget
/// runs out, the whole run is reported as failed rather than patched over.
#[derive(Clone, Copy, Debug, PartialEq, Eq, Structural)]
pub enum AnalysisError {
    /// An identifier did not resolve, a shape did not match its type, or an
    /// expected entry was missing: the program is not well formed.
    MalformedProgram,
    /// An entity was about to be analyzed twice: the write-once store refused
    /// an overwrite.
    DuplicateEntry,
    /// The recursion budget of the run was exhausted.
    BudgetExceeded,
}

/// Identifies one specialization of a callable across packages.
#[derive(Clone, Copy, Debug, PartialEq, Eq, Structural)]
pub struct GlobalSpecId {
    pub callable: StoreItemId,
    pub functor_set_value: FunctorSetValue,
}

/// The position of an input parameter in the flattened parameter list of a
/// callable specialization.
#[derive(Clone, Copy, Debug, PartialEq, Eq, Structural)]
pub struct ParamIdx(pub usize);

/// One flattened input parameter of a callable: its position, the pattern it
/// was declared by (which also carries its type), and the bound variable,
/// absent for discarded parameters.
#[derive(Clone, Copy, Debug, PartialEq, Eq, Structural)]
pub struct InputParam {
    pub index: ParamIdx,
    pub pat: PatId,
    pub var: Option<LocalVarId>,
}

/// What kind of binding a local is.
#[derive(Clone, Copy, Debug, PartialEq, Eq, Structural)]
pub enum LocalKind {
    /// An input parameter of the active specialization.
    InputParam(ParamIdx),
    /// An immutable binding, remembering the expression it was bound to.
    Immutable(ExprId),
    /// A mutable binding.
    Mutable,
    /// The control qubits of a controlled specialization.
    SpecInput,
}

/// A named value binding inside a specialization body.
#[derive(Clone, Copy, Debug, PartialEq, Eq, Structural)]
pub struct Local {
    pub var: LocalVarId,
    pub pat: PatId,
    pub kind: LocalKind,
}

/// A statically resolved callee: the global item called and the functors
/// applied to it.
#[derive(Clone, Copy, Debug, PartialEq, Eq, Structural)]
pub struct Callee {
    pub item: StoreItemId,
    pub functor_app: FunctorApp,
}

/// The flattened leaves of the sub-pattern tree rooted at `pat_id`: one
/// `(pattern, bound variable)` pair per bound or discarded name, in
/// declaration order; absent when a pattern is missing or the budget runs
/// out.
pub open spec fn spec_flattened_leaves(
    pats: IndexMap<PatId, Pat>,
    pat_id: PatId,
    fuel: nat,
) -> Option<Seq<(PatId, Option<LocalVarId>)>>
    decreases fuel, 0int, 0int,
{
    if fuel == 0 {
        None
    } else {
        match pats.spec_get(crate::index_map::Idx::idx(pat_id)) {
            Some(pat) => match pat.kind {
                PatKind::Bind(ident) => Some(seq![(pat_id, Some(ident.id))]),
                PatKind::Discard => Some(seq![(pat_id, None::<LocalVarId>)]),
                PatKind::Tuple(items) => spec_flattened_leaf_list(
                    pats,
                    items@,
                    (fuel - 1) as nat,
                    items@.len() as int,
                ),
            },
            None => None,
        }
    }
}

/// The concatenated flattened leaves of the first `n` listed patterns.
pub open spec fn spec_flattened_leaf_list(
    pats: IndexMap<PatId, Pat>,
    items: Seq<PatId>,
    fuel: nat,
    n: int,
) -> Option<Seq<(PatId, Option<LocalVarId>)>>
    decreases fuel, n, 1int,
{
    if n <= 0 {
        Some(Seq::<(PatId, Option<LocalVarId>)>::empty())
    } else if n > items.len() {
        None
    } else {
        match spec_flattened_leaf_list(pats, items, fuel, n - 1) {
            Some(prefix) => match spec_flattened_leaves(pats, items[n - 1], fuel) {
                Some(leaves) => Some(prefix + leaves),
                None => None,
            },
            None => None,
        }
    }
}

/// Flattens the sub-pattern tree rooted at `pat_id` into `params`, one entry
/// per bound or discarded name, in declaration order. Every appended entry's
/// index equals its position in the list, and the appended entries are
/// exactly the flattened leaves of the pattern.
pub(crate) fn flatten_input_pattern(
    pat_id: PatId,
    pats: &IndexMap<PatId, Pat>,
    params: &mut Vec<InputParam>,
    fuel: u64,
) -> (r: Result<(), AnalysisError>)
    requires
        forall|j: int| 0 <= j < old(params)@.len() ==> (#[trigger] old(params)@[j]).index.0 == j,
    ensures
        forall|j: int| 0 <= j < final(params)@.len() ==> (#[trigger] final(params)@[j]).index.0 == j,
        final(params)@.len() >= old(params)@.len(),
        r is Ok ==> match spec_flattened_leaves(*pats, pat_id, fuel as nat) {
            Some(leaves) => {
                &&& final(params)@.len() == old(params)@.len() + leaves.len()
                &&& forall|k: int|
                    0 <= k < leaves.len() ==> (#[trigger] final(params)@[old(params)@.len()
                        + k]).pat == leaves[k].0 && final(params)@[old(params)@.len() + k].var
                        == leaves[k].1
                &&& forall|j: int|
                    0 <= j < old(params)@.len() ==> final(params)@[j] == old(params)@[j]
            },
            None => false,
        },
    decreases fuel,
{
    if fuel == 0 {
        return Err(AnalysisError::BudgetExceeded);
    }
    let pat = match pats.get(pat_id) {
        Some(pat) => pat,
        None => {
            return Err(AnalysisError::MalformedProgram);
        }
    };
    match &pat.kind {
        PatKind::Bind(ident) => {
            params.push(
                InputParam { index: ParamIdx(params.len()), pat: pat_id, var: Some(ident.id) },
            );
            Ok(())
        }
        PatKind::Discard => {
            params.push(InputParam { index: ParamIdx(params.len()), pat: pat_id, var: None });
            Ok(())
        }
        PatKind::Tuple(items) => {
            let mut i: usize = 0;
            while i < items.len()
                invariant
                    fuel >= 1,
                    i <= items@.len(),
                    forall|j: int|
                        0 <= j < params@.len() ==> (#[trigger] params@[j]).index.0 == j,
                    params@.len() >= old(params)@.len(),
                    match spec_flattened_leaf_list(*pats, items@, (fuel - 1) as nat, i as int) {
                        Some(leaves) => {
                            &&& params@.len() == old(params)@.len() + leaves.len()
                            &&& forall|k: int|
                                0 <= k < leaves.len() ==> (#[trigger] params@[old(params)@.len()
                                    + k]).pat == leaves[k].0 && params@[old(params)@.len()
                                    + k].var == leaves[k].1
                            &&& forall|j: int|
                                0 <= j < old(params)@.len() ==> params@[j] == old(params)@[j]
                        },
                        None => false,
                    },
                decreases items@.len() - i,
            {
                let ghost pre_params = params@;
                match flatten_input_pattern(items[i], pats, params, fuel - 1) {
                    Ok(()) => (),
                    Err(e) => {
                        return Err(e);
                    }
                }
                proof {
                    let fl = (fuel - 1) as nat;
                    let prefix = spec_flattened_leaf_list(*pats, items@, fl, i as int)->Some_0;
                    let sub = spec_flattened_leaves(*pats, items@[i as int], fl)->Some_0;
                    assert(spec_flattened_leaf_list(*pats, items@, fl, i as int + 1) == Some(
                        prefix + sub,
                    ));
                    assert(pre_params.len() == old(params)@.len() + prefix.len());
                    assert forall|k: int| 0 <= k < (prefix + sub).len() implies (
                    #[trigger] params@[old(params)@.len() + k]).pat == (prefix + sub)[k].0
                        && params@[old(params)@.len() + k].var == (prefix + sub)[k].1 by {
                        if k < prefix.len() {
                            assert(params@[old(params)@.len() + k] == pre_params[old(
                                params,
                            )@.len() + k]);
                            assert((prefix + sub)[k] == prefix[k]);
                            assert(pre_params[old(params)@.len() + k].pat == prefix[k].0);
                        } else {
                            assert((prefix + sub)[k] == sub[k - prefix.len()]);
                            assert(params@[pre_params.len() + (k - prefix.len())].pat == sub[k
                                - prefix.len()].0);
                        }
                    }
                }
                i += 1;
            }
            Ok(())
        }
    }
}

/// Flattens the input pattern of a callable into its ordered parameter list.
pub(crate) fn derive_callable_input_params(
    input: PatId,
    pats: &IndexMap<PatId, Pat>,
    fuel: u64,
) -> (r: Result<Vec<InputParam>, AnalysisError>)
    ensures
        match r {
            Ok(params) => {
                &&& forall|j: int|
                    0 <= j < params@.len() ==> (#[trigger] params@[j]).index.0 == j
                &&& match spec_flattened_leaves(*pats, input, fuel as nat) {
                    Some(leaves) => params@.len() == leaves.len() && forall|k: int|
                        0 <= k < leaves.len() ==> (#[trigger] params@[k]).pat == leaves[k].0
                            && params@[k].var == leaves[k].1,
                    None => false,
                }
            },
            Err(_) => true,
        },
{
    let mut params: Vec<InputParam> = Vec::new();
    match flatten_input_pattern(input, pats, &mut params, fuel) {
        Ok(()) => {
            proof {
                if spec_flattened_leaves(*pats, input, fuel as nat) is Some {
                    let leaves = spec_flattened_leaves(*pats, input, fuel as nat)->Some_0;
                    assert forall|k: int| 0 <= k < leaves.len() implies (
                    #[trigger] params@[k]).pat == leaves[k].0 && params@[k].var
                        == leaves[k].1 by {
                        assert(params@[0 + k].pat == leaves[k].0);
                        assert(params@[0 + k].var == leaves[k].1);
                    }
                }
            }
            Ok(params)
        }
        Err(e) => Err(e),
    }
}

/// The input parameters of one specialization: for a specialization with its
/// own input (the controls of a controlled specialization) a leading controls
/// parameter is prepended to the callable's parameters, and indices are
/// shifted accordingly.
pub(crate) fn derive_specialization_input_params(
    spec_input: Option<PatId>,
    callable_params: &Vec<InputParam>,
    pats: &IndexMap<PatId, Pat>,
) -> (r: Result<Vec<InputParam>, AnalysisError>)
    requires
        forall|j: int|
            0 <= j < callable_params@.len() ==> (#[trigger] callable_params@[j]).index.0 == j,
    ensures
        match r {
            Ok(params) => {
                &&& forall|j: int|
                    0 <= j < params@.len() ==> (#[trigger] params@[j]).index.0 == j
                &&& params@.len() == callable_params@.len() + if spec_input is Some {
                    1int
                } else {
                    0int
                }
            },
            Err(_) => true,
        },
{
    let mut params: Vec<InputParam> = Vec::new();
    let offset: usize;
    match spec_input {
        Some(controls_pat) => {
            let controls_var = match pats.get(controls_pat) {
                Some(pat) => match &pat.kind {
                    PatKind::Bind(ident) => Some(ident.id),
                    PatKind::Discard => None,
                    PatKind::Tuple(_) => {
                        return Err(AnalysisError::MalformedProgram);
                    }
                },
                None => {
                    return Err(AnalysisError::MalformedProgram);
                }
            };
            params.push(InputParam { index: ParamIdx(0), pat: controls_pat, var: controls_var });
            offset = 1;
        }
        None => {
            offset = 0;
        }
    }
    let mut i: usize = 0;
    while i < callable_params.len()
        invariant
            offset == if spec_input is Some { 1int } else { 0int },
            i <= callable_params@.len(),
            params@.len() == i + offset,
            forall|j: int| 0 <= j < params@.len() ==> (#[trigger] params@[j]).index.0 == j,
            forall|j: int|
                0 <= j < callable_params@.len() ==> (#[trigger] callable_params@[j]).index.0 == j,
        decreases callable_params@.len() - i,
    {
        let p = callable_params[i];
        let index = params.len();
        params.push(InputParam { index: ParamIdx(index), pat: p.pat, var: p.var });
        i += 1;
    }
    Ok(params)
}

/// Saturating addition on the recursion budget scale.
fn budget_add(a: u64, b: u64) -> (r: u64)
    ensures
        r >= a || r == u64::MAX,
{
    if a > u64::MAX - b {
        u64::MAX
    } else {
        a + b
    }
}

/// The recursion budget granted for walking one package: comfortably larger
/// than any well-formed walk needs, yet finite, so that every traversal
/// provably terminates and a malformed, cyclic table is reported as a failed
/// run instead of recursing without end.
pub(crate) fn package_fuel(package: &Package) -> u64 {
    let mut n: u64 = 1024;
    n = budget_add(n, package.items.slot_count() as u64);
    n = budget_add(n, package.blocks.slot_count() as u64);
    n = budget_add(n, package.stmts.slot_count() as u64);
    n = budget_add(n, package.exprs.slot_count() as u64);
    n = budget_add(n, package.pats.slot_count() as u64);
    if n > 2147483648u64 {
        u64::MAX
    } else {
        proof {
            assert(n * n <= u64::MAX) by (nonlinear_arith)
                requires
                    n <= 2147483648u64,
            ;
        }
        n * n
    }
}

/// The recursion budget granted for analyzing a whole package store.
pub(crate) fn store_fuel(store: &PackageStore) -> u64 {
    let mut n: u64 = 1024;
    let count = store.packages.slot_count();
    let mut i: usize = 0;
    while i < count
        decreases count - i,
    {
        if let Some(package) = store.packages.get(PackageId(i)) {
            n = budget_add(n, package.items.slot_count() as u64);
            n = budget_add(n, package.blocks.slot_count() as u64);
            n = budget_add(n, package.stmts.slot_count() as u64);
            n = budget_add(n, package.exprs.slot_count() as u64);
            n = budget_add(n, package.pats.slot_count() as u64);
        }
        i += 1;
    }
    if n > 2147483648u64 {
        u64::MAX
    } else {
        proof {
            assert(n * n <= u64::MAX) by (nonlinear_arith)
                requires
                    n <= 2147483648u64,
            ;
        }
        n * n
    }
}

/// What static callee resolution returns: a direct reference to a global
/// item resolves to that item with no functors; a functor application
/// adjusts the resolved callee's functor set; a read of an immutable local
/// resolves through the bound expression; everything else (closures, mutable
/// locals, arbitrary expressions) resolves to nothing.
pub open spec fn spec_resolved_callee(
    package_id: PackageId,
    package: Package,
    locals: IndexMap<LocalVarId, Local>,
    expr_id: ExprId,
    fuel: nat,
) -> Result<Option<Callee>, AnalysisError>
    decreases fuel,
{
    if fuel == 0 {
        Err(AnalysisError::BudgetExceeded)
    } else {
        match package.exprs.spec_get(crate::index_map::Idx::idx(expr_id)) {
            None => Err(AnalysisError::MalformedProgram),
            Some(expr) => match expr.kind {
                ExprKind::UnOp(op, operand) => match op {
                    UnOp::Functor(functor) => match spec_resolved_callee(
                        package_id,
                        package,
                        locals,
                        operand,
                        (fuel - 1) as nat,
                    ) {
                        Ok(Some(callee)) => match functor {
                            Functor::Adj => Ok(
                                Some(
                                    Callee {
                                        item: callee.item,
                                        functor_app: FunctorApp {
                                            adjoint: !callee.functor_app.adjoint,
                                            controlled: callee.functor_app.controlled,
                                        },
                                    },
                                ),
                            ),
                            Functor::Ctl => {
                                if callee.functor_app.controlled == usize::MAX {
                                    Err(AnalysisError::MalformedProgram)
                                } else {
                                    Ok(
                                        Some(
                                            Callee {
                                                item: callee.item,
                                                functor_app: FunctorApp {
                                                    adjoint: callee.functor_app.adjoint,
                                                    controlled: (callee.functor_app.controlled
                                                        + 1) as usize,
                                                },
                                            },
                                        ),
                                    )
                                }
                            },
                        },
                        other => other,
                    },
                    _ => Ok(None),
                },
                ExprKind::Var(res) => match res {
                    Res::Item(item_id) => Ok(
                        Some(
                            Callee {
                                item: StoreItemId {
                                    package: match item_id.package {
                                        Some(referenced) => referenced,
                                        None => package_id,
                                    },
                                    item: item_id.item,
                                },
                                functor_app: FunctorApp { adjoint: false, controlled: 0 },
                            },
                        ),
                    ),
                    Res::Local(var_id) => match locals.spec_get(
                        crate::index_map::Idx::idx(var_id),
                    ) {
                        Some(local) => match local.kind {
                            LocalKind::Immutable(bound_expr) => spec_resolved_callee(
                                package_id,
                                package,
                                locals,
                                bound_expr,
                                (fuel - 1) as nat,
                            ),
                            _ => Ok(None),
                        },
                        None => Ok(None),
                    },
                },
                _ => Ok(None),
            },
        }
    }
}

/// Resolves the callee of a call expression statically: a direct reference to
/// a global item, possibly under functor applications, possibly through a
/// chain of immutable local bindings. Dynamic or unsupported callees (such as
/// closures) resolve to `None`.
pub(crate) fn try_resolve_callee(
    expr_id: ExprId,
    package_id: PackageId,
    package: &Package,
    locals: &IndexMap<LocalVarId, Local>,
    fuel: u64,
) -> (r: Result<Option<Callee>, AnalysisError>)
    ensures
        r == spec_resolved_callee(package_id, *package, *locals, expr_id, fuel as nat),
    decreases fuel,
{
    if fuel == 0 {
        return Err(AnalysisError::BudgetExceeded);
    }
    let expr = match package.get_expr(expr_id) {
        Some(expr) => expr,
        None => {
            return Err(AnalysisError::MalformedProgram);
        }
    };
    match &expr.kind {
        ExprKind::UnOp(op, operand) => match op {
            UnOp::Functor(functor) => {
                let inner = try_resolve_callee(*operand, package_id, package, locals, fuel - 1)?;
                match inner {
                    Some(callee) => {
                        let functor_app = match functor {
                            Functor::Adj => FunctorApp {
                                adjoint: !callee.functor_app.adjoint,
                                controlled: callee.functor_app.controlled,
                            },
                            Functor::Ctl => {
                                let controlled = match callee.functor_app.controlled.checked_add(
                                    1,
                                ) {
                                    Some(c) => c,
                                    None => {
                                        return Err(AnalysisError::MalformedProgram);
                                    }
                                };
                                FunctorApp { adjoint: callee.functor_app.adjoint, controlled }
                            }
                        };
                        Ok(Some(Callee { item: callee.item, functor_app }))
                    }
                    None => Ok(None),
                }
            }
            _ => Ok(None),
        },
        ExprKind::Var(res) => match res {
            Res::Item(item_id) => {
                let package = match item_id.package {
                    Some(p) => p,
                    None => package_id,
                };
                Ok(
                    Some(
                        Callee {
                            item: StoreItemId { package, item: item_id.item },
                            functor_app: FunctorApp::empty(),
                        },
                    ),
                )
            }
            Res::Local(var_id) => match locals.get(*var_id) {
                Some(local) => match local.kind {
                    LocalKind::Immutable(bound_expr) => try_resolve_callee(
                        bound_expr,
                        package_id,
                        package,
                        locals,
                        fuel - 1,
                    ),
                    _ => Ok(None),
                },
                None => Ok(None),
            },
        },
        _ => Ok(None),
    }
}

} // verus!
