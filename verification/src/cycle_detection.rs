//! Call-cycle detection: a depth-first walk over a package's call graph that
//! reports every specialization taking part in a call cycle, following calls
//! through functor applications and through immutable local bindings of
//! callable values. Closures and partial applications are not followed; that
//! limitation is shared with call resolution in the main analysis.
//!
//! The walk keeps an explicit stack of the specializations being visited:
//! reaching a specialization that is already on the stack marks it as cycled
//! and stops descending, so the main analyzer can pre-seed every cycled
//! specialization before it runs and never recurses without end.

use crate::common::{
    derive_callable_input_params, try_resolve_callee, AnalysisError, GlobalSpecId, Local,
    LocalKind,
};
use crate::fir::{
    BlockId, CallableImpl, ExprId, ExprKind, FunctorSetValue, ItemKind, LocalItemId, LocalVarId,
    Mutability, Package, PackageId, PatId, PatKind, SpecDecl, Specializations, StmtId, StmtKind,
    StringComponent,
};
use crate::index_map::IndexMap;
use vstd::prelude::*;

verus! {

/// Identifies one specialization within the package being walked.
#[derive(Clone, Copy, Debug, PartialEq, Eq, Structural)]
pub(crate) struct LocalSpecId {
    pub callable: LocalItemId,
    pub functor_set_value: FunctorSetValue,
}

/// Whether a package declares the given specialization: its item is a
/// callable with specialized implementations, and the selected functor's
/// body exists. Intrinsic callables declare no walkable specialization.
pub open spec fn spec_is_declared_spec(
    package: Package,
    callable: LocalItemId,
    functor_set_value: FunctorSetValue,
) -> bool {
    match package.items.spec_get(crate::index_map::Idx::idx(callable)) {
        Some(item) => match item.kind {
            ItemKind::Callable(decl) => match decl.implementation {
                CallableImpl::Spec(specializations) => match functor_set_value {
                    FunctorSetValue::Empty => true,
                    FunctorSetValue::Adj => specializations.adj is Some,
                    FunctorSetValue::Ctl => specializations.ctl is Some,
                    FunctorSetValue::CtlAdj => specializations.ctl_adj is Some,
                },
                CallableImpl::Intrinsic => false,
            },
            _ => false,
        },
        None => false,
    }
}

/// Whether every listed specialization is declared by the package.
pub(crate) open spec fn spec_all_declared(package: Package, ids: Seq<LocalSpecId>) -> bool {
    forall|k: int|
        0 <= k < ids.len() ==> spec_is_declared_spec(
            package,
            (#[trigger] ids[k]).callable,
            ids[k].functor_set_value,
        )
}

/// Whether a specialization is on the active call stack.
fn stack_contains(stack: &Vec<LocalSpecId>, id: LocalSpecId) -> (r: bool)
    ensures
        r == stack@.contains(id),
{
    let mut i: usize = 0;
    while i < stack.len()
        invariant
            i <= stack@.len(),
            forall|j: int| 0 <= j < i ==> stack@[j] != id,
        decreases stack@.len() - i,
    {
        if stack[i] == id {
            return true;
        }
        i += 1;
    }
    false
}

/// Appends a cycled specialization unless it is already recorded.
fn record_cycle(cycles: &mut Vec<LocalSpecId>, id: LocalSpecId, package: &Package)
    requires
        spec_all_declared(*package, old(cycles)@),
        spec_is_declared_spec(*package, id.callable, id.functor_set_value),
    ensures
        final(cycles)@.contains(id),
        forall|other: LocalSpecId|
            #[trigger] final(cycles)@.contains(other) <==> (old(cycles)@.contains(other) || other
                == id),
        spec_all_declared(*package, final(cycles)@),
{
    let mut i: usize = 0;
    while i < cycles.len()
        invariant
            cycles@ == old(cycles)@,
            spec_all_declared(*package, cycles@),
            i <= cycles@.len(),
            forall|j: int| 0 <= j < i ==> cycles@[j] != id,
        decreases cycles@.len() - i,
    {
        if cycles[i] == id {
            return ;
        }
        i += 1;
    }
    cycles.push(id);
    proof {
        assert forall|other: LocalSpecId|
            #[trigger] cycles@.contains(other) <==> (old(cycles)@.contains(other) || other
                == id) by {
            if cycles@.contains(other) {
                let j = choose|j: int| 0 <= j < cycles@.len() && cycles@[j] == other;
                if j < cycles@.len() - 1 {
                    assert(old(cycles)@[j] == other);
                }
            }
            if old(cycles)@.contains(other) {
                let j = choose|j: int| 0 <= j < old(cycles)@.len() && old(cycles)@[j] == other;
                assert(cycles@[j] == other);
            }
            if other == id {
                assert(cycles@[cycles@.len() - 1] == other);
            }
        }
    }
}

/// Records every specialization of a newly discovered cycle: the segment of
/// the call stack from the first occurrence of the revisited specialization
/// to the top, which is exactly the cycle the current call closes.
fn record_cycle_members(
    cycles: &mut Vec<LocalSpecId>,
    stack: &Vec<LocalSpecId>,
    id: LocalSpecId,
    package: &Package,
)
    requires
        spec_all_declared(*package, stack@),
        spec_all_declared(*package, old(cycles)@),
        stack@.contains(id),
    ensures
        spec_all_declared(*package, final(cycles)@),
        final(cycles)@.contains(id),
{
    let mut found = false;
    let mut k: usize = 0;
    while k < stack.len()
        invariant
            k <= stack@.len(),
            spec_all_declared(*package, stack@),
            spec_all_declared(*package, cycles@),
            stack@.contains(id),
            found ==> cycles@.contains(id),
            !found ==> forall|j: int| 0 <= j < k ==> stack@[j] != id,
        decreases stack@.len() - k,
    {
        let entry = stack[k];
        if entry == id {
            found = true;
        }
        if found {
            let ghost had_id = cycles@.contains(id);
            record_cycle(cycles, entry, package);
            proof {
                if had_id {
                    assert(cycles@.contains(id));
                }
            }
        }
        k += 1;
    }
    proof {
        if !found {
            let j = choose|j: int| 0 <= j < stack@.len() && stack@[j] == id;
            assert(stack@[j] != id);
        }
    }
}

/// Binds a pattern to an expression in the locals of the active
/// specialization, so that later calls through the bound name can be
/// resolved.
fn map_pat_to_expr(
    mutability: Mutability,
    pat_id: PatId,
    expr_id: ExprId,
    package: &Package,
    locals: &mut IndexMap<LocalVarId, Local>,
    fuel: u64,
) -> (r: Result<(), AnalysisError>)
    decreases fuel,
{
    if fuel == 0 {
        return Err(AnalysisError::BudgetExceeded);
    }
    let pat = match package.get_pat(pat_id) {
        Some(pat) => pat,
        None => {
            return Err(AnalysisError::MalformedProgram);
        }
    };
    match &pat.kind {
        PatKind::Bind(ident) => {
            let kind = match mutability {
                Mutability::Immutable => LocalKind::Immutable(expr_id),
                Mutability::Mutable => LocalKind::Mutable,
            };
            locals.insert(ident.id, Local { var: ident.id, pat: pat_id, kind });
            Ok(())
        }
        PatKind::Tuple(pat_items) => {
            let expr = match package.get_expr(expr_id) {
                Some(expr) => expr,
                None => {
                    return Err(AnalysisError::MalformedProgram);
                }
            };
            match &expr.kind {
                ExprKind::Tuple(expr_items) => {
                    if pat_items.len() != expr_items.len() {
                        return Err(AnalysisError::MalformedProgram);
                    }
                    let mut i: usize = 0;
                    while i < pat_items.len()
                        invariant
                            fuel >= 1,
                            i <= pat_items@.len(),
                            pat_items@.len() == expr_items@.len(),
                        decreases pat_items@.len() - i,
                    {
                        match map_pat_to_expr(
                            mutability,
                            pat_items[i],
                            expr_items[i],
                            package,
                            locals,
                            fuel - 1,
                        ) {
                            Ok(()) => (),
                            Err(e) => {
                                return Err(e);
                            }
                        }
                        i += 1;
                    }
                    Ok(())
                }
                _ => Ok(()),
            }
        }
        PatKind::Discard => Ok(()),
    }
}

/// The declaration of the selected specialization of a callable.
pub(crate) fn get_spec_decl(
    specializations: &Specializations,
    functor_set_value: FunctorSetValue,
) -> (r: Result<SpecDecl, AnalysisError>)
    ensures
        match r {
            Ok(decl) => match functor_set_value {
                FunctorSetValue::Empty => decl == specializations.body,
                FunctorSetValue::Adj => specializations.adj == Some(decl),
                FunctorSetValue::Ctl => specializations.ctl == Some(decl),
                FunctorSetValue::CtlAdj => specializations.ctl_adj == Some(decl),
            },
            Err(_) => true,
        },
{
    match functor_set_value {
        FunctorSetValue::Empty => Ok(specializations.body),
        FunctorSetValue::Adj => match specializations.adj {
            Some(decl) => Ok(decl),
            None => Err(AnalysisError::MalformedProgram),
        },
        FunctorSetValue::Ctl => match specializations.ctl {
            Some(decl) => Ok(decl),
            None => Err(AnalysisError::MalformedProgram),
        },
        FunctorSetValue::CtlAdj => match specializations.ctl_adj {
            Some(decl) => Ok(decl),
            None => Err(AnalysisError::MalformedProgram),
        },
    }
}

/// Walks one specialization: a specialization already on the stack closes a
/// cycle, whose members are recorded without descending further; one that was
/// already fully walked is skipped, since every cycle reachable from it was
/// recorded when it was walked; otherwise it is pushed, its block is visited
/// with fresh locals, it is popped again and marked fully walked.
fn walk_spec_decl(
    package_id: PackageId,
    package: &Package,
    id: LocalSpecId,
    spec_decl: SpecDecl,
    stack: &mut Vec<LocalSpecId>,
    cycles: &mut Vec<LocalSpecId>,
    visited: &mut Vec<LocalSpecId>,
    fuel: u64,
) -> (r: Result<(), AnalysisError>)
    requires
        spec_is_declared_spec(*package, id.callable, id.functor_set_value),
        spec_all_declared(*package, old(stack)@),
        spec_all_declared(*package, old(cycles)@),
        spec_all_declared(*package, old(visited)@),
    ensures
        final(stack)@ == old(stack)@,
        spec_all_declared(*package, final(cycles)@),
        spec_all_declared(*package, final(visited)@),
        r is Ok && old(stack)@.contains(id) ==> final(cycles)@.contains(id),
    decreases fuel,
{
    if fuel == 0 {
        return Err(AnalysisError::BudgetExceeded);
    }
    if stack_contains(stack, id) {
        record_cycle_members(cycles, stack, id, package);
        return Ok(());
    }
    // A specialization that was already fully walked is skipped: every cycle
    // reachable from it was recorded during that walk.
    if stack_contains(visited, id) {
        return Ok(());
    }

    // Initialize the locals of this walk from the callable's input
    // parameters; their compute kinds are irrelevant here, only the bindings
    // matter for callee resolution.
    let item = match package.get_item(id.callable) {
        Some(item) => item,
        None => {
            return Err(AnalysisError::MalformedProgram);
        }
    };
    let callable_decl = match &item.kind {
        ItemKind::Callable(decl) => decl,
        _ => {
            return Err(AnalysisError::MalformedProgram);
        }
    };
    let input_params = match derive_callable_input_params(
        callable_decl.input,
        &package.pats,
        fuel,
    ) {
        Ok(params) => params,
        Err(e) => {
            return Err(e);
        }
    };
    let mut locals: IndexMap<LocalVarId, Local> = IndexMap::new();
    let mut i: usize = 0;
    while i < input_params.len()
        invariant
            i <= input_params@.len(),
        decreases input_params@.len() - i,
    {
        let param = input_params[i];
        if let Some(var) = param.var {
            locals.insert(var, Local { var, pat: param.pat, kind: LocalKind::InputParam(param.index) });
        }
        i += 1;
    }

    stack.push(id);
    let walk = visit_block(
        package_id,
        package,
        spec_decl.block,
        stack,
        cycles,
        visited,
        &mut locals,
        fuel - 1,
    );
    let _popped = stack.pop();
    match walk {
        Ok(()) => {
            visited.push(id);
            Ok(())
        }
        Err(e) => Err(e),
    }
}

fn visit_block(
    package_id: PackageId,
    package: &Package,
    block_id: BlockId,
    stack: &mut Vec<LocalSpecId>,
    cycles: &mut Vec<LocalSpecId>,
    visited: &mut Vec<LocalSpecId>,
    locals: &mut IndexMap<LocalVarId, Local>,
    fuel: u64,
) -> (r: Result<(), AnalysisError>)
    requires
        spec_all_declared(*package, old(stack)@),
        spec_all_declared(*package, old(cycles)@),
        spec_all_declared(*package, old(visited)@),
    ensures
        final(stack)@ == old(stack)@,
        spec_all_declared(*package, final(cycles)@),
        spec_all_declared(*package, final(visited)@),
    decreases fuel,
{
    if fuel == 0 {
        return Err(AnalysisError::BudgetExceeded);
    }
    let block = match package.get_block(block_id) {
        Some(block) => block,
        None => {
            return Err(AnalysisError::MalformedProgram);
        }
    };
    let mut i: usize = 0;
    while i < block.stmts.len()
        invariant
            stack@ == old(stack)@,
            spec_all_declared(*package, stack@),
            spec_all_declared(*package, cycles@),
            spec_all_declared(*package, visited@),
            fuel >= 1,
            i <= block.stmts@.len(),
        decreases block.stmts@.len() - i,
    {
        match visit_stmt(package_id, package, block.stmts[i], stack, cycles, visited, locals, fuel - 1) {
            Ok(()) => (),
            Err(e) => {
                return Err(e);
            }
        }
        i += 1;
    }
    Ok(())
}

fn visit_stmt(
    package_id: PackageId,
    package: &Package,
    stmt_id: StmtId,
    stack: &mut Vec<LocalSpecId>,
    cycles: &mut Vec<LocalSpecId>,
    visited: &mut Vec<LocalSpecId>,
    locals: &mut IndexMap<LocalVarId, Local>,
    fuel: u64,
) -> (r: Result<(), AnalysisError>)
    requires
        spec_all_declared(*package, old(stack)@),
        spec_all_declared(*package, old(cycles)@),
        spec_all_declared(*package, old(visited)@),
    ensures
        final(stack)@ == old(stack)@,
        spec_all_declared(*package, final(cycles)@),
        spec_all_declared(*package, final(visited)@),
    decreases fuel,
{
    if fuel == 0 {
        return Err(AnalysisError::BudgetExceeded);
    }
    let stmt = match package.get_stmt(stmt_id) {
        Some(stmt) => stmt,
        None => {
            return Err(AnalysisError::MalformedProgram);
        }
    };
    match stmt.kind {
        StmtKind::Item(_) => Ok(()),
        StmtKind::Expr(expr_id) | StmtKind::Semi(expr_id) => visit_expr(
            package_id,
            package,
            expr_id,
            stack,
            cycles,
            visited,
            locals,
            fuel - 1,
        ),
        StmtKind::Local(mutability, pat_id, expr_id) => {
            match map_pat_to_expr(mutability, pat_id, expr_id, package, locals, fuel - 1) {
                Ok(()) => (),
                Err(e) => {
                    return Err(e);
                }
            }
            visit_expr(package_id, package, expr_id, stack, cycles, visited, locals, fuel - 1)
        }
    }
}

/// Visits the sub-expressions of an optional expression.
fn visit_opt_expr(
    package_id: PackageId,
    package: &Package,
    expr_id: Option<ExprId>,
    stack: &mut Vec<LocalSpecId>,
    cycles: &mut Vec<LocalSpecId>,
    visited: &mut Vec<LocalSpecId>,
    locals: &mut IndexMap<LocalVarId, Local>,
    fuel: u64,
) -> (r: Result<(), AnalysisError>)
    requires
        spec_all_declared(*package, old(stack)@),
        spec_all_declared(*package, old(cycles)@),
        spec_all_declared(*package, old(visited)@),
    ensures
        final(stack)@ == old(stack)@,
        spec_all_declared(*package, final(cycles)@),
        spec_all_declared(*package, final(visited)@),
    decreases fuel,
{
    if fuel == 0 {
        return Err(AnalysisError::BudgetExceeded);
    }
    match expr_id {
        Some(expr_id) => visit_expr(package_id, package, expr_id, stack, cycles, visited, locals, fuel - 1),
        None => Ok(()),
    }
}

fn visit_expr(
    package_id: PackageId,
    package: &Package,
    expr_id: ExprId,
    stack: &mut Vec<LocalSpecId>,
    cycles: &mut Vec<LocalSpecId>,
    visited: &mut Vec<LocalSpecId>,
    locals: &mut IndexMap<LocalVarId, Local>,
    fuel: u64,
) -> (r: Result<(), AnalysisError>)
    requires
        spec_all_declared(*package, old(stack)@),
        spec_all_declared(*package, old(cycles)@),
        spec_all_declared(*package, old(visited)@),
    ensures
        final(stack)@ == old(stack)@,
        spec_all_declared(*package, final(cycles)@),
        spec_all_declared(*package, final(visited)@),
    decreases fuel,
{
    if fuel == 0 {
        return Err(AnalysisError::BudgetExceeded);
    }
    let expr = match package.get_expr(expr_id) {
        Some(expr) => expr,
        None => {
            return Err(AnalysisError::MalformedProgram);
        }
    };
    match &expr.kind {
        ExprKind::Array(items) => {
            let mut i: usize = 0;
            while i < items.len()
                invariant
                    stack@ == old(stack)@,
                    spec_all_declared(*package, stack@),
                    spec_all_declared(*package, cycles@),
                    spec_all_declared(*package, visited@),
            spec_all_declared(*package, visited@),
                    fuel >= 1,
                    i <= items@.len(),
                decreases items@.len() - i,
            {
                match visit_expr(package_id, package, items[i], stack, cycles, visited, locals, fuel - 1) {
                    Ok(()) => (),
                    Err(e) => {
                        return Err(e);
                    }
                }
                i += 1;
            }
            Ok(())
        }
        ExprKind::ArrayRepeat(value, size) => {
            visit_expr(package_id, package, *value, stack, cycles, visited, locals, fuel - 1)?;
            visit_expr(package_id, package, *size, stack, cycles, visited, locals, fuel - 1)
        }
        ExprKind::Assign(lhs, rhs) | ExprKind::AssignOp(lhs, rhs) | ExprKind::BinOp(lhs, rhs)
        | ExprKind::AssignField(lhs, rhs) | ExprKind::UpdateField(lhs, rhs) => {
            visit_expr(package_id, package, *lhs, stack, cycles, visited, locals, fuel - 1)?;
            visit_expr(package_id, package, *rhs, stack, cycles, visited, locals, fuel - 1)
        }
        ExprKind::AssignIndex(e1, e2, e3) | ExprKind::UpdateIndex(e1, e2, e3) => {
            visit_expr(package_id, package, *e1, stack, cycles, visited, locals, fuel - 1)?;
            visit_expr(package_id, package, *e2, stack, cycles, visited, locals, fuel - 1)?;
            visit_expr(package_id, package, *e3, stack, cycles, visited, locals, fuel - 1)
        }
        ExprKind::Block(block_id) => visit_block(
            package_id,
            package,
            *block_id,
            stack,
            cycles,
            visited,
            locals,
            fuel - 1,
        ),
        ExprKind::Call(callee, args) => walk_call_expr(
            package_id,
            package,
            *callee,
            *args,
            stack,
            cycles,
            visited,
            locals,
            fuel - 1,
        ),
        ExprKind::Fail(msg) => visit_expr(package_id, package, *msg, stack, cycles, visited, locals, fuel - 1),
        ExprKind::Field(record) => visit_expr(
            package_id,
            package,
            *record,
            stack,
            cycles,
            visited,
            locals,
            fuel - 1,
        ),
        ExprKind::If(cond, body, otherwise) => {
            visit_expr(package_id, package, *cond, stack, cycles, visited, locals, fuel - 1)?;
            visit_expr(package_id, package, *body, stack, cycles, visited, locals, fuel - 1)?;
            visit_opt_expr(package_id, package, *otherwise, stack, cycles, visited, locals, fuel - 1)
        }
        ExprKind::Index(array, index) => {
            visit_expr(package_id, package, *array, stack, cycles, visited, locals, fuel - 1)?;
            visit_expr(package_id, package, *index, stack, cycles, visited, locals, fuel - 1)
        }
        ExprKind::Range(start, step, end) => {
            visit_opt_expr(package_id, package, *start, stack, cycles, visited, locals, fuel - 1)?;
            visit_opt_expr(package_id, package, *step, stack, cycles, visited, locals, fuel - 1)?;
            visit_opt_expr(package_id, package, *end, stack, cycles, visited, locals, fuel - 1)
        }
        ExprKind::Return(value) | ExprKind::UnOp(_, value) => visit_expr(
            package_id,
            package,
            *value,
            stack,
            cycles,
            visited,
            locals,
            fuel - 1,
        ),
        ExprKind::String(components) => {
            let mut i: usize = 0;
            while i < components.len()
                invariant
                    stack@ == old(stack)@,
                    spec_all_declared(*package, stack@),
                    spec_all_declared(*package, cycles@),
                    spec_all_declared(*package, visited@),
            spec_all_declared(*package, visited@),
                    fuel >= 1,
                    i <= components@.len(),
                decreases components@.len() - i,
            {
                match components[i] {
                    StringComponent::Expr(component_expr) => {
                        match visit_expr(
                            package_id,
                            package,
                            component_expr,
                            stack,
                            cycles,
                            visited,
                            locals,
                            fuel - 1,
                        ) {
                            Ok(()) => (),
                            Err(e) => {
                                return Err(e);
                            }
                        }
                    }
                    StringComponent::Lit => (),
                }
                i += 1;
            }
            Ok(())
        }
        ExprKind::Tuple(items) => {
            let mut i: usize = 0;
            while i < items.len()
                invariant
                    stack@ == old(stack)@,
                    spec_all_declared(*package, stack@),
                    spec_all_declared(*package, cycles@),
                    spec_all_declared(*package, visited@),
            spec_all_declared(*package, visited@),
                    fuel >= 1,
                    i <= items@.len(),
                decreases items@.len() - i,
            {
                match visit_expr(package_id, package, items[i], stack, cycles, visited, locals, fuel - 1) {
                    Ok(()) => (),
                    Err(e) => {
                        return Err(e);
                    }
                }
                i += 1;
            }
            Ok(())
        }
        ExprKind::While(cond, block_id) => {
            visit_expr(package_id, package, *cond, stack, cycles, visited, locals, fuel - 1)?;
            visit_block(package_id, package, *block_id, stack, cycles, visited, locals, fuel - 1)
        }
        ExprKind::Closure | ExprKind::Hole | ExprKind::Lit | ExprKind::Var(_) => Ok(()),
    }
}

/// Visits the arguments of a call, then follows the callee when it resolves
/// to a callable of this package.
fn walk_call_expr(
    package_id: PackageId,
    package: &Package,
    callee: ExprId,
    args: ExprId,
    stack: &mut Vec<LocalSpecId>,
    cycles: &mut Vec<LocalSpecId>,
    visited: &mut Vec<LocalSpecId>,
    locals: &mut IndexMap<LocalVarId, Local>,
    fuel: u64,
) -> (r: Result<(), AnalysisError>)
    requires
        spec_all_declared(*package, old(stack)@),
        spec_all_declared(*package, old(cycles)@),
        spec_all_declared(*package, old(visited)@),
    ensures
        final(stack)@ == old(stack)@,
        spec_all_declared(*package, final(cycles)@),
        spec_all_declared(*package, final(visited)@),
    decreases fuel,
{
    if fuel == 0 {
        return Err(AnalysisError::BudgetExceeded);
    }
    visit_expr(package_id, package, args, stack, cycles, visited, locals, fuel - 1)?;
    let resolved = try_resolve_callee(callee, package_id, package, locals, fuel)?;
    let callee = match resolved {
        Some(callee) => callee,
        None => {
            return Ok(());
        }
    };
    // Callables of other packages were already fully analyzed and cannot be
    // part of a cycle within this package.
    if callee.item.package != package_id {
        return Ok(());
    }
    let item = match package.get_item(callee.item.item) {
        Some(item) => item,
        None => {
            return Err(AnalysisError::MalformedProgram);
        }
    };
    match &item.kind {
        ItemKind::Callable(callable_decl) => match &callable_decl.implementation {
            CallableImpl::Intrinsic => Ok(()),
            CallableImpl::Spec(specializations) => {
                let functor_set_value = callee.functor_app.functor_set_value();
                let spec_decl = match get_spec_decl(specializations, functor_set_value) {
                    Ok(decl) => decl,
                    Err(e) => {
                        return Err(e);
                    }
                };
                walk_spec_decl(
                    package_id,
                    package,
                    LocalSpecId { callable: callee.item.item, functor_set_value },
                    spec_decl,
                    stack,
                    cycles,
                    visited,
                    fuel - 1,
                )
            }
        },
        _ => Err(AnalysisError::MalformedProgram),
    }
}

/// Walks every specialization of every callable of a package and returns the
/// specializations that take part in a call cycle, each reported once. The
/// main analyzer pre-seeds exactly these specializations with conservative
/// applications tables before its own pass, which is what keeps its
/// recursion finite on cyclic programs.
pub fn detect_specializations_with_cycles(package_id: PackageId, package: &Package) -> (r: Result<
    Vec<GlobalSpecId>,
    AnalysisError,
>)
    ensures
        match r {
            Ok(cycles) => {
                &&& forall|j: int|
                    0 <= j < cycles@.len() ==> (#[trigger] cycles@[j]).callable.package
                        == package_id
                &&& forall|j1: int, j2: int|
                    0 <= j1 < j2 < cycles@.len() ==> cycles@[j1] != cycles@[j2]
                &&& forall|j: int|
                    0 <= j < cycles@.len() ==> spec_is_declared_spec(
                        *package,
                        (#[trigger] cycles@[j]).callable.item,
                        cycles@[j].functor_set_value,
                    )
            },
            Err(_) => true,
        },
{
    let fuel = crate::common::package_fuel(package);
    let mut stack: Vec<LocalSpecId> = Vec::new();
    let mut cycles: Vec<LocalSpecId> = Vec::new();
    let mut visited: Vec<LocalSpecId> = Vec::new();
    let item_count = package.items.slot_count();
    let mut i: usize = 0;
    while i < item_count
        invariant
            i <= item_count,
            stack@.len() == 0,
            spec_all_declared(*package, cycles@),
            spec_all_declared(*package, visited@),
        decreases item_count - i,
    {
        let item_id = LocalItemId(i);
        if let Some(item) = package.get_item(item_id) {
            if let ItemKind::Callable(callable_decl) = &item.kind {
                if let CallableImpl::Spec(specializations) = &callable_decl.implementation {
                    let body = specializations.body;
                    match walk_spec_decl(
                        package_id,
                        package,
                        LocalSpecId { callable: item_id, functor_set_value: FunctorSetValue::Empty },
                        body,
                        &mut stack,
                        &mut cycles,
                        &mut visited,
                        fuel,
                    ) {
                        Ok(()) => (),
                        Err(e) => {
                            return Err(e);
                        }
                    }
                    if let Some(adj) = specializations.adj {
                        match walk_spec_decl(
                            package_id,
                            package,
                            LocalSpecId {
                                callable: item_id,
                                functor_set_value: FunctorSetValue::Adj,
                            },
                            adj,
                            &mut stack,
                            &mut cycles,
                            &mut visited,
                            fuel,
                        ) {
                            Ok(()) => (),
                            Err(e) => {
                                return Err(e);
                            }
                        }
                    }
                    if let Some(ctl) = specializations.ctl {
                        match walk_spec_decl(
                            package_id,
                            package,
                            LocalSpecId {
                                callable: item_id,
                                functor_set_value: FunctorSetValue::Ctl,
                            },
                            ctl,
                            &mut stack,
                            &mut cycles,
                            &mut visited,
                            fuel,
                        ) {
                            Ok(()) => (),
                            Err(e) => {
                                return Err(e);
                            }
                        }
                    }
                    if let Some(ctl_adj) = specializations.ctl_adj {
                        match walk_spec_decl(
                            package_id,
                            package,
                            LocalSpecId {
                                callable: item_id,
                                functor_set_value: FunctorSetValue::CtlAdj,
                            },
                            ctl_adj,
                            &mut stack,
                            &mut cycles,
                            &mut visited,
                            fuel,
                        ) {
                            Ok(()) => (),
                            Err(e) => {
                                return Err(e);
                            }
                        }
                    }
                }
            }
        }
        i += 1;
    }

    // Convert the package-local identifiers to global ones, keeping each
    // specialization once.
    let mut global_cycles: Vec<GlobalSpecId> = Vec::new();
    let mut j: usize = 0;
    while j < cycles.len()
        invariant
            j <= cycles@.len(),
            spec_all_declared(*package, cycles@),
            forall|k: int|
                0 <= k < global_cycles@.len() ==> (#[trigger] global_cycles@[k]).callable.package
                    == package_id,
            forall|k1: int, k2: int|
                0 <= k1 < k2 < global_cycles@.len() ==> global_cycles@[k1] != global_cycles@[k2],
            forall|k: int|
                0 <= k < global_cycles@.len() ==> spec_is_declared_spec(
                    *package,
                    (#[trigger] global_cycles@[k]).callable.item,
                    global_cycles@[k].functor_set_value,
                ),
        decreases cycles@.len() - j,
    {
        let local_spec_id = cycles[j];
        let global_id = GlobalSpecId {
            callable: crate::fir::StoreItemId {
                package: package_id,
                item: local_spec_id.callable,
            },
            functor_set_value: local_spec_id.functor_set_value,
        };
        let mut already_recorded = false;
        let mut k: usize = 0;
        while k < global_cycles.len()
            invariant
                k <= global_cycles@.len(),
                already_recorded ==> global_cycles@.contains(global_id),
                !already_recorded ==> forall|k2: int|
                    0 <= k2 < k ==> global_cycles@[k2] != global_id,
            decreases global_cycles@.len() - k,
        {
            if global_cycles[k] == global_id {
                already_recorded = true;
            }
            k += 1;
        }
        if !already_recorded {
            global_cycles.push(global_id);
        }
        j += 1;
    }
    Ok(global_cycles)
}

} // verus!
