//! Application instances: one simulated pass over a specialization body per
//! dynamism assumption, and the builder that merges the passes into
//! application generator sets.

use crate::common::{AnalysisError, InputParam, Local, LocalKind};
use crate::compute::{ApplicationGeneratorSet, ComputeKind, QuantumProperties, ValueKind};
use crate::fir::{BlockId, ExprId, LocalVarId, Pat, PatId, StmtId};
use crate::index_map::{Idx, IndexMap};
use vstd::prelude::*;

verus! {

/// A local together with its currently recorded compute kind.
#[derive(Clone, Copy, Debug, PartialEq, Eq, Structural)]
pub struct LocalComputeKind {
    pub local: Local,
    pub compute_kind: ComputeKind,
}

/// The locals of one application instance with their compute kinds.
pub struct LocalsComputeKindMap {
    pub locals: IndexMap<LocalVarId, Local>,
    pub kinds: IndexMap<LocalVarId, ComputeKind>,
}

impl LocalsComputeKindMap {
    pub fn new() -> (r: Self)
        ensures
            forall|i: int| r.locals.spec_get(i) is None,
            forall|i: int| r.kinds.spec_get(i) is None,
    {
        LocalsComputeKindMap { locals: IndexMap::new(), kinds: IndexMap::new() }
    }

    /// Records a local with its compute kind, replacing any previous entry.
    pub fn insert(&mut self, var: LocalVarId, value: LocalComputeKind)
        ensures
            final(self).locals.spec_get(var.idx()) == Some(value.local),
            final(self).kinds.spec_get(var.idx()) == Some(value.compute_kind),
            forall|j: int|
                j != var.idx() ==> final(self).locals.spec_get(j) == old(self).locals.spec_get(j),
            forall|j: int|
                j != var.idx() ==> final(self).kinds.spec_get(j) == old(self).kinds.spec_get(j),
    {
        self.locals.insert(var, value.local);
        self.kinds.insert(var, value.compute_kind);
    }

    pub fn find_local(&self, var: LocalVarId) -> (r: Option<&Local>)
        ensures
            match r {
                Some(local) => self.locals.spec_get(var.idx()) == Some(*local),
                None => self.locals.spec_get(var.idx()) is None,
            },
    {
        self.locals.get(var)
    }

    pub fn find_compute_kind(&self, var: LocalVarId) -> (r: Option<ComputeKind>)
        ensures
            r == self.kinds.spec_get(var.idx()),
    {
        match self.kinds.get(var) {
            Some(kind) => Some(*kind),
            None => None,
        }
    }

    /// Joins a compute kind into the one recorded for a local; the local must
    /// already be recorded.
    pub fn aggregate_compute_kind(&mut self, var: LocalVarId, delta: ComputeKind) -> (r: Result<
        (),
        AnalysisError,
    >)
        ensures
            match r {
                Ok(()) => {
                    &&& old(self).kinds.spec_get(var.idx()) is Some
                    &&& final(self).kinds.spec_get(var.idx()) == Some(
                        old(self).kinds.spec_get(var.idx())->Some_0.spec_aggregate(delta),
                    )
                    &&& forall|j: int|
                        j != var.idx() ==> final(self).kinds.spec_get(j) == old(
                            self,
                        ).kinds.spec_get(j)
                    &&& final(self).locals == old(self).locals
                },
                Err(_) => {
                    &&& old(self).kinds.spec_get(var.idx()) is None
                    &&& *final(self) == *old(self)
                },
            },
    {
        let current = match self.kinds.get(var) {
            Some(kind) => *kind,
            None => {
                return Err(AnalysisError::MalformedProgram);
            }
        };
        self.kinds.insert(var, current.aggregate(delta));
        Ok(())
    }
}

/// The signed index of one application within a generator set, as callers
/// address it: any negative value stands for the inherent application, and a
/// value `k >= 0` for the application in which exactly parameter `k` is
/// dynamic.
#[derive(Clone, Copy, Debug, PartialEq, Eq, Structural)]
pub struct ApplicationInstanceIndex(pub i32);

impl ApplicationInstanceIndex {
    /// The compute kind a generator set holds for this application, when the
    /// index is within the set's parameters.
    pub fn application_of(self, set: &ApplicationGeneratorSet) -> (r: Option<ComputeKind>)
        ensures
            r == if self.0 < 0 {
                Some(set.inherent)
            } else if self.0 < set.dynamic_param_applications@.len() {
                Some(set.dynamic_param_applications@[self.0 as int])
            } else {
                None::<ComputeKind>
            },
    {
        if self.0 < 0 {
            Some(set.inherent)
        } else {
            let k = self.0 as usize;
            if k < set.dynamic_param_applications.len() {
                Some(set.dynamic_param_applications[k])
            } else {
                None
            }
        }
    }
}

/// The index of one application within a generator set: index 0 is the
/// inherent application in which every input is static, and index k + 1 is
/// the application in which exactly parameter k is dynamic.
#[derive(Clone, Copy, Debug, PartialEq, Eq, Structural)]
pub struct AppIdx(pub usize);

impl AppIdx {
    /// The compute kind this application assumes for parameter `j`.
    pub open spec fn spec_param_compute_kind(self, j: int) -> ComputeKind {
        if j + 1 == self.0 as int {
            ComputeKind::Quantum(
                QuantumProperties {
                    runtime_features: 0u64,
                    value_kind: ValueKind::Element(crate::compute::RuntimeKind::Dynamic),
                },
            )
        } else {
            ComputeKind::Classical
        }
    }

    /// The compute kinds this application assumes for the input parameters:
    /// classical for every parameter, except a dynamic value for the single
    /// parameter this application treats as dynamic.
    pub fn map_to_compute_kind_vector(&self, input_param_count: usize) -> (r: Vec<ComputeKind>)
        ensures
            r@.len() == input_param_count,
            forall|j: int| 0 <= j < input_param_count ==> r@[j] == self.spec_param_compute_kind(j),
    {
        let mut kinds: Vec<ComputeKind> = Vec::new();
        let mut j: usize = 0;
        while j < input_param_count
            invariant
                j <= input_param_count,
                kinds@.len() == j as int,
                forall|k: int| 0 <= k < j ==> kinds@[k] == self.spec_param_compute_kind(k),
            decreases input_param_count - j,
        {
            let kind = if j + 1 == self.0 {
                ComputeKind::Quantum(
                    QuantumProperties {
                        runtime_features: 0u64,
                        value_kind: ValueKind::Element(crate::compute::RuntimeKind::Dynamic),
                    },
                )
            } else {
                ComputeKind::Classical
            };
            kinds.push(kind);
            j += 1;
        }
        kinds
    }
}

/// The value kind aggregated from the first `n` recorded return
/// expressions' entries: the join of the quantum entries' value kinds, or
/// absent when none of them is quantum.
pub open spec fn spec_return_value_fold(
    returned: Seq<ExprId>,
    entries: IndexMap<ExprId, ComputeKind>,
    n: int,
) -> Option<ValueKind>
    decreases n,
{
    if n <= 0 {
        None
    } else {
        let prev = spec_return_value_fold(returned, entries, n - 1);
        match entries.spec_get(returned[n - 1].idx()) {
            Some(ComputeKind::Quantum(properties)) => match prev {
                Some(accumulated) => Some(accumulated.spec_aggregate(properties.value_kind)),
                None => Some(properties.value_kind),
            },
            _ => prev,
        }
    }
}

/// The compute kind a fresh application instance assumes for input
/// parameter `i` of the given declared type: classical, except for the one
/// parameter the application treats as dynamic, which starts dynamic in the
/// shape of its type, and for the leading controls parameter of a controlled
/// specialization, which is bound quantum with no runtime features and a
/// static value, since the dynamism of actual controls is accounted for at
/// the call expression.
pub open spec fn spec_assumed_param_kind(
    app_idx: AppIdx,
    i: int,
    param_ty: crate::fir::Ty,
    has_controls: bool,
) -> ComputeKind {
    match app_idx.spec_param_compute_kind(i) {
        ComputeKind::Classical => if has_controls && i == 0 {
            ComputeKind::Quantum(
                QuantumProperties {
                    runtime_features: 0u64,
                    value_kind: ValueKind::spec_new_static_from_type(param_ty),
                },
            )
        } else {
            ComputeKind::Classical
        },
        ComputeKind::Quantum(properties) => ComputeKind::Quantum(
            QuantumProperties {
                runtime_features: properties.runtime_features,
                value_kind: properties.value_kind.spec_projected_onto(
                    ValueKind::spec_new_static_from_type(param_ty),
                ),
            },
        ),
    }
}

/// One simulated pass over a specialization body under one dynamism
/// assumption: the locals in scope, the stack of active dynamic scopes, the
/// recorded return expressions, and the per-entity compute kinds of this pass
/// alone.
pub struct ApplicationInstance {
    pub locals_map: LocalsComputeKindMap,
    pub active_dynamic_scopes: Vec<ExprId>,
    pub return_expressions: Vec<ExprId>,
    pub blocks: IndexMap<BlockId, ComputeKind>,
    pub stmts: IndexMap<StmtId, ComputeKind>,
    pub exprs: IndexMap<ExprId, ComputeKind>,
}

/// Whether every block, statement and expression that had a recorded compute
/// kind before keeps exactly that value after: a body visit only accumulates
/// results and never rewrites one, so a recorded compute kind can be read
/// back from the final state of the instance.
pub open spec fn spec_entities_preserved(
    before: ApplicationInstance,
    after: ApplicationInstance,
) -> bool {
    &&& forall|j: int|
        before.blocks.spec_get(j) is Some ==> after.blocks.spec_get(j) == before.blocks.spec_get(
            j,
        )
    &&& forall|j: int|
        before.stmts.spec_get(j) is Some ==> after.stmts.spec_get(j) == before.stmts.spec_get(j)
    &&& forall|j: int|
        before.exprs.spec_get(j) is Some ==> after.exprs.spec_get(j) == before.exprs.spec_get(j)
}

impl ApplicationInstance {
    /// A fresh instance for the given application: every input parameter is
    /// bound as a local, and the parameter the application treats as dynamic
    /// starts out dynamic in the shape of its declared type.
    pub fn new(
        input_params: &Vec<InputParam>,
        app_idx: AppIdx,
        pats: &IndexMap<PatId, Pat>,
        has_controls: bool,
    ) -> (r: Result<ApplicationInstance, AnalysisError>)
        ensures
            match r {
                Ok(instance) => {
                    &&& forall|i: int| instance.blocks.spec_get(i) is None
                    &&& forall|i: int| instance.stmts.spec_get(i) is None
                    &&& forall|i: int| instance.exprs.spec_get(i) is None
                    &&& instance.active_dynamic_scopes@.len() == 0
                    &&& instance.return_expressions@.len() == 0
                    &&& forall|i: int|
                        0 <= i < input_params@.len() && (#[trigger] input_params@[i]).var is Some
                            ==> instance.locals_map.kinds.spec_get(
                            input_params@[i].var->Some_0.idx(),
                        ) is Some
                    &&& forall|v: int|
                        #[trigger] instance.locals_map.kinds.spec_get(v) is Some
                            ==> exists|i: int|
                            0 <= i < input_params@.len() && (#[trigger] input_params@[i]).var
                                is Some && input_params@[i].var->Some_0.idx() == v
                                && pats.spec_get(input_params@[i].pat.idx()) is Some
                                && instance.locals_map.kinds.spec_get(v) == Some(
                                spec_assumed_param_kind(
                                    app_idx,
                                    i,
                                    pats.spec_get(input_params@[i].pat.idx())->Some_0.ty,
                                    has_controls,
                                ),
                            )
                },
                Err(_) => exists|i: int|
                    0 <= i < input_params@.len() && (#[trigger] input_params@[i]).var is Some
                        && pats.spec_get(input_params@[i].pat.idx()) is None,
            },
    {
        let assumed_kinds = app_idx.map_to_compute_kind_vector(input_params.len());
        let mut locals_map = LocalsComputeKindMap::new();
        let mut i: usize = 0;
        while i < input_params.len()
            invariant
                assumed_kinds@.len() == input_params@.len(),
                forall|j: int|
                    0 <= j < input_params@.len() ==> assumed_kinds@[j]
                        == app_idx.spec_param_compute_kind(j),
                i <= input_params@.len(),
                forall|j: int|
                    0 <= j < i && (#[trigger] input_params@[j]).var is Some
                        ==> locals_map.kinds.spec_get(input_params@[j].var->Some_0.idx()) is Some,
                forall|v: int|
                    #[trigger] locals_map.kinds.spec_get(v) is Some ==> exists|j: int|
                        0 <= j < i && (#[trigger] input_params@[j]).var is Some
                            && input_params@[j].var->Some_0.idx() == v && pats.spec_get(
                            input_params@[j].pat.idx(),
                        ) is Some && locals_map.kinds.spec_get(v) == Some(
                            spec_assumed_param_kind(
                                app_idx,
                                j,
                                pats.spec_get(input_params@[j].pat.idx())->Some_0.ty,
                                has_controls,
                            ),
                        ),
            decreases input_params@.len() - i,
        {
            let param = input_params[i];
            let ghost prior = locals_map;
            if let Some(var) = param.var {
                let param_pat = match pats.get(param.pat) {
                    Some(pat) => pat,
                    None => {
                        return Err(AnalysisError::MalformedProgram);
                    }
                };
                // Project the assumed dynamism onto the shape of the
                // parameter's type, so that a dynamic array parameter starts
                // out dynamic in both content and size. The leading controls
                // parameter of a controlled specialization is bound quantum
                // and static when it is not the assumed-dynamic parameter:
                // the dynamism of the actual control registers is accounted
                // for at the call expression.
                let compute_kind = match assumed_kinds[i] {
                    ComputeKind::Classical => if has_controls && i == 0 {
                        ComputeKind::Quantum(
                            QuantumProperties {
                                runtime_features: 0u64,
                                value_kind: ValueKind::new_static_from_type(&param_pat.ty),
                            },
                        )
                    } else {
                        ComputeKind::Classical
                    },
                    ComputeKind::Quantum(properties) => ComputeKind::Quantum(
                        QuantumProperties {
                            runtime_features: properties.runtime_features,
                            value_kind: properties.value_kind.projected_onto(
                                ValueKind::new_static_from_type(&param_pat.ty),
                            ),
                        },
                    ),
                };
                let local_kind = if has_controls && i == 0 {
                    LocalKind::SpecInput
                } else {
                    LocalKind::InputParam(param.index)
                };
                locals_map.insert(
                    var,
                    LocalComputeKind {
                        local: Local { var, pat: param.pat, kind: local_kind },
                        compute_kind,
                    },
                );
            }
            i += 1;
            proof {
                assert forall|v: int| #[trigger] locals_map.kinds.spec_get(v) is Some
                    implies exists|j: int|
                    0 <= j < i && (#[trigger] input_params@[j]).var is Some
                        && input_params@[j].var->Some_0.idx() == v && pats.spec_get(
                        input_params@[j].pat.idx(),
                    ) is Some && locals_map.kinds.spec_get(v) == Some(
                        spec_assumed_param_kind(
                            app_idx,
                            j,
                            pats.spec_get(input_params@[j].pat.idx())->Some_0.ty,
                            has_controls,
                        ),
                    ) by {
                    if locals_map.kinds.spec_get(v) == prior.kinds.spec_get(v)
                        && prior.kinds.spec_get(v) is Some {
                        let j0 = choose|j: int|
                            0 <= j < i - 1 && (#[trigger] input_params@[j]).var is Some
                                && input_params@[j].var->Some_0.idx() == v && pats.spec_get(
                                input_params@[j].pat.idx(),
                            ) is Some && prior.kinds.spec_get(v) == Some(
                                spec_assumed_param_kind(
                                    app_idx,
                                    j,
                                    pats.spec_get(input_params@[j].pat.idx())->Some_0.ty,
                                    has_controls,
                                ),
                            );
                        assert(0 <= j0 < i && input_params@[j0].var is Some);
                    }
                }
            }
        }
        Ok(
            ApplicationInstance {
                locals_map,
                active_dynamic_scopes: Vec::new(),
                return_expressions: Vec::new(),
                blocks: IndexMap::new(),
                stmts: IndexMap::new(),
                exprs: IndexMap::new(),
            },
        )
    }


    /// Closes the instance once its body visit is complete: aggregates the
    /// value kinds of all recorded return expressions into the instance-level
    /// value kind, which is absent when no return expression was quantum.
    pub fn close(self) -> (r: Result<InstanceComputeProperties, AnalysisError>)
        ensures
            match r {
                Ok(properties) => {
                    &&& properties.blocks == self.blocks
                    &&& properties.stmts == self.stmts
                    &&& properties.exprs == self.exprs
                    &&& forall|j: int|
                        0 <= j < self.return_expressions@.len() ==> self.exprs.spec_get(
                            (#[trigger] self.return_expressions@[j]).idx(),
                        ) is Some
                    &&& properties.value_kind == spec_return_value_fold(
                        self.return_expressions@,
                        self.exprs,
                        self.return_expressions@.len() as int,
                    )
                },
                Err(_) => (exists|j: int|
                    0 <= j < self.return_expressions@.len() && self.exprs.spec_get(
                        (#[trigger] self.return_expressions@[j]).idx(),
                    ) is None) || self.active_dynamic_scopes@.len() != 0,
            },
    {
        let mut value_kind: Option<ValueKind> = None;
        let mut i: usize = 0;
        while i < self.return_expressions.len()
            invariant
                i <= self.return_expressions@.len(),
                forall|j: int|
                    0 <= j < i ==> self.exprs.spec_get(
                        (#[trigger] self.return_expressions@[j]).idx(),
                    ) is Some,
                value_kind == spec_return_value_fold(
                    self.return_expressions@,
                    self.exprs,
                    i as int,
                ),
            decreases self.return_expressions@.len() - i,
        {
            let expr_id = self.return_expressions[i];
            let expr_compute_kind = match self.exprs.get(expr_id) {
                Some(kind) => *kind,
                None => {
                    return Err(AnalysisError::MalformedProgram);
                }
            };
            if let ComputeKind::Quantum(properties) = expr_compute_kind {
                value_kind = match value_kind {
                    Some(accumulated) => Some(accumulated.aggregate(properties.value_kind)),
                    None => Some(properties.value_kind),
                };
            }
            i += 1;
        }
        if self.active_dynamic_scopes.len() != 0 {
            // A dynamic scope survived the visit: the traversal is broken.
            return Err(AnalysisError::MalformedProgram);
        }
        Ok(
            InstanceComputeProperties {
                blocks: self.blocks,
                stmts: self.stmts,
                exprs: self.exprs,
                value_kind,
            },
        )
    }
}

/// The per-entity compute kinds of one closed application instance, together
/// with the value kind aggregated from its return expressions.
pub struct InstanceComputeProperties {
    pub blocks: IndexMap<BlockId, ComputeKind>,
    pub stmts: IndexMap<StmtId, ComputeKind>,
    pub exprs: IndexMap<ExprId, ComputeKind>,
    pub value_kind: Option<ValueKind>,
}

/// Builds the application generator sets of one specialization from its
/// application instances: the inherent instance first, then one instance per
/// input parameter, visited in order.
pub struct GeneratorSetsBuilder {
    /// The instance currently being populated.
    pub current: ApplicationInstance,
    /// Instances not yet visited, in reverse order: the next one is last.
    pub pending: Vec<ApplicationInstance>,
    /// Properties of closed instances, in application order.
    pub closed: Vec<InstanceComputeProperties>,
    /// The number of input parameters of the specialization.
    pub param_count: usize,
}

impl GeneratorSetsBuilder {
    /// How many applications remain to be visited after the current one.
    pub open spec fn pending_count(self) -> nat {
        self.pending@.len()
    }

    /// The statement entries of the inherent application's instance: the
    /// first one closed, or the current one while none has been closed yet.
    pub open spec fn spec_inherent_stmts(self) -> IndexMap<StmtId, ComputeKind> {
        if self.closed@.len() > 0 {
            self.closed@[0].stmts
        } else {
            self.current.stmts
        }
    }

    /// The per-block results of application `k`: one of the already closed
    /// instances, or the current one for the application still being visited.
    pub open spec fn spec_application_blocks(self, k: int) -> IndexMap<BlockId, ComputeKind> {
        if k < self.closed@.len() {
            self.closed@[k].blocks
        } else {
            self.current.blocks
        }
    }

    /// The per-statement results of application `k`.
    pub open spec fn spec_application_stmts(self, k: int) -> IndexMap<StmtId, ComputeKind> {
        if k < self.closed@.len() {
            self.closed@[k].stmts
        } else {
            self.current.stmts
        }
    }

    /// The per-expression results of application `k`.
    pub open spec fn spec_application_exprs(self, k: int) -> IndexMap<ExprId, ComputeKind> {
        if k < self.closed@.len() {
            self.closed@[k].exprs
        } else {
            self.current.exprs
        }
    }

    /// The aggregated return value kind of application `k`.
    pub open spec fn spec_application_value_kind(self, k: int) -> Option<ValueKind> {
        if k < self.closed@.len() {
            self.closed@[k].value_kind
        } else {
            spec_return_value_fold(
                self.current.return_expressions@,
                self.current.exprs,
                self.current.return_expressions@.len() as int,
            )
        }
    }

    /// A builder with one application instance per input parameter, plus the
    /// inherent one, which becomes current first.
    pub fn new(
        input_params: &Vec<InputParam>,
        pats: &IndexMap<PatId, Pat>,
        has_controls: bool,
    ) -> (r: Result<GeneratorSetsBuilder, AnalysisError>)
        ensures
            match r {
                Ok(builder) => {
                    &&& builder.pending_count() == input_params@.len()
                    &&& builder.closed@.len() == 0
                    &&& builder.param_count == input_params@.len()
                },
                Err(_) => exists|i: int|
                    0 <= i < input_params@.len() && (#[trigger] input_params@[i]).var is Some
                        && pats.spec_get(input_params@[i].pat.idx()) is None,
            },
    {
        let param_count = input_params.len();
        let mut pending: Vec<ApplicationInstance> = Vec::new();
        // Create instances for applications param_count down to 1, so that
        // the next application to visit is always last.
        let mut k: usize = param_count;
        while k > 0
            invariant
                pending@.len() + k == param_count,
            decreases k,
        {
            let instance = match ApplicationInstance::new(input_params, AppIdx(k), pats, has_controls) {
                Ok(instance) => instance,
                Err(e) => {
                    return Err(e);
                }
            };
            pending.push(instance);
            k -= 1;
        }
        let inherent = match ApplicationInstance::new(input_params, AppIdx(0), pats, has_controls) {
            Ok(instance) => instance,
            Err(e) => {
                return Err(e);
            }
        };
        Ok(GeneratorSetsBuilder { current: inherent, pending, closed: Vec::new(), param_count })
    }

    /// Closes the current instance and moves to the next application.
    /// Returns whether another application remains to be visited.
    pub fn advance_current_application_instance(&mut self) -> (r: Result<bool, AnalysisError>)
        ensures
            match r {
                Ok(true) => final(self).pending_count() + 1 == old(self).pending_count(),
                Ok(false) => final(self).pending_count() == old(self).pending_count(),
                Err(_) => (exists|j: int|
                    0 <= j < old(self).current.return_expressions@.len() && old(
                        self,
                    ).current.exprs.spec_get(
                        (#[trigger] old(self).current.return_expressions@[j]).idx(),
                    ) is None) || old(self).current.active_dynamic_scopes@.len() != 0,
            },
    {
        match self.pending.pop() {
            Some(mut next) => {
                core::mem::swap(&mut self.current, &mut next);
                let closed = match next.close() {
                    Ok(closed) => closed,
                    Err(e) => {
                        return Err(e);
                    }
                };
                self.closed.push(closed);
                Ok(true)
            }
            None => Ok(false),
        }
    }

    /// Closes the last instance and saves one application generator set per
    /// visited block, statement and expression into the package scaffolding
    /// maps, which refuse overwrites. When a main block is given, returns the
    /// generator set that summarizes the whole specialization: the main
    /// block's set with each application's aggregated return value kind
    /// joined in.
    #[verifier::rlimit(100)]
    pub fn save_to_package_compute_properties(
        self,
        blocks: &mut IndexMap<BlockId, ApplicationGeneratorSet>,
        stmts: &mut IndexMap<StmtId, ApplicationGeneratorSet>,
        exprs: &mut IndexMap<ExprId, ApplicationGeneratorSet>,
        main_block: Option<BlockId>,
    ) -> (r: Result<Option<ApplicationGeneratorSet>, AnalysisError>)
        ensures
            forall|j: int|
                old(stmts).spec_get(j) is Some ==> final(stmts).spec_get(j) == old(
                    stmts,
                ).spec_get(j),
            forall|j: int|
                old(blocks).spec_get(j) is Some ==> final(blocks).spec_get(j) == old(
                    blocks,
                ).spec_get(j),
            forall|j: int|
                old(exprs).spec_get(j) is Some ==> final(exprs).spec_get(j) == old(
                    exprs,
                ).spec_get(j),
            r is Ok ==> self.pending@.len() == 0 && self.closed@.len() == self.param_count,
            r is Ok ==> forall|j: int|
                final(stmts).spec_get(j) is Some ==> old(stmts).spec_get(j) is Some
                    || self.spec_application_stmts(0).spec_get(j) is Some,
            r is Ok ==> forall|j: int|
                final(blocks).spec_get(j) is Some ==> old(blocks).spec_get(j) is Some
                    || self.spec_application_blocks(0).spec_get(j) is Some,
            r is Ok ==> forall|j: int|
                final(exprs).spec_get(j) is Some ==> old(exprs).spec_get(j) is Some
                    || self.spec_application_exprs(0).spec_get(j) is Some,
            r is Ok && r->Ok_0 is Some ==> r->Ok_0->Some_0.dynamic_param_applications@.len()
                == self.param_count,
            r is Ok ==> forall|j: int|
                self.spec_inherent_stmts().spec_get(j) is Some ==> match final(stmts).spec_get(
                    j,
                ) {
                    Some(set) => {
                        &&& set.inherent == self.spec_application_stmts(0).spec_get(j)->Some_0
                        &&& set.dynamic_param_applications@.len() == self.param_count
                        &&& forall|n: int|
                            0 <= n < self.param_count as int ==> Some(
                                (#[trigger] set.dynamic_param_applications@[n]),
                            ) == self.spec_application_stmts(n + 1).spec_get(j)
                    },
                    None => false,
                },
            r is Ok ==> forall|j: int|
                self.spec_application_blocks(0).spec_get(j) is Some ==> match final(blocks).spec_get(j) {
                    Some(set) => {
                        &&& set.inherent == self.spec_application_blocks(0).spec_get(j)->Some_0
                        &&& set.dynamic_param_applications@.len() == self.param_count
                        &&& forall|n: int|
                            0 <= n < self.param_count as int ==> Some(
                                (#[trigger] set.dynamic_param_applications@[n]),
                            ) == self.spec_application_blocks(n + 1).spec_get(j)
                    },
                    None => false,
                },
            r is Ok ==> forall|j: int|
                self.spec_application_exprs(0).spec_get(j) is Some ==> match final(exprs).spec_get(j) {
                    Some(set) => {
                        &&& set.inherent == self.spec_application_exprs(0).spec_get(j)->Some_0
                        &&& set.dynamic_param_applications@.len() == self.param_count
                        &&& forall|n: int|
                            0 <= n < self.param_count as int ==> Some(
                                (#[trigger] set.dynamic_param_applications@[n]),
                            ) == self.spec_application_exprs(n + 1).spec_get(j)
                    },
                    None => false,
                },
            r is Ok && main_block is None ==> r->Ok_0 is None,
            r is Ok && main_block is Some ==> r->Ok_0 is Some && {
                let set = r->Ok_0->Some_0;
                &&& final(blocks).spec_get(main_block->Some_0.idx()) is Some
                &&& {
                    let main_set = final(blocks).spec_get(main_block->Some_0.idx())->Some_0;
                    &&& set.inherent == (match self.spec_application_value_kind(0) {
                        Some(value_kind) => main_set.inherent.spec_aggregate_value_kind(
                            value_kind,
                        ),
                        None => main_set.inherent,
                    })
                    &&& main_set.dynamic_param_applications@.len() == self.param_count
                    &&& forall|n: int|
                        0 <= n < self.param_count as int ==> (
                        #[trigger] set.dynamic_param_applications@[n]) == (
                        match self.spec_application_value_kind(n + 1) {
                            Some(value_kind) => main_set.dynamic_param_applications@[
                                n
                            ].spec_aggregate_value_kind(value_kind),
                            None => main_set.dynamic_param_applications@[n],
                        })
                }
            },
    {
        let GeneratorSetsBuilder { current, pending, mut closed, param_count } = self;
        if pending.len() != 0 {
            // Saving before every application was visited is a logic error.
            return Err(AnalysisError::MalformedProgram);
        }
        let last_closed = match current.close() {
            Ok(closed) => closed,
            Err(e) => {
                return Err(e);
            }
        };
        closed.push(last_closed);
        if closed.len() == 0 || closed.len() - 1 != param_count {
            return Err(AnalysisError::MalformedProgram);
        }
        proof {
            assert forall|k: int| 0 <= k <= param_count as int implies {
                &&& (#[trigger] closed@[k]).blocks == self.spec_application_blocks(k)
                &&& closed@[k].stmts == self.spec_application_stmts(k)
                &&& closed@[k].exprs == self.spec_application_exprs(k)
                &&& closed@[k].value_kind == self.spec_application_value_kind(k)
            } by {
                if k < self.closed@.len() as int {
                    assert(closed@[k] == self.closed@[k]);
                } else {
                    assert(closed@[k] == last_closed);
                }
            }
        }

        // Save the generator set of every block recorded by the inherent
        // instance; the dynamic-parameter instances visited the same tree.
        let block_keys = closed[0].blocks.keys();
        let mut bi: usize = 0;
        while bi < block_keys.len()
            invariant
                closed@.len() == param_count + 1,
                param_count == self.param_count,
                self.pending@.len() == 0,
                self.closed@.len() == param_count as int,
                forall|k: int|
                    0 <= k <= param_count as int ==> {
                        &&& (#[trigger] closed@[k]).blocks == self.spec_application_blocks(k)
                        &&& closed@[k].stmts == self.spec_application_stmts(k)
                        &&& closed@[k].exprs == self.spec_application_exprs(k)
                        &&& closed@[k].value_kind == self.spec_application_value_kind(k)
                    },
                forall|k1: int, k2: int|
                    0 <= k1 < k2 < block_keys@.len() ==> block_keys@[k1].idx()
                        < block_keys@[k2].idx(),
                forall|i: int|
                    #[trigger] closed@[0].blocks.spec_contains(i) ==> exists|k2: int|
                        0 <= k2 < block_keys@.len() && block_keys@[k2].idx() == i,
                bi <= block_keys@.len(),
                forall|j: int| stmts.spec_get(j) == old(stmts).spec_get(j),
                forall|j: int| exprs.spec_get(j) == old(exprs).spec_get(j),
                forall|j: int|
                    old(blocks).spec_get(j) is Some ==> blocks.spec_get(j) == old(
                        blocks,
                    ).spec_get(j),
                forall|j: int|
                    blocks.spec_get(j) is Some ==> old(blocks).spec_get(j) is Some || closed@[
                        0
                    ].blocks.spec_contains(j),
                forall|k2: int|
                    0 <= k2 < bi ==> match blocks.spec_get((#[trigger] block_keys@[k2]).idx()) {
                        Some(set) => {
                            &&& closed@[0].blocks.spec_get(block_keys@[k2].idx()) is Some
                            &&& set.inherent == closed@[0].blocks.spec_get(
                                block_keys@[k2].idx(),
                            )->Some_0
                            &&& set.dynamic_param_applications@.len() == param_count
                            &&& forall|n: int|
                                0 <= n < param_count as int ==> (#[trigger] closed@[n
                                    + 1]).blocks.spec_get(block_keys@[k2].idx()) is Some
                                    && set.dynamic_param_applications@[n] == closed@[n
                                    + 1].blocks.spec_get(block_keys@[k2].idx())->Some_0
                        },
                        None => false,
                    },
            decreases block_keys@.len() - bi,
        {
            let key = block_keys[bi];
            let generator_set = match Self::assemble_generator_set_for_block(&closed, key) {
                Ok(generator_set) => generator_set,
                Err(e) => {
                    return Err(e);
                }
            };
            if blocks.contains_key(key) {
                return Err(AnalysisError::DuplicateEntry);
            }
            blocks.insert(key, generator_set);
            bi += 1;
        }

        let stmt_keys = closed[0].stmts.keys();
        let mut si: usize = 0;
        while si < stmt_keys.len()
            invariant
                closed@.len() == param_count + 1,
                param_count == self.param_count,
                self.pending@.len() == 0,
                self.closed@.len() == param_count as int,
                forall|k: int|
                    0 <= k <= param_count as int ==> {
                        &&& (#[trigger] closed@[k]).blocks == self.spec_application_blocks(k)
                        &&& closed@[k].stmts == self.spec_application_stmts(k)
                        &&& closed@[k].exprs == self.spec_application_exprs(k)
                        &&& closed@[k].value_kind == self.spec_application_value_kind(k)
                    },
                forall|k1: int, k2: int|
                    0 <= k1 < k2 < block_keys@.len() ==> block_keys@[k1].idx()
                        < block_keys@[k2].idx(),
                forall|i: int|
                    #[trigger] closed@[0].blocks.spec_contains(i) ==> exists|k2: int|
                        0 <= k2 < block_keys@.len() && block_keys@[k2].idx() == i,
                forall|j: int|
                    old(blocks).spec_get(j) is Some ==> blocks.spec_get(j) == old(
                        blocks,
                    ).spec_get(j),
                forall|j: int|
                    blocks.spec_get(j) is Some ==> old(blocks).spec_get(j) is Some || closed@[
                        0
                    ].blocks.spec_contains(j),
                forall|k2: int|
                    0 <= k2 < block_keys@.len() ==> match blocks.spec_get(
                        (#[trigger] block_keys@[k2]).idx(),
                    ) {
                        Some(set) => {
                            &&& closed@[0].blocks.spec_get(block_keys@[k2].idx()) is Some
                            &&& set.inherent == closed@[0].blocks.spec_get(
                                block_keys@[k2].idx(),
                            )->Some_0
                            &&& set.dynamic_param_applications@.len() == param_count
                            &&& forall|n: int|
                                0 <= n < param_count as int ==> (#[trigger] closed@[n
                                    + 1]).blocks.spec_get(block_keys@[k2].idx()) is Some
                                    && set.dynamic_param_applications@[n] == closed@[n
                                    + 1].blocks.spec_get(block_keys@[k2].idx())->Some_0
                        },
                        None => false,
                    },
                forall|k1: int, k2: int|
                    0 <= k1 < k2 < stmt_keys@.len() ==> stmt_keys@[k1].idx() < stmt_keys@[k2].idx(),
                forall|i: int|
                    #[trigger] closed@[0].stmts.spec_contains(i) ==> exists|k2: int|
                        0 <= k2 < stmt_keys@.len() && stmt_keys@[k2].idx() == i,
                si <= stmt_keys@.len(),
                forall|j: int| exprs.spec_get(j) == old(exprs).spec_get(j),
                forall|j: int|
                    old(stmts).spec_get(j) is Some ==> stmts.spec_get(j) == old(stmts).spec_get(
                        j,
                    ),
                forall|j: int|
                    stmts.spec_get(j) is Some ==> old(stmts).spec_get(j) is Some || closed@[
                        0
                    ].stmts.spec_contains(j),
                forall|k2: int|
                    0 <= k2 < si ==> match stmts.spec_get((#[trigger] stmt_keys@[k2]).idx()) {
                        Some(set) => {
                            &&& closed@[0].stmts.spec_get(stmt_keys@[k2].idx()) is Some
                            &&& set.inherent == closed@[0].stmts.spec_get(
                                stmt_keys@[k2].idx(),
                            )->Some_0
                            &&& set.dynamic_param_applications@.len() == param_count
                            &&& forall|n: int|
                                0 <= n < param_count as int ==> (#[trigger] closed@[n
                                    + 1]).stmts.spec_get(stmt_keys@[k2].idx()) is Some
                                    && set.dynamic_param_applications@[n] == closed@[n
                                    + 1].stmts.spec_get(stmt_keys@[k2].idx())->Some_0
                        },
                        None => false,
                    },
            decreases stmt_keys@.len() - si,
        {
            let key = stmt_keys[si];
            let generator_set = match Self::assemble_generator_set_for_stmt(&closed, key) {
                Ok(generator_set) => generator_set,
                Err(e) => {
                    return Err(e);
                }
            };
            if stmts.contains_key(key) {
                return Err(AnalysisError::DuplicateEntry);
            }
            stmts.insert(key, generator_set);
            si += 1;
        }

        let expr_keys = closed[0].exprs.keys();
        let mut ei: usize = 0;
        while ei < expr_keys.len()
            invariant
                closed@.len() == param_count + 1,
                param_count == self.param_count,
                self.pending@.len() == 0,
                self.closed@.len() == param_count as int,
                forall|k: int|
                    0 <= k <= param_count as int ==> {
                        &&& (#[trigger] closed@[k]).blocks == self.spec_application_blocks(k)
                        &&& closed@[k].stmts == self.spec_application_stmts(k)
                        &&& closed@[k].exprs == self.spec_application_exprs(k)
                        &&& closed@[k].value_kind == self.spec_application_value_kind(k)
                    },
                forall|k1: int, k2: int|
                    0 <= k1 < k2 < block_keys@.len() ==> block_keys@[k1].idx()
                        < block_keys@[k2].idx(),
                forall|i: int|
                    #[trigger] closed@[0].blocks.spec_contains(i) ==> exists|k2: int|
                        0 <= k2 < block_keys@.len() && block_keys@[k2].idx() == i,
                forall|j: int|
                    old(blocks).spec_get(j) is Some ==> blocks.spec_get(j) == old(
                        blocks,
                    ).spec_get(j),
                forall|j: int|
                    blocks.spec_get(j) is Some ==> old(blocks).spec_get(j) is Some || closed@[
                        0
                    ].blocks.spec_contains(j),
                forall|k2: int|
                    0 <= k2 < block_keys@.len() ==> match blocks.spec_get(
                        (#[trigger] block_keys@[k2]).idx(),
                    ) {
                        Some(set) => {
                            &&& closed@[0].blocks.spec_get(block_keys@[k2].idx()) is Some
                            &&& set.inherent == closed@[0].blocks.spec_get(
                                block_keys@[k2].idx(),
                            )->Some_0
                            &&& set.dynamic_param_applications@.len() == param_count
                            &&& forall|n: int|
                                0 <= n < param_count as int ==> (#[trigger] closed@[n
                                    + 1]).blocks.spec_get(block_keys@[k2].idx()) is Some
                                    && set.dynamic_param_applications@[n] == closed@[n
                                    + 1].blocks.spec_get(block_keys@[k2].idx())->Some_0
                        },
                        None => false,
                    },
                forall|k1: int, k2: int|
                    0 <= k1 < k2 < stmt_keys@.len() ==> stmt_keys@[k1].idx() < stmt_keys@[k2].idx(),
                forall|i: int|
                    #[trigger] closed@[0].stmts.spec_contains(i) ==> exists|k2: int|
                        0 <= k2 < stmt_keys@.len() && stmt_keys@[k2].idx() == i,
                forall|j: int|
                    old(stmts).spec_get(j) is Some ==> stmts.spec_get(j) == old(stmts).spec_get(
                        j,
                    ),
                forall|j: int|
                    stmts.spec_get(j) is Some ==> old(stmts).spec_get(j) is Some || closed@[
                        0
                    ].stmts.spec_contains(j),
                forall|k2: int|
                    0 <= k2 < stmt_keys@.len() ==> match stmts.spec_get(
                        (#[trigger] stmt_keys@[k2]).idx(),
                    ) {
                        Some(set) => {
                            &&& closed@[0].stmts.spec_get(stmt_keys@[k2].idx()) is Some
                            &&& set.inherent == closed@[0].stmts.spec_get(
                                stmt_keys@[k2].idx(),
                            )->Some_0
                            &&& set.dynamic_param_applications@.len() == param_count
                            &&& forall|n: int|
                                0 <= n < param_count as int ==> (#[trigger] closed@[n
                                    + 1]).stmts.spec_get(stmt_keys@[k2].idx()) is Some
                                    && set.dynamic_param_applications@[n] == closed@[n
                                    + 1].stmts.spec_get(stmt_keys@[k2].idx())->Some_0
                        },
                        None => false,
                    },
                forall|k1: int, k2: int|
                    0 <= k1 < k2 < expr_keys@.len() ==> expr_keys@[k1].idx() < expr_keys@[k2].idx(),
                forall|i: int|
                    #[trigger] closed@[0].exprs.spec_contains(i) ==> exists|k2: int|
                        0 <= k2 < expr_keys@.len() && expr_keys@[k2].idx() == i,
                ei <= expr_keys@.len(),
                forall|j: int|
                    old(exprs).spec_get(j) is Some ==> exprs.spec_get(j) == old(exprs).spec_get(
                        j,
                    ),
                forall|j: int|
                    exprs.spec_get(j) is Some ==> old(exprs).spec_get(j) is Some || closed@[
                        0
                    ].exprs.spec_contains(j),
                forall|k2: int|
                    0 <= k2 < ei ==> match exprs.spec_get((#[trigger] expr_keys@[k2]).idx()) {
                        Some(set) => {
                            &&& closed@[0].exprs.spec_get(expr_keys@[k2].idx()) is Some
                            &&& set.inherent == closed@[0].exprs.spec_get(
                                expr_keys@[k2].idx(),
                            )->Some_0
                            &&& set.dynamic_param_applications@.len() == param_count
                            &&& forall|n: int|
                                0 <= n < param_count as int ==> (#[trigger] closed@[n
                                    + 1]).exprs.spec_get(expr_keys@[k2].idx()) is Some
                                    && set.dynamic_param_applications@[n] == closed@[n
                                    + 1].exprs.spec_get(expr_keys@[k2].idx())->Some_0
                        },
                        None => false,
                    },
            decreases expr_keys@.len() - ei,
        {
            let key = expr_keys[ei];
            let generator_set = match Self::assemble_generator_set_for_expr(&closed, key) {
                Ok(generator_set) => generator_set,
                Err(e) => {
                    return Err(e);
                }
            };
            if exprs.contains_key(key) {
                return Err(AnalysisError::DuplicateEntry);
            }
            exprs.insert(key, generator_set);
            ei += 1;
        }

        proof {
            assert(closed@[0].stmts == self.spec_inherent_stmts());
            assert(closed@[0].stmts == self.spec_application_stmts(0));
            assert(closed@[0].blocks == self.spec_application_blocks(0));
            assert(closed@[0].exprs == self.spec_application_exprs(0));
            assert forall|j: int| stmts.spec_get(j) is Some implies old(stmts).spec_get(j)
                is Some || self.spec_application_stmts(0).spec_get(j) is Some by {
                assert(old(stmts).spec_get(j) is Some || closed@[0].stmts.spec_contains(j));
            }
            assert forall|j: int| blocks.spec_get(j) is Some implies old(blocks).spec_get(j)
                is Some || self.spec_application_blocks(0).spec_get(j) is Some by {
                assert(old(blocks).spec_get(j) is Some || closed@[0].blocks.spec_contains(j));
            }
            assert forall|j: int| exprs.spec_get(j) is Some implies old(exprs).spec_get(j)
                is Some || self.spec_application_exprs(0).spec_get(j) is Some by {
                assert(old(exprs).spec_get(j) is Some || closed@[0].exprs.spec_contains(j));
            }
            assert forall|j: int| self.spec_application_stmts(0).spec_get(j) is Some implies match
                stmts.spec_get(j) {
                Some(set) => {
                    &&& set.inherent == self.spec_application_stmts(0).spec_get(j)->Some_0
                    &&& set.dynamic_param_applications@.len() == param_count
                    &&& forall|n: int|
                        0 <= n < param_count as int ==> Some(
                            (#[trigger] set.dynamic_param_applications@[n]),
                        ) == self.spec_application_stmts(n + 1).spec_get(j)
                },
                None => false,
            } by {
                assert(closed@[0].stmts.spec_contains(j));
                let k2 = choose|k2: int| 0 <= k2 < stmt_keys@.len() && stmt_keys@[k2].idx() == j;
                assert(stmts.spec_get(stmt_keys@[k2].idx()) is Some);
                let set = stmts.spec_get(j)->Some_0;
                assert forall|n: int| 0 <= n < param_count as int implies Some(
                    (#[trigger] set.dynamic_param_applications@[n]),
                ) == self.spec_application_stmts(n + 1).spec_get(j) by {
                    assert(stmt_keys@[k2].idx() == j);
                    assert((#[trigger] closed@[n + 1]).stmts.spec_get(stmt_keys@[k2].idx())
                        is Some);
                    assert(closed@[n + 1].stmts == self.spec_application_stmts(n + 1));
                }
            }
            assert forall|j: int| self.spec_application_blocks(0).spec_get(j) is Some implies match
                blocks.spec_get(j) {
                Some(set) => {
                    &&& set.inherent == self.spec_application_blocks(0).spec_get(j)->Some_0
                    &&& set.dynamic_param_applications@.len() == param_count
                    &&& forall|n: int|
                        0 <= n < param_count as int ==> Some(
                            (#[trigger] set.dynamic_param_applications@[n]),
                        ) == self.spec_application_blocks(n + 1).spec_get(j)
                },
                None => false,
            } by {
                assert(closed@[0].blocks.spec_contains(j));
                let k2 = choose|k2: int| 0 <= k2 < block_keys@.len() && block_keys@[k2].idx() == j;
                assert(blocks.spec_get(block_keys@[k2].idx()) is Some);
                let set = blocks.spec_get(j)->Some_0;
                assert forall|n: int| 0 <= n < param_count as int implies Some(
                    (#[trigger] set.dynamic_param_applications@[n]),
                ) == self.spec_application_blocks(n + 1).spec_get(j) by {
                    assert(block_keys@[k2].idx() == j);
                    assert((#[trigger] closed@[n + 1]).blocks.spec_get(block_keys@[k2].idx())
                        is Some);
                    assert(closed@[n + 1].blocks == self.spec_application_blocks(n + 1));
                }
            }
            assert forall|j: int| self.spec_application_exprs(0).spec_get(j) is Some implies match
                exprs.spec_get(j) {
                Some(set) => {
                    &&& set.inherent == self.spec_application_exprs(0).spec_get(j)->Some_0
                    &&& set.dynamic_param_applications@.len() == param_count
                    &&& forall|n: int|
                        0 <= n < param_count as int ==> Some(
                            (#[trigger] set.dynamic_param_applications@[n]),
                        ) == self.spec_application_exprs(n + 1).spec_get(j)
                },
                None => false,
            } by {
                assert(closed@[0].exprs.spec_contains(j));
                let k2 = choose|k2: int| 0 <= k2 < expr_keys@.len() && expr_keys@[k2].idx() == j;
                assert(exprs.spec_get(expr_keys@[k2].idx()) is Some);
                let set = exprs.spec_get(j)->Some_0;
                assert forall|n: int| 0 <= n < param_count as int implies Some(
                    (#[trigger] set.dynamic_param_applications@[n]),
                ) == self.spec_application_exprs(n + 1).spec_get(j) by {
                    assert(expr_keys@[k2].idx() == j);
                    assert((#[trigger] closed@[n + 1]).exprs.spec_get(expr_keys@[k2].idx())
                        is Some);
                    assert(closed@[n + 1].exprs == self.spec_application_exprs(n + 1));
                }
            }
        }

        // When a main block is given, derive the specialization's generator
        // set from the main block's set by joining in each application's
        // aggregated return value kind.
        match main_block {
            Some(main_block_id) => {
                let main_set = match blocks.get(main_block_id) {
                    Some(set) => set.clone(),
                    None => {
                        return Err(AnalysisError::MalformedProgram);
                    }
                };
                let mut inherent = main_set.inherent;
                if let Some(value_kind) = closed[0].value_kind {
                    inherent = inherent.aggregate_value_kind(value_kind);
                }
                let mut dynamic_param_applications: Vec<ComputeKind> = Vec::new();
                let mut k: usize = 0;
                if main_set.dynamic_param_applications.len() != param_count {
                    return Err(AnalysisError::MalformedProgram);
                }
                while k < param_count
                    invariant
                        closed@.len() == param_count + 1,
                        param_count == self.param_count,
                        forall|kk: int|
                            0 <= kk <= param_count as int ==> (#[trigger] closed@[
                                kk
                            ]).value_kind == self.spec_application_value_kind(kk),
                        main_set.dynamic_param_applications@.len() == param_count as int,
                        k <= param_count,
                        dynamic_param_applications@.len() == k as int,
                        forall|n: int|
                            0 <= n < k as int ==> (#[trigger] dynamic_param_applications@[n])
                                == (match closed@[n + 1].value_kind {
                                Some(value_kind) => main_set.dynamic_param_applications@[
                                    n
                                ].spec_aggregate_value_kind(value_kind),
                                None => main_set.dynamic_param_applications@[n],
                            }),
                    decreases param_count - k,
                {
                    let mut app = main_set.dynamic_param_applications[k];
                    if let Some(value_kind) = closed[k + 1].value_kind {
                        app = app.aggregate_value_kind(value_kind);
                    }
                    dynamic_param_applications.push(app);
                    k += 1;
                }
                Ok(Some(ApplicationGeneratorSet { inherent, dynamic_param_applications }))
            }
            None => Ok(None),
        }
    }

    fn assemble_generator_set_for_block(
        closed: &Vec<InstanceComputeProperties>,
        key: BlockId,
    ) -> (r: Result<ApplicationGeneratorSet, AnalysisError>)
        requires
            closed@.len() >= 1,
        ensures
            match r {
                Ok(set) => {
                    &&& closed@[0].blocks.spec_get(key.idx()) is Some
                    &&& set.inherent == closed@[0].blocks.spec_get(key.idx())->Some_0
                    &&& set.dynamic_param_applications@.len() == closed@.len() - 1
                    &&& forall|n: int|
                        0 <= n < closed@.len() - 1 ==> (#[trigger] closed@[n + 1]).blocks.spec_get(
                            key.idx(),
                        ) is Some && set.dynamic_param_applications@[n] == closed@[n
                            + 1].blocks.spec_get(key.idx())->Some_0
                },
                Err(_) => true,
            },
    {
        let inherent = match closed[0].blocks.get(key) {
            Some(kind) => *kind,
            None => {
                return Err(AnalysisError::MalformedProgram);
            }
        };
        let mut dynamic_param_applications: Vec<ComputeKind> = Vec::new();
        let mut j: usize = 1;
        while j < closed.len()
            invariant
                1 <= j <= closed@.len(),
                dynamic_param_applications@.len() == j - 1,
                forall|n: int|
                    0 <= n < j - 1 ==> (#[trigger] closed@[n + 1]).blocks.spec_get(key.idx())
                        is Some && dynamic_param_applications@[n] == closed@[n + 1].blocks.spec_get(
                        key.idx(),
                    )->Some_0,
            decreases closed@.len() - j,
        {
            let kind = match closed[j].blocks.get(key) {
                Some(kind) => *kind,
                None => {
                    return Err(AnalysisError::MalformedProgram);
                }
            };
            dynamic_param_applications.push(kind);
            j += 1;
        }
        Ok(ApplicationGeneratorSet { inherent, dynamic_param_applications })
    }

    fn assemble_generator_set_for_stmt(
        closed: &Vec<InstanceComputeProperties>,
        key: StmtId,
    ) -> (r: Result<ApplicationGeneratorSet, AnalysisError>)
        requires
            closed@.len() >= 1,
        ensures
            match r {
                Ok(set) => {
                    &&& closed@[0].stmts.spec_get(key.idx()) is Some
                    &&& set.inherent == closed@[0].stmts.spec_get(key.idx())->Some_0
                    &&& set.dynamic_param_applications@.len() == closed@.len() - 1
                    &&& forall|n: int|
                        0 <= n < closed@.len() - 1 ==> (#[trigger] closed@[n + 1]).stmts.spec_get(
                            key.idx(),
                        ) is Some && set.dynamic_param_applications@[n] == closed@[n
                            + 1].stmts.spec_get(key.idx())->Some_0
                },
                Err(_) => true,
            },
    {
        let inherent = match closed[0].stmts.get(key) {
            Some(kind) => *kind,
            None => {
                return Err(AnalysisError::MalformedProgram);
            }
        };
        let mut dynamic_param_applications: Vec<ComputeKind> = Vec::new();
        let mut j: usize = 1;
        while j < closed.len()
            invariant
                1 <= j <= closed@.len(),
                dynamic_param_applications@.len() == j - 1,
                forall|n: int|
                    0 <= n < j - 1 ==> (#[trigger] closed@[n + 1]).stmts.spec_get(key.idx())
                        is Some && dynamic_param_applications@[n] == closed@[n + 1].stmts.spec_get(
                        key.idx(),
                    )->Some_0,
            decreases closed@.len() - j,
        {
            let kind = match closed[j].stmts.get(key) {
                Some(kind) => *kind,
                None => {
                    return Err(AnalysisError::MalformedProgram);
                }
            };
            dynamic_param_applications.push(kind);
            j += 1;
        }
        Ok(ApplicationGeneratorSet { inherent, dynamic_param_applications })
    }

    fn assemble_generator_set_for_expr(
        closed: &Vec<InstanceComputeProperties>,
        key: ExprId,
    ) -> (r: Result<ApplicationGeneratorSet, AnalysisError>)
        requires
            closed@.len() >= 1,
        ensures
            match r {
                Ok(set) => {
                    &&& closed@[0].exprs.spec_get(key.idx()) is Some
                    &&& set.inherent == closed@[0].exprs.spec_get(key.idx())->Some_0
                    &&& set.dynamic_param_applications@.len() == closed@.len() - 1
                    &&& forall|n: int|
                        0 <= n < closed@.len() - 1 ==> (#[trigger] closed@[n + 1]).exprs.spec_get(
                            key.idx(),
                        ) is Some && set.dynamic_param_applications@[n] == closed@[n
                            + 1].exprs.spec_get(key.idx())->Some_0
                },
                Err(_) => true,
            },
    {
        let inherent = match closed[0].exprs.get(key) {
            Some(kind) => *kind,
            None => {
                return Err(AnalysisError::MalformedProgram);
            }
        };
        let mut dynamic_param_applications: Vec<ComputeKind> = Vec::new();
        let mut j: usize = 1;
        while j < closed.len()
            invariant
                1 <= j <= closed@.len(),
                dynamic_param_applications@.len() == j - 1,
                forall|n: int|
                    0 <= n < j - 1 ==> (#[trigger] closed@[n + 1]).exprs.spec_get(key.idx())
                        is Some && dynamic_param_applications@[n] == closed@[n + 1].exprs.spec_get(
                        key.idx(),
                    )->Some_0,
            decreases closed@.len() - j,
        {
            let kind = match closed[j].exprs.get(key) {
                Some(kind) => *kind,
                None => {
                    return Err(AnalysisError::MalformedProgram);
                }
            };
            dynamic_param_applications.push(kind);
            j += 1;
        }
        Ok(ApplicationGeneratorSet { inherent, dynamic_param_applications })
    }
}

} // verus!
