//! The mutable accumulation structure the analyzer populates, and the
//! immutable compute-properties store it is frozen into. Every insertion is
//! write-once: an attempt to overwrite an existing entry is refused, since
//! re-analysis of an already analyzed entity is a logic error.

use crate::common::{AnalysisError, GlobalSpecId};
use crate::compute::ApplicationGeneratorSet;
use crate::fir::{
    BlockId, ExprId, FunctorSetValue, LocalItemId, PackageId, PackageStore, StmtId, StoreBlockId,
    StoreExprId, StoreStmtId,
};
use crate::index_map::{Idx, IndexMap};
use vstd::prelude::*;

verus! {

/// The position of a specialization within a callable's entry: body,
/// adjoint, controlled, controlled-adjoint.
#[derive(Clone, Copy, Debug, PartialEq, Eq, Structural)]
pub struct SpecializationIndex(pub usize);

impl Idx for SpecializationIndex {
    open spec fn idx(self) -> int {
        self.0 as int
    }

    open spec fn from_idx(i: int) -> Self {
        SpecializationIndex(i as usize)
    }

    proof fn lemma_idx_roundtrip(self) {
    }

    fn to_index(self) -> usize {
        self.0
    }

    fn from_index(i: usize) -> Self {
        SpecializationIndex(i)
    }
}

/// The specialization index a functor set value is stored under.
pub open spec fn spec_specialization_index(functor_set_value: FunctorSetValue) -> SpecializationIndex {
    match functor_set_value {
        FunctorSetValue::Empty => SpecializationIndex(0),
        FunctorSetValue::Adj => SpecializationIndex(1),
        FunctorSetValue::Ctl => SpecializationIndex(2),
        FunctorSetValue::CtlAdj => SpecializationIndex(3),
    }
}

pub fn specialization_index(functor_set_value: FunctorSetValue) -> (r: SpecializationIndex)
    ensures
        r == spec_specialization_index(functor_set_value),
{
    match functor_set_value {
        FunctorSetValue::Empty => SpecializationIndex(0),
        FunctorSetValue::Adj => SpecializationIndex(1),
        FunctorSetValue::Ctl => SpecializationIndex(2),
        FunctorSetValue::CtlAdj => SpecializationIndex(3),
    }
}

/// The in-progress analysis entry of one item: not a callable, or the
/// generator sets of its analyzed specializations, keyed by specialization
/// index.
pub enum ItemScaffolding {
    NonCallable,
    Specializations(IndexMap<SpecializationIndex, ApplicationGeneratorSet>),
}

/// The in-progress analysis results of one package.
pub struct PackageScaffolding {
    /// The analysis entries of the package items.
    pub items: IndexMap<LocalItemId, ItemScaffolding>,
    /// The application generator sets of the package blocks.
    pub blocks: IndexMap<BlockId, ApplicationGeneratorSet>,
    /// The application generator sets of the package statements.
    pub stmts: IndexMap<StmtId, ApplicationGeneratorSet>,
    /// The application generator sets of the package expressions.
    pub exprs: IndexMap<ExprId, ApplicationGeneratorSet>,
}

impl PackageScaffolding {
    pub fn new() -> (r: Self)
        ensures
            forall|i: int| r.items.spec_get(i) is None,
            forall|i: int| r.blocks.spec_get(i) is None,
            forall|i: int| r.stmts.spec_get(i) is None,
            forall|i: int| r.exprs.spec_get(i) is None,
    {
        PackageScaffolding {
            items: IndexMap::new(),
            blocks: IndexMap::new(),
            stmts: IndexMap::new(),
            exprs: IndexMap::new(),
        }
    }
}

/// The in-progress analysis results of a whole package store.
pub struct PackageStoreScaffolding(pub IndexMap<PackageId, PackageScaffolding>);

/// Whether every package that had a scaffolding entry before still has one
/// after: the analysis never drops a package's entry.
pub open spec fn spec_packages_preserved(
    before: PackageStoreScaffolding,
    after: PackageStoreScaffolding,
) -> bool {
    forall|p: int| before.0.spec_get(p) is Some ==> after.0.spec_get(p) is Some
}

/// Whether every specialization that had a recorded generator set before
/// keeps exactly that set after: a memoized table is never dropped or
/// rewritten, so the contract of its first insertion pins it for the rest of
/// the run.
pub open spec fn spec_specs_preserved(
    before: PackageStoreScaffolding,
    after: PackageStoreScaffolding,
) -> bool {
    forall|s: GlobalSpecId|
        before.spec_find_specialization(s) is Some ==> after.spec_find_specialization(s)
            == before.spec_find_specialization(s)
}

/// The generator set recorded for a statement of a package, if any.
pub open spec fn spec_stmt_entry(
    scaffolding: PackageStoreScaffolding,
    p: int,
    j: int,
) -> Option<ApplicationGeneratorSet> {
    match scaffolding.0.spec_get(p) {
        Some(package) => package.stmts.spec_get(j),
        None => None,
    }
}

/// Whether a statement of a package has a recorded generator set.
pub open spec fn spec_has_stmt(scaffolding: PackageStoreScaffolding, p: int, j: int) -> bool {
    spec_stmt_entry(scaffolding, p, j) is Some
}

/// Whether every statement that had a recorded generator set before keeps
/// exactly that set after: a statement's entry is never dropped or
/// rewritten.
pub open spec fn spec_stmt_entries_preserved(
    before: PackageStoreScaffolding,
    after: PackageStoreScaffolding,
) -> bool {
    forall|p: int, j: int|
        spec_has_stmt(before, p, j) ==> spec_stmt_entry(after, p, j) == spec_stmt_entry(
            before,
            p,
            j,
        )
}

/// The generator set recorded for a block of a package, if any.
pub open spec fn spec_block_entry(
    scaffolding: PackageStoreScaffolding,
    p: int,
    j: int,
) -> Option<ApplicationGeneratorSet> {
    match scaffolding.0.spec_get(p) {
        Some(package) => package.blocks.spec_get(j),
        None => None,
    }
}

/// Whether every block that had a recorded generator set before keeps
/// exactly that set after: a block's entry is never dropped or rewritten.
pub open spec fn spec_block_entries_preserved(
    before: PackageStoreScaffolding,
    after: PackageStoreScaffolding,
) -> bool {
    forall|p: int, j: int|
        spec_block_entry(before, p, j) is Some ==> spec_block_entry(after, p, j)
            == spec_block_entry(before, p, j)
}

/// The generator set recorded for an expression of a package, if any.
pub open spec fn spec_expr_entry(
    scaffolding: PackageStoreScaffolding,
    p: int,
    j: int,
) -> Option<ApplicationGeneratorSet> {
    match scaffolding.0.spec_get(p) {
        Some(package) => package.exprs.spec_get(j),
        None => None,
    }
}

/// Whether every expression that had a recorded generator set before keeps
/// exactly that set after: an expression's entry is never dropped or
/// rewritten.
pub open spec fn spec_expr_entries_preserved(
    before: PackageStoreScaffolding,
    after: PackageStoreScaffolding,
) -> bool {
    forall|p: int, j: int|
        spec_expr_entry(before, p, j) is Some ==> spec_expr_entry(after, p, j)
            == spec_expr_entry(before, p, j)
}

/// The generator set a frozen compute-properties store holds for a
/// statement of a package, if any.
pub open spec fn spec_props_stmt_entry(
    properties: PackageStoreComputeProperties,
    p: int,
    j: int,
) -> Option<ApplicationGeneratorSet> {
    match properties.0.spec_get(p) {
        Some(package) => package.stmts.spec_get(j),
        None => None,
    }
}

/// The frozen entry a compute-properties store holds for an item of a
/// package, if any.
pub open spec fn spec_props_item_entry(
    properties: PackageStoreComputeProperties,
    p: int,
    i: int,
) -> Option<ItemComputeProperties> {
    match properties.0.spec_get(p) {
        Some(package) => package.items.spec_get(i),
        None => None,
    }
}

/// The generator set a frozen compute-properties store holds for a block
/// of a package, if any.
pub open spec fn spec_props_block_entry(
    properties: PackageStoreComputeProperties,
    p: int,
    j: int,
) -> Option<ApplicationGeneratorSet> {
    match properties.0.spec_get(p) {
        Some(package) => package.blocks.spec_get(j),
        None => None,
    }
}

/// The generator set a frozen compute-properties store holds for an
/// expression of a package, if any.
pub open spec fn spec_props_expr_entry(
    properties: PackageStoreComputeProperties,
    p: int,
    j: int,
) -> Option<ApplicationGeneratorSet> {
    match properties.0.spec_get(p) {
        Some(package) => package.exprs.spec_get(j),
        None => None,
    }
}

/// Whether a statement of a package has an entry in a frozen
/// compute-properties store.
pub open spec fn spec_props_has_stmt(
    properties: PackageStoreComputeProperties,
    p: int,
    j: int,
) -> bool {
    spec_props_stmt_entry(properties, p, j) is Some
}

impl PackageStoreScaffolding {
    /// The generator set recorded for a specialization, if any.
    pub open spec fn spec_find_specialization(self, id: GlobalSpecId) -> Option<
        ApplicationGeneratorSet,
    > {
        match self.0.spec_get(id.callable.package.idx()) {
            Some(package) => match package.items.spec_get(id.callable.item.idx()) {
                Some(ItemScaffolding::Specializations(specs)) => specs.spec_get(
                    spec_specialization_index(id.functor_set_value).idx(),
                ),
                _ => None,
            },
            None => None,
        }
    }

    pub fn new() -> (r: Self)
        ensures
            forall|i: int| r.0.spec_get(i) is None,
    {
        PackageStoreScaffolding(IndexMap::new())
    }

    /// Creates an empty scaffolding entry for every package of the store.
    pub fn initialize_packages(&mut self, package_store: &PackageStore)
        ensures
            forall|i: int|
                final(self).0.spec_get(i) is Some <==> (old(self).0.spec_get(i) is Some
                    || package_store.packages.spec_get(i) is Some),
    {
        let count = package_store.packages.slot_count();
        let mut i: usize = 0;
        while i < count
            invariant
                count == package_store.packages.slots_view().len(),
                i <= count,
                forall|j: int|
                    self.0.spec_get(j) is Some <==> (old(self).0.spec_get(j) is Some || (0 <= j < i
                        && package_store.packages.spec_get(j) is Some)),
            decreases count - i,
        {
            let id = PackageId(i);
            if package_store.packages.contains_key(id) {
                self.0.insert(id, PackageScaffolding::new());
            }
            i += 1;
        }
    }

    pub fn find_specialization(&self, id: GlobalSpecId) -> (r: Option<&ApplicationGeneratorSet>)
        ensures
            match r {
                Some(set) => self.spec_find_specialization(id) == Some(*set),
                None => self.spec_find_specialization(id) is None,
            },
    {
        match self.0.get(id.callable.package) {
            Some(package) => match package.items.get(id.callable.item) {
                Some(item) => match item {
                    ItemScaffolding::NonCallable => None,
                    ItemScaffolding::Specializations(specs) => specs.get(
                        specialization_index(id.functor_set_value),
                    ),
                },
                None => None,
            },
            None => None,
        }
    }

    pub fn find_block(&self, id: StoreBlockId) -> (r: Option<&ApplicationGeneratorSet>)
        ensures
            match r {
                Some(set) => match self.0.spec_get(id.package.idx()) {
                    Some(package) => package.blocks.spec_get(id.block.idx()) == Some(*set),
                    None => false,
                },
                None => match self.0.spec_get(id.package.idx()) {
                    Some(package) => package.blocks.spec_get(id.block.idx()) is None,
                    None => true,
                },
            },
    {
        match self.0.get(id.package) {
            Some(package) => package.blocks.get(id.block),
            None => None,
        }
    }

    pub fn find_stmt(&self, id: StoreStmtId) -> (r: Option<&ApplicationGeneratorSet>)
        ensures
            match r {
                Some(set) => match self.0.spec_get(id.package.idx()) {
                    Some(package) => package.stmts.spec_get(id.stmt.idx()) == Some(*set),
                    None => false,
                },
                None => match self.0.spec_get(id.package.idx()) {
                    Some(package) => package.stmts.spec_get(id.stmt.idx()) is None,
                    None => true,
                },
            },
    {
        match self.0.get(id.package) {
            Some(package) => package.stmts.get(id.stmt),
            None => None,
        }
    }

    pub fn find_expr(&self, id: StoreExprId) -> (r: Option<&ApplicationGeneratorSet>)
        ensures
            match r {
                Some(set) => match self.0.spec_get(id.package.idx()) {
                    Some(package) => package.exprs.spec_get(id.expr.idx()) == Some(*set),
                    None => false,
                },
                None => match self.0.spec_get(id.package.idx()) {
                    Some(package) => package.exprs.spec_get(id.expr.idx()) is None,
                    None => true,
                },
            },
    {
        match self.0.get(id.package) {
            Some(package) => package.exprs.get(id.expr),
            None => None,
        }
    }

    /// Records the analysis entry of an item; the slot must be empty.
    pub fn insert_item(
        &mut self,
        package: PackageId,
        item: LocalItemId,
        value: ItemScaffolding,
    ) -> (r: Result<(), AnalysisError>)
        ensures
            spec_packages_preserved(*old(self), *final(self)),
            spec_specs_preserved(*old(self), *final(self)),
            spec_stmt_entries_preserved(*old(self), *final(self)),
            spec_block_entries_preserved(*old(self), *final(self)),
            spec_expr_entries_preserved(*old(self), *final(self)),
    {
        let mut package_scaffolding = match self.0.take(package) {
            Some(p) => p,
            None => {
                return Err(AnalysisError::MalformedProgram);
            }
        };
        if package_scaffolding.items.contains_key(item) {
            self.0.insert(package, package_scaffolding);
            return Err(AnalysisError::DuplicateEntry);
        }
        package_scaffolding.items.insert(item, value);
        self.0.insert(package, package_scaffolding);
        Ok(())
    }

    /// Records the generator set of a specialization; the slot must be
    /// empty, though other specializations of the same callable may already
    /// be recorded.
    pub fn insert_spec(&mut self, id: GlobalSpecId, value: ApplicationGeneratorSet) -> (r: Result<
        (),
        AnalysisError,
    >)
        ensures
            spec_packages_preserved(*old(self), *final(self)),
            spec_specs_preserved(*old(self), *final(self)),
            spec_stmt_entries_preserved(*old(self), *final(self)),
            spec_block_entries_preserved(*old(self), *final(self)),
            spec_expr_entries_preserved(*old(self), *final(self)),
            forall|other: GlobalSpecId|
                other != id ==> final(self).spec_find_specialization(other) == old(
                    self,
                ).spec_find_specialization(other),
            match r {
                Ok(()) => {
                    &&& old(self).spec_find_specialization(id) is None
                    &&& final(self).spec_find_specialization(id) == Some(value)
                },
                Err(AnalysisError::DuplicateEntry) => final(self).spec_find_specialization(id)
                    == old(self).spec_find_specialization(id) && old(
                    self,
                ).spec_find_specialization(id) is Some,
                Err(_) => true,
            },
    {
        let spec_index = specialization_index(id.functor_set_value);
        let mut package_scaffolding = match self.0.take(id.callable.package) {
            Some(p) => p,
            None => {
                return Err(AnalysisError::MalformedProgram);
            }
        };
        match package_scaffolding.items.take(id.callable.item) {
            Some(ItemScaffolding::Specializations(mut specs)) => {
                if specs.contains_key(spec_index) {
                    package_scaffolding.items.insert(
                        id.callable.item,
                        ItemScaffolding::Specializations(specs),
                    );
                    self.0.insert(id.callable.package, package_scaffolding);
                    return Err(AnalysisError::DuplicateEntry);
                }
                specs.insert(spec_index, value);
                package_scaffolding.items.insert(
                    id.callable.item,
                    ItemScaffolding::Specializations(specs),
                );
                self.0.insert(id.callable.package, package_scaffolding);
                Ok(())
            }
            Some(ItemScaffolding::NonCallable) => {
                package_scaffolding.items.insert(id.callable.item, ItemScaffolding::NonCallable);
                self.0.insert(id.callable.package, package_scaffolding);
                Err(AnalysisError::MalformedProgram)
            }
            None => {
                let mut specs: IndexMap<SpecializationIndex, ApplicationGeneratorSet> =
                    IndexMap::new();
                specs.insert(spec_index, value);
                package_scaffolding.items.insert(
                    id.callable.item,
                    ItemScaffolding::Specializations(specs),
                );
                self.0.insert(id.callable.package, package_scaffolding);
                Ok(())
            }
        }
    }

    /// Freezes the scaffolding into a compute-properties store, which must
    /// be empty; the scaffolding is left empty.
    pub fn flush(&mut self, target: &mut PackageStoreComputeProperties) -> (r: Result<
        (),
        AnalysisError,
    >)
        ensures
            r is Ok ==> forall|i: int| final(self).0.spec_get(i) is None,
            r is Ok ==> forall|i: int|
                old(self).0.spec_get(i) is Some ==> final(target).0.spec_get(i) is Some,
            r is Ok ==> forall|p: int|
                final(target).0.spec_get(p) is Some ==> old(self).0.spec_get(p) is Some,
            r is Ok ==> forall|p: int, j: int|
                spec_has_stmt(*old(self), p, j) ==> spec_props_has_stmt(*final(target), p, j),
            r is Ok ==> forall|p: int|
                old(self).0.spec_get(p) is Some ==> match final(target).0.spec_get(p) {
                    Some(frozen) => {
                        let source = old(self).0.spec_get(p)->Some_0;
                        &&& frozen.blocks == source.blocks
                        &&& frozen.stmts == source.stmts
                        &&& frozen.exprs == source.exprs
                        &&& spec_items_frozen(source.items, frozen.items)
                    },
                    None => false,
                },
    {
        if target.0.slot_count() != 0 {
            return Err(AnalysisError::DuplicateEntry);
        }
        let mut drain = self.0.drain();
        loop
            invariant_except_break
                0 <= drain.position() <= drain.slots_view().len(),
                drain.slots_view().len() == old(self).0.slots_view().len(),
                forall|j: int|
                    drain.position() <= j < drain.slots_view().len() ==> drain.slots_view()[j]
                        == old(self).0.slots_view()[j],
                forall|i: int|
                    0 <= i < drain.position() && old(self).0.slots_view()[i] is Some
                        ==> target.0.spec_get(i) is Some,
                forall|p: int|
                    0 <= p < drain.position() && old(self).0.slots_view()[p] is Some ==> match
                        target.0.spec_get(p) {
                        Some(frozen) => {
                            let source = old(self).0.slots_view()[p]->Some_0;
                            &&& frozen.blocks == source.blocks
                            &&& frozen.stmts == source.stmts
                            &&& frozen.exprs == source.exprs
                            &&& spec_items_frozen(source.items, frozen.items)
                        },
                        None => false,
                    },
                forall|p: int|
                    #[trigger] target.0.spec_get(p) is Some ==> 0 <= p < drain.position() && old(
                        self,
                    ).0.slots_view()[p] is Some,
            ensures
                forall|i: int|
                    old(self).0.spec_get(i) is Some ==> target.0.spec_get(i) is Some,
                forall|p: int|
                    #[trigger] target.0.spec_get(p) is Some ==> old(self).0.spec_get(p) is Some,
                forall|p: int|
                    old(self).0.spec_get(p) is Some ==> match target.0.spec_get(p) {
                        Some(frozen) => {
                            let source = old(self).0.spec_get(p)->Some_0;
                            &&& frozen.blocks == source.blocks
                            &&& frozen.stmts == source.stmts
                            &&& frozen.exprs == source.exprs
                            &&& spec_items_frozen(source.items, frozen.items)
                        },
                        None => false,
                    },
            decreases drain.slots_view().len() - drain.position(),
        {
            let ghost pre_slots = drain.slots_view();
            let ghost pre_position = drain.position();
            proof {
                crate::index_map::lemma_first_filled_prefix_none(pre_slots, pre_position);
            }
            match drain.next() {
                Some((package_id, package_scaffolding)) => {
                    let package_properties = match freeze_package(package_scaffolding) {
                        Ok(p) => p,
                        Err(e) => {
                            return Err(e);
                        }
                    };
                    target.0.insert(package_id, package_properties);
                    proof {
                        let first = crate::index_map::spec_first_filled(pre_slots, pre_position);
                        assert forall|i: int|
                            0 <= i < drain.position() && old(self).0.slots_view()[i] is Some
                                implies target.0.spec_get(i) is Some by {
                            if pre_position <= i < first {
                                assert(pre_slots[i] is None);
                            }
                        }
                        assert forall|p: int|
                            0 <= p < drain.position() && old(self).0.slots_view()[p] is Some
                                implies match target.0.spec_get(p) {
                                Some(frozen) => {
                                    let source = old(self).0.slots_view()[p]->Some_0;
                                    &&& frozen.blocks == source.blocks
                                    &&& frozen.stmts == source.stmts
                                    &&& frozen.exprs == source.exprs
                                    &&& spec_items_frozen(source.items, frozen.items)
                                },
                                None => false,
                            } by {
                            if pre_position <= p < first {
                                assert(pre_slots[p] is None);
                            }
                        }
                    }
                }
                None => {
                    proof {
                        assert forall|i: int| old(self).0.spec_get(i) is Some implies target
                            .0.spec_get(i) is Some by {
                            if pre_position <= i < pre_slots.len() {
                                assert(pre_slots[i] is None);
                            }
                        }
                        assert forall|p: int|
                            old(self).0.spec_get(p) is Some implies match target.0.spec_get(p) {
                            Some(frozen) => {
                                let source = old(self).0.spec_get(p)->Some_0;
                                &&& frozen.blocks == source.blocks
                                &&& frozen.stmts == source.stmts
                                &&& frozen.exprs == source.exprs
                                &&& spec_items_frozen(source.items, frozen.items)
                            },
                            None => false,
                        } by {
                            if pre_position <= p < pre_slots.len() {
                                assert(pre_slots[p] is None);
                            }
                        }
                    }
                    break ;
                }
            }
        }
        Ok(())
    }

    /// Thaws a compute-properties store back into this scaffolding, which
    /// must be empty; the store is left empty.
    pub fn take_from(&mut self, source: &mut PackageStoreComputeProperties) -> (r: Result<
        (),
        AnalysisError,
    >)
        ensures
            r is Ok ==> forall|i: int| final(source).0.spec_get(i) is None,
            r is Ok ==> forall|p: int|
                final(self).0.spec_get(p) is Some ==> old(source).0.spec_get(p) is Some,
            r is Ok ==> forall|p: int|
                old(source).0.spec_get(p) is Some ==> match final(self).0.spec_get(p) {
                    Some(thawed) => {
                        let frozen = old(source).0.spec_get(p)->Some_0;
                        &&& thawed.blocks == frozen.blocks
                        &&& thawed.stmts == frozen.stmts
                        &&& thawed.exprs == frozen.exprs
                        &&& spec_items_frozen(thawed.items, frozen.items)
                    },
                    None => false,
                },
    {
        if self.0.slot_count() != 0 {
            return Err(AnalysisError::DuplicateEntry);
        }
        let mut drain = source.0.drain();
        loop
            invariant_except_break
                0 <= drain.position() <= drain.slots_view().len(),
                drain.slots_view().len() == old(source).0.slots_view().len(),
                forall|j: int|
                    drain.position() <= j < drain.slots_view().len() ==> drain.slots_view()[j]
                        == old(source).0.slots_view()[j],
                forall|p: int|
                    0 <= p < drain.position() && old(source).0.slots_view()[p] is Some ==> match
                        self.0.spec_get(p) {
                        Some(thawed) => {
                            let frozen = old(source).0.slots_view()[p]->Some_0;
                            &&& thawed.blocks == frozen.blocks
                            &&& thawed.stmts == frozen.stmts
                            &&& thawed.exprs == frozen.exprs
                            &&& spec_items_frozen(thawed.items, frozen.items)
                        },
                        None => false,
                    },
                forall|p: int|
                    #[trigger] self.0.spec_get(p) is Some ==> 0 <= p < drain.position() && old(
                        source,
                    ).0.slots_view()[p] is Some,
            ensures
                forall|p: int|
                    #[trigger] self.0.spec_get(p) is Some ==> old(source).0.spec_get(p) is Some,
                forall|p: int|
                    old(source).0.spec_get(p) is Some ==> match self.0.spec_get(p) {
                        Some(thawed) => {
                            let frozen = old(source).0.spec_get(p)->Some_0;
                            &&& thawed.blocks == frozen.blocks
                            &&& thawed.stmts == frozen.stmts
                            &&& thawed.exprs == frozen.exprs
                            &&& spec_items_frozen(thawed.items, frozen.items)
                        },
                        None => false,
                    },
            decreases drain.slots_view().len() - drain.position(),
        {
            let ghost pre_slots = drain.slots_view();
            let ghost pre_position = drain.position();
            proof {
                crate::index_map::lemma_first_filled_prefix_none(pre_slots, pre_position);
            }
            match drain.next() {
                Some((package_id, package_properties)) => {
                    let package_scaffolding = thaw_package(package_properties);
                    self.0.insert(package_id, package_scaffolding);
                    proof {
                        let first = crate::index_map::spec_first_filled(pre_slots, pre_position);
                        assert forall|p: int|
                            0 <= p < drain.position() && old(source).0.slots_view()[p] is Some
                                implies match self.0.spec_get(p) {
                                Some(thawed) => {
                                    let frozen = old(source).0.slots_view()[p]->Some_0;
                                    &&& thawed.blocks == frozen.blocks
                                    &&& thawed.stmts == frozen.stmts
                                    &&& thawed.exprs == frozen.exprs
                                    &&& spec_items_frozen(thawed.items, frozen.items)
                                },
                                None => false,
                            } by {
                            if pre_position <= p < first {
                                assert(pre_slots[p] is None);
                            }
                        }
                    }
                }
                None => {
                    proof {
                        assert forall|p: int|
                            old(source).0.spec_get(p) is Some implies match self.0.spec_get(p) {
                            Some(thawed) => {
                                let frozen = old(source).0.spec_get(p)->Some_0;
                                &&& thawed.blocks == frozen.blocks
                                &&& thawed.stmts == frozen.stmts
                                &&& thawed.exprs == frozen.exprs
                                &&& spec_items_frozen(thawed.items, frozen.items)
                            },
                            None => false,
                        } by {
                            if pre_position <= p < pre_slots.len() {
                                assert(pre_slots[p] is None);
                            }
                        }
                    }
                    break ;
                }
            }
        }
        Ok(())
    }
}

/// Whether a frozen item entry is the frozen form of a scaffolding item
/// entry: non-callables correspond, and a callable's named slots hold the
/// first four entries of the specialization table, the body being mandatory.
pub open spec fn spec_item_frozen(
    scaffolded: ItemScaffolding,
    frozen: ItemComputeProperties,
) -> bool {
    match scaffolded {
        ItemScaffolding::NonCallable => frozen == ItemComputeProperties::NonCallable,
        ItemScaffolding::Specializations(specs) => match frozen {
            ItemComputeProperties::Callable(callable) => {
                &&& specs.spec_get(0) == Some(callable.body)
                &&& specs.spec_get(1) == callable.adj
                &&& specs.spec_get(2) == callable.ctl
                &&& specs.spec_get(3) == callable.ctl_adj
            },
            _ => false,
        },
    }
}

/// Whether a frozen items table is the frozen form of a scaffolding items
/// table, entry by entry, with no entry appearing on one side only.
pub open spec fn spec_items_frozen(
    scaffolded: IndexMap<LocalItemId, ItemScaffolding>,
    frozen: IndexMap<LocalItemId, ItemComputeProperties>,
) -> bool {
    forall|i: int|
        match #[trigger] scaffolded.spec_get(i) {
            Some(item) => match frozen.spec_get(i) {
                Some(frozen_item) => spec_item_frozen(item, frozen_item),
                None => false,
            },
            None => frozen.spec_get(i) is None,
        }
}

/// Converts one package's scaffolding into its frozen form: the per-entity
/// maps move unchanged, and each callable's specializations are placed into
/// their named slots, the body being mandatory.
fn freeze_package(package_scaffolding: PackageScaffolding) -> (r: Result<
    PackageComputeProperties,
    AnalysisError,
>)
    ensures
        match r {
            Ok(properties) => {
                &&& properties.blocks == package_scaffolding.blocks
                &&& properties.stmts == package_scaffolding.stmts
                &&& properties.exprs == package_scaffolding.exprs
                &&& spec_items_frozen(package_scaffolding.items, properties.items)
            },
            Err(_) => true,
        },
{
    let PackageScaffolding { mut items, blocks, stmts, exprs } = package_scaffolding;
    let mut frozen_items: IndexMap<LocalItemId, ItemComputeProperties> = IndexMap::new();
    let mut drain = items.drain();
    loop
        invariant_except_break
            0 <= drain.position() <= drain.slots_view().len(),
            drain.slots_view().len() == package_scaffolding.items.slots_view().len(),
            forall|j: int|
                drain.position() <= j < drain.slots_view().len() ==> drain.slots_view()[j]
                    == package_scaffolding.items.slots_view()[j],
            forall|i: int|
                0 <= i < drain.position() ==> match package_scaffolding.items.spec_get(i) {
                    Some(item) => match #[trigger] frozen_items.spec_get(i) {
                        Some(frozen_item) => spec_item_frozen(item, frozen_item),
                        None => false,
                    },
                    None => frozen_items.spec_get(i) is None,
                },
            forall|i: int|
                !(0 <= i < drain.position()) ==> #[trigger] frozen_items.spec_get(i) is None,
        ensures
            spec_items_frozen(package_scaffolding.items, frozen_items),
        decreases drain.slots_view().len() - drain.position(),
    {
        let ghost pre_slots = drain.slots_view();
        let ghost pre_position = drain.position();
        proof {
            crate::index_map::lemma_first_filled_prefix_none(pre_slots, pre_position);
        }
        match drain.next() {
            Some((item_id, item_scaffolding)) => {
                let ghost scaffolded = item_scaffolding;
                let item_properties = match item_scaffolding {
                    ItemScaffolding::NonCallable => ItemComputeProperties::NonCallable,
                    ItemScaffolding::Specializations(mut specs) => {
                        let body = match specs.take(SpecializationIndex(0)) {
                            Some(body) => body,
                            None => {
                                return Err(AnalysisError::MalformedProgram);
                            }
                        };
                        let adj = specs.take(SpecializationIndex(1));
                        let ctl = specs.take(SpecializationIndex(2));
                        let ctl_adj = specs.take(SpecializationIndex(3));
                        ItemComputeProperties::Callable(
                            CallableComputeProperties { body, adj, ctl, ctl_adj },
                        )
                    }
                };
                proof {
                    assert(spec_item_frozen(scaffolded, item_properties));
                }
                frozen_items.insert(item_id, item_properties);
                proof {
                    let first = crate::index_map::spec_first_filled(pre_slots, pre_position);
                    assert forall|i: int|
                        0 <= i < drain.position() implies match package_scaffolding
                        .items.spec_get(i) {
                        Some(item) => match #[trigger] frozen_items.spec_get(i) {
                            Some(frozen_item) => spec_item_frozen(item, frozen_item),
                            None => false,
                        },
                        None => frozen_items.spec_get(i) is None,
                    } by {
                        if pre_position <= i < first {
                            assert(pre_slots[i] is None);
                        }
                    }
                }
            }
            None => {
                proof {
                    assert forall|i: int|
                        match #[trigger] package_scaffolding.items.spec_get(i) {
                            Some(item) => match frozen_items.spec_get(i) {
                                Some(frozen_item) => spec_item_frozen(item, frozen_item),
                                None => false,
                            },
                            None => frozen_items.spec_get(i) is None,
                        } by {
                        if pre_position <= i < pre_slots.len() {
                            assert(pre_slots[i] is None);
                        }
                    }
                }
                break ;
            }
        }
    }
    Ok(PackageComputeProperties { items: frozen_items, blocks, stmts, exprs })
}

/// Converts one package's frozen compute properties back into scaffolding:
/// the per-entity maps move unchanged, and each callable's named slots are
/// placed back into a specialization table.
fn thaw_package(package_properties: PackageComputeProperties) -> (r: PackageScaffolding)
    ensures
        r.blocks == package_properties.blocks,
        r.stmts == package_properties.stmts,
        r.exprs == package_properties.exprs,
        spec_items_frozen(r.items, package_properties.items),
{
    let PackageComputeProperties { mut items, blocks, stmts, exprs } = package_properties;
    let mut thawed_items: IndexMap<LocalItemId, ItemScaffolding> = IndexMap::new();
    let mut drain = items.drain();
    loop
        invariant_except_break
            0 <= drain.position() <= drain.slots_view().len(),
            drain.slots_view().len() == package_properties.items.slots_view().len(),
            forall|j: int|
                drain.position() <= j < drain.slots_view().len() ==> drain.slots_view()[j]
                    == package_properties.items.slots_view()[j],
            forall|i: int|
                0 <= i < drain.position() ==> match package_properties.items.spec_get(i) {
                    Some(frozen_item) => match #[trigger] thawed_items.spec_get(i) {
                        Some(item) => spec_item_frozen(item, frozen_item),
                        None => false,
                    },
                    None => thawed_items.spec_get(i) is None,
                },
            forall|i: int|
                !(0 <= i < drain.position()) ==> #[trigger] thawed_items.spec_get(i) is None,
        ensures
            spec_items_frozen(thawed_items, package_properties.items),
        decreases drain.slots_view().len() - drain.position(),
    {
        let ghost pre_slots = drain.slots_view();
        let ghost pre_position = drain.position();
        proof {
            crate::index_map::lemma_first_filled_prefix_none(pre_slots, pre_position);
        }
        match drain.next() {
            Some((item_id, item_properties)) => {
                let ghost frozen = item_properties;
                let item_scaffolding = match item_properties {
                    ItemComputeProperties::NonCallable => ItemScaffolding::NonCallable,
                    ItemComputeProperties::Callable(callable) => {
                        let CallableComputeProperties { body, adj, ctl, ctl_adj } = callable;
                        let mut specs: IndexMap<SpecializationIndex, ApplicationGeneratorSet> =
                            IndexMap::new();
                        specs.insert(SpecializationIndex(0), body);
                        if let Some(adj) = adj {
                            specs.insert(SpecializationIndex(1), adj);
                        }
                        if let Some(ctl) = ctl {
                            specs.insert(SpecializationIndex(2), ctl);
                        }
                        if let Some(ctl_adj) = ctl_adj {
                            specs.insert(SpecializationIndex(3), ctl_adj);
                        }
                        ItemScaffolding::Specializations(specs)
                    }
                };
                proof {
                    assert(spec_item_frozen(item_scaffolding, frozen));
                }
                thawed_items.insert(item_id, item_scaffolding);
                proof {
                    let first = crate::index_map::spec_first_filled(pre_slots, pre_position);
                    assert forall|i: int|
                        0 <= i < drain.position() implies match package_properties
                        .items.spec_get(i) {
                        Some(frozen_item) => match #[trigger] thawed_items.spec_get(i) {
                            Some(item) => spec_item_frozen(item, frozen_item),
                            None => false,
                        },
                        None => thawed_items.spec_get(i) is None,
                    } by {
                        if pre_position <= i < first {
                            assert(pre_slots[i] is None);
                        }
                    }
                }
            }
            None => {
                proof {
                    assert forall|i: int|
                        match #[trigger] thawed_items.spec_get(i) {
                            Some(item) => match package_properties.items.spec_get(i) {
                                Some(frozen_item) => spec_item_frozen(item, frozen_item),
                                None => false,
                            },
                            None => true,
                        } by {
                        if pre_position <= i < pre_slots.len() {
                            assert(pre_slots[i] is None);
                        }
                    }
                    assert forall|i: int|
                        package_properties.items.spec_get(i) is Some
                            implies #[trigger] thawed_items.spec_get(i) is Some by {
                        if pre_position <= i < pre_slots.len() {
                            assert(pre_slots[i] is None);
                        }
                    }
                }
                break ;
            }
        }
    }
    PackageScaffolding { items: thawed_items, blocks, stmts, exprs }
}

/// The frozen analysis entry of one callable: the generator set of each of
/// its compiled specializations.
#[derive(Debug)]
pub struct CallableComputeProperties {
    pub body: ApplicationGeneratorSet,
    pub adj: Option<ApplicationGeneratorSet>,
    pub ctl: Option<ApplicationGeneratorSet>,
    pub ctl_adj: Option<ApplicationGeneratorSet>,
}

/// The frozen analysis entry of one item.
#[derive(Debug)]
pub enum ItemComputeProperties {
    NonCallable,
    Callable(CallableComputeProperties),
}

/// The frozen analysis results of one package: every item, block, statement
/// and expression mapped to its application generator set.
pub struct PackageComputeProperties {
    pub items: IndexMap<LocalItemId, ItemComputeProperties>,
    pub blocks: IndexMap<BlockId, ApplicationGeneratorSet>,
    pub stmts: IndexMap<StmtId, ApplicationGeneratorSet>,
    pub exprs: IndexMap<ExprId, ApplicationGeneratorSet>,
}

impl PackageComputeProperties {
    pub fn new() -> (r: Self)
        ensures
            forall|i: int| r.items.spec_get(i) is None,
            forall|i: int| r.blocks.spec_get(i) is None,
            forall|i: int| r.stmts.spec_get(i) is None,
            forall|i: int| r.exprs.spec_get(i) is None,
    {
        PackageComputeProperties {
            items: IndexMap::new(),
            blocks: IndexMap::new(),
            stmts: IndexMap::new(),
            exprs: IndexMap::new(),
        }
    }

    pub fn find_block(&self, id: BlockId) -> (r: Option<&ApplicationGeneratorSet>)
        ensures
            match r {
                Some(set) => self.blocks.spec_get(id.idx()) == Some(*set),
                None => self.blocks.spec_get(id.idx()) is None,
            },
    {
        self.blocks.get(id)
    }

    pub fn find_stmt(&self, id: StmtId) -> (r: Option<&ApplicationGeneratorSet>)
        ensures
            match r {
                Some(set) => self.stmts.spec_get(id.idx()) == Some(*set),
                None => self.stmts.spec_get(id.idx()) is None,
            },
    {
        self.stmts.get(id)
    }

    pub fn find_expr(&self, id: ExprId) -> (r: Option<&ApplicationGeneratorSet>)
        ensures
            match r {
                Some(set) => self.exprs.spec_get(id.idx()) == Some(*set),
                None => self.exprs.spec_get(id.idx()) is None,
            },
    {
        self.exprs.get(id)
    }

    pub fn find_item(&self, id: LocalItemId) -> (r: Option<&ItemComputeProperties>)
        ensures
            match r {
                Some(item) => self.items.spec_get(id.idx()) == Some(*item),
                None => self.items.spec_get(id.idx()) is None,
            },
    {
        self.items.get(id)
    }

    /// Empties every table of the package entry.
    pub fn clear(&mut self)
        ensures
            forall|i: int| final(self).items.spec_get(i) is None,
            forall|i: int| final(self).blocks.spec_get(i) is None,
            forall|i: int| final(self).stmts.spec_get(i) is None,
            forall|i: int| final(self).exprs.spec_get(i) is None,
    {
        self.items.clear();
        self.blocks.clear();
        self.stmts.clear();
        self.exprs.clear();
    }
}

/// The frozen, read-only result of a whole analysis run: the compute
/// properties of every package in the store.
pub struct PackageStoreComputeProperties(pub IndexMap<PackageId, PackageComputeProperties>);

impl PackageStoreComputeProperties {
    pub fn new() -> (r: Self)
        ensures
            forall|i: int| r.0.spec_get(i) is None,
    {
        PackageStoreComputeProperties(IndexMap::new())
    }

    pub fn get(&self, id: PackageId) -> (r: Option<&PackageComputeProperties>)
        ensures
            match r {
                Some(package) => self.0.spec_get(id.idx()) == Some(*package),
                None => self.0.spec_get(id.idx()) is None,
            },
    {
        self.0.get(id)
    }
}

} // verus!
