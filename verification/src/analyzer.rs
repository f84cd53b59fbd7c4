//! The top-level runtime-capabilities analyzer: runs cycle detection, then
//! the core analysis over every package of a store, and freezes the results
//! into an immutable compute-properties store.

use crate::common::AnalysisError;
use crate::cycle_detection::detect_specializations_with_cycles;
use crate::fir::{LocalItemId, PackageId, PackageStore};
use crate::index_map::Idx;
use crate::rca::{analyze_package, analyze_specialization_with_cycles};
use crate::common::GlobalSpecId;
use crate::fir::{FunctorSetValue, StoreItemId};
use crate::scaffolding::{
    spec_has_stmt, spec_props_block_entry, spec_props_expr_entry, spec_props_has_stmt,
    spec_props_item_entry, spec_props_stmt_entry, ItemComputeProperties, ItemScaffolding,
    PackageStoreComputeProperties, PackageStoreScaffolding,
};
use vstd::prelude::*;

verus! {

/// A runtime-capabilities analyzer holding the frozen analysis results of a
/// package store.
pub struct Analyzer {
    pub compute_properties: PackageStoreComputeProperties,
}

impl Analyzer {
    /// Analyzes a whole package store: packages are processed in identifier
    /// order, so dependencies are analyzed before their dependents. For each
    /// package, the specializations taking part in call cycles are detected
    /// and pre-seeded with conservative tables first, which keeps the main
    /// pass finite; the main pass then analyzes every item and top-level
    /// statement. A run either completes every package or reports the first
    /// internal-invariant violation and produces nothing: on success every
    /// package of the store has a result entry, and every statement of every
    /// package has a recorded generator set, so the capability checker's
    /// failure case cannot arise on these results.
    pub fn new(package_store: &PackageStore) -> (r: Result<Analyzer, AnalysisError>)
        ensures
            match r {
                Ok(analyzer) => {
                    &&& forall|p: int|
                        package_store.packages.spec_get(p) is Some
                            ==> analyzer.compute_properties.0.spec_get(p) is Some
                    &&& forall|p: int, j: int|
                        (match package_store.packages.spec_get(p) {
                            Some(package) => package.stmts.spec_get(j) is Some,
                            None => false,
                        }) ==> spec_props_has_stmt(analyzer.compute_properties, p, j)
                },
                Err(_) => true,
            },
    {
        let mut scaffolding = PackageStoreScaffolding::new();
        scaffolding.initialize_packages(package_store);

        // Pre-seed every cycled specialization before the main pass.
        let package_count = package_store.packages.slot_count();
        let mut i: usize = 0;
        while i < package_count
            invariant
                forall|p: int|
                    package_store.packages.spec_get(p) is Some ==> scaffolding.0.spec_get(
                        p,
                    ) is Some,
            decreases package_count - i,
        {
            let package_id = PackageId(i);
            if let Some(package) = package_store.get(package_id) {
                let cycles = match detect_specializations_with_cycles(package_id, package) {
                    Ok(cycles) => cycles,
                    Err(e) => {
                        return Err(e);
                    }
                };
                let mut j: usize = 0;
                while j < cycles.len()
                    invariant
                        forall|p: int|
                            package_store.packages.spec_get(p) is Some ==> scaffolding.0.spec_get(
                                p,
                            ) is Some,
                    decreases cycles@.len() - j,
                {
                    match analyze_specialization_with_cycles(
                        package_store,
                        &mut scaffolding,
                        cycles[j],
                    ) {
                        Ok(()) => (),
                        Err(e) => {
                            return Err(e);
                        }
                    }
                    j += 1;
                }
            }
            i += 1;
        }

        // The main pass, in dependency order.
        let mut k: usize = 0;
        while k < package_count
            invariant
                package_count == package_store.packages.slots_view().len(),
                forall|p: int|
                    package_store.packages.spec_get(p) is Some ==> scaffolding.0.spec_get(
                        p,
                    ) is Some,
                forall|p: int, j: int|
                    0 <= p < k && (match package_store.packages.spec_get(p) {
                        Some(package) => package.stmts.spec_get(j) is Some,
                        None => false,
                    }) ==> spec_has_stmt(scaffolding, p, j),
            decreases package_count - k,
        {
            let package_id = PackageId(k);
            let ghost before_package = scaffolding;
            let package_present = package_store.packages.contains_key(package_id);
            if package_present {
                match analyze_package(package_store, &mut scaffolding, package_id) {
                    Ok(()) => (),
                    Err(e) => {
                        return Err(e);
                    }
                }
            }
            k += 1;
            proof {
                assert forall|p: int, j: int|
                    0 <= p < k && (match package_store.packages.spec_get(p) {
                        Some(package) => package.stmts.spec_get(j) is Some,
                        None => false,
                    }) implies spec_has_stmt(scaffolding, p, j) by {
                    if p < k - 1 {
                        assert(spec_has_stmt(before_package, p, j));
                    }
                }
            }
        }

        let mut compute_properties = PackageStoreComputeProperties::new();
        match scaffolding.flush(&mut compute_properties) {
            Ok(()) => (),
            Err(e) => {
                return Err(e);
            }
        }
        Ok(Analyzer { compute_properties })
    }

    /// The frozen analysis results.
    pub fn get_package_store_compute_properties(&self) -> (r: &PackageStoreComputeProperties)
        ensures
            *r == self.compute_properties,
    {
        &self.compute_properties
    }

    /// Consumes the analyzer, yielding the frozen analysis results.
    pub fn into_package_store_compute_properties(self) -> (r: PackageStoreComputeProperties)
        ensures
            r == self.compute_properties,
    {
        self.compute_properties
    }

    /// Clears exactly one package's results and re-derives them against the
    /// given store, leaving every other package's statement entries exactly
    /// as they were; used for incremental re-compilation of a single
    /// package. On success the named package's statements are covered anew.
    pub fn update_package_compute_properties(
        &mut self,
        package_store: &PackageStore,
        package_id: PackageId,
    ) -> (r: Result<(), AnalysisError>)
        ensures
            r is Ok ==> forall|p: int, j: int|
                p != package_id.idx() && spec_props_stmt_entry(
                    old(self).compute_properties,
                    p,
                    j,
                ) is Some ==> spec_props_stmt_entry(final(self).compute_properties, p, j)
                    == spec_props_stmt_entry(old(self).compute_properties, p, j),
            r is Ok ==> forall|p: int, j: int|
                p != package_id.idx() && spec_props_block_entry(
                    old(self).compute_properties,
                    p,
                    j,
                ) is Some ==> spec_props_block_entry(final(self).compute_properties, p, j)
                    == spec_props_block_entry(old(self).compute_properties, p, j),
            r is Ok ==> forall|p: int, j: int|
                p != package_id.idx() && spec_props_expr_entry(
                    old(self).compute_properties,
                    p,
                    j,
                ) is Some ==> spec_props_expr_entry(final(self).compute_properties, p, j)
                    == spec_props_expr_entry(old(self).compute_properties, p, j),
            r is Ok ==> forall|p: int, i: int|
                p != package_id.idx() ==> match #[trigger] spec_props_item_entry(
                    old(self).compute_properties,
                    p,
                    i,
                ) {
                    Some(ItemComputeProperties::Callable(before_callable)) => match
                        spec_props_item_entry(final(self).compute_properties, p, i) {
                        Some(ItemComputeProperties::Callable(after_callable)) => {
                            &&& after_callable.body == before_callable.body
                            &&& (before_callable.adj is Some ==> after_callable.adj
                                == before_callable.adj)
                            &&& (before_callable.ctl is Some ==> after_callable.ctl
                                == before_callable.ctl)
                            &&& (before_callable.ctl_adj is Some ==> after_callable.ctl_adj
                                == before_callable.ctl_adj)
                        },
                        _ => false,
                    },
                    _ => true,
                },
            r is Ok ==> forall|j: int|
                (match package_store.packages.spec_get(package_id.idx()) {
                    Some(package) => package.stmts.spec_get(j) is Some,
                    None => false,
                }) ==> spec_props_has_stmt(final(self).compute_properties, package_id.idx(), j),
    {
        let mut cleared = match self.compute_properties.0.take(package_id) {
            Some(package_properties) => package_properties,
            None => {
                return Err(AnalysisError::MalformedProgram);
            }
        };
        cleared.clear();
        self.compute_properties.0.insert(package_id, cleared);
        let ghost cleared_props = self.compute_properties;

        // Thaw the whole store back into scaffolding, re-analyze the cleared
        // package, and freeze again.
        let mut scaffolding = PackageStoreScaffolding::new();
        match scaffolding.take_from(&mut self.compute_properties) {
            Ok(()) => (),
            Err(e) => {
                return Err(e);
            }
        }
        let ghost thawed = scaffolding;
        let package = match package_store.get(package_id) {
            Some(package) => package,
            None => {
                return Err(AnalysisError::MalformedProgram);
            }
        };
        let cycles = match detect_specializations_with_cycles(package_id, package) {
            Ok(cycles) => cycles,
            Err(e) => {
                return Err(e);
            }
        };
        let mut j: usize = 0;
        while j < cycles.len()
            invariant
                crate::scaffolding::spec_stmt_entries_preserved(thawed, scaffolding),
                crate::scaffolding::spec_block_entries_preserved(thawed, scaffolding),
                crate::scaffolding::spec_expr_entries_preserved(thawed, scaffolding),
                crate::scaffolding::spec_specs_preserved(thawed, scaffolding),
            decreases cycles@.len() - j,
        {
            match analyze_specialization_with_cycles(package_store, &mut scaffolding, cycles[j]) {
                Ok(()) => (),
                Err(e) => {
                    return Err(e);
                }
            }
            j += 1;
        }
        match analyze_package(package_store, &mut scaffolding, package_id) {
            Ok(()) => (),
            Err(e) => {
                return Err(e);
            }
        }
        let ghost analyzed = scaffolding;
        match scaffolding.flush(&mut self.compute_properties) {
            Ok(()) => (),
            Err(e) => {
                return Err(e);
            }
        }
        proof {
            assert forall|p: int, j2: int|
                p != package_id.idx() && spec_props_stmt_entry(
                    old(self).compute_properties,
                    p,
                    j2,
                ) is Some implies spec_props_stmt_entry(self.compute_properties, p, j2)
                == spec_props_stmt_entry(old(self).compute_properties, p, j2) by {
                assert(spec_props_stmt_entry(cleared_props, p, j2) == spec_props_stmt_entry(
                    old(self).compute_properties,
                    p,
                    j2,
                ));
                assert(crate::scaffolding::spec_stmt_entry(thawed, p, j2)
                    == spec_props_stmt_entry(cleared_props, p, j2));
                assert(crate::scaffolding::spec_has_stmt(thawed, p, j2));
                assert(crate::scaffolding::spec_stmt_entry(analyzed, p, j2)
                    == crate::scaffolding::spec_stmt_entry(thawed, p, j2));
            }
            assert forall|p: int, j2: int|
                p != package_id.idx() && spec_props_block_entry(
                    old(self).compute_properties,
                    p,
                    j2,
                ) is Some implies spec_props_block_entry(self.compute_properties, p, j2)
                == spec_props_block_entry(old(self).compute_properties, p, j2) by {
                assert(spec_props_block_entry(cleared_props, p, j2) == spec_props_block_entry(
                    old(self).compute_properties,
                    p,
                    j2,
                ));
                assert(crate::scaffolding::spec_block_entry(thawed, p, j2)
                    == spec_props_block_entry(cleared_props, p, j2));
                assert(crate::scaffolding::spec_block_entry(thawed, p, j2) is Some);
                assert(crate::scaffolding::spec_block_entry(analyzed, p, j2)
                    == crate::scaffolding::spec_block_entry(thawed, p, j2));
            }
            assert forall|p: int, j2: int|
                p != package_id.idx() && spec_props_expr_entry(
                    old(self).compute_properties,
                    p,
                    j2,
                ) is Some implies spec_props_expr_entry(self.compute_properties, p, j2)
                == spec_props_expr_entry(old(self).compute_properties, p, j2) by {
                assert(spec_props_expr_entry(cleared_props, p, j2) == spec_props_expr_entry(
                    old(self).compute_properties,
                    p,
                    j2,
                ));
                assert(crate::scaffolding::spec_expr_entry(thawed, p, j2)
                    == spec_props_expr_entry(cleared_props, p, j2));
                assert(crate::scaffolding::spec_expr_entry(thawed, p, j2) is Some);
                assert(crate::scaffolding::spec_expr_entry(analyzed, p, j2)
                    == crate::scaffolding::spec_expr_entry(thawed, p, j2));
            }
            assert forall|p: int, i: int|
                p != package_id.idx() implies match #[trigger] spec_props_item_entry(
                old(self).compute_properties,
                p,
                i,
            ) {
                Some(ItemComputeProperties::Callable(before_callable)) => match
                    spec_props_item_entry(self.compute_properties, p, i) {
                    Some(ItemComputeProperties::Callable(after_callable)) => {
                        &&& after_callable.body == before_callable.body
                        &&& (before_callable.adj is Some ==> after_callable.adj
                            == before_callable.adj)
                        &&& (before_callable.ctl is Some ==> after_callable.ctl
                            == before_callable.ctl)
                        &&& (before_callable.ctl_adj is Some ==> after_callable.ctl_adj
                            == before_callable.ctl_adj)
                    },
                    _ => false,
                },
                _ => true,
            } by {
                if let Some(ItemComputeProperties::Callable(before_callable)) =
                    spec_props_item_entry(old(self).compute_properties, p, i) {
                    assert(spec_props_item_entry(cleared_props, p, i) == spec_props_item_entry(
                        old(self).compute_properties,
                        p,
                        i,
                    ));
                    assert(thawed.0.spec_get(p) is Some);
                    let thawed_pkg = thawed.0.spec_get(p)->Some_0;
                    let frozen_pkg = cleared_props.0.spec_get(p)->Some_0;
                    assert(crate::scaffolding::spec_items_frozen(
                        thawed_pkg.items,
                        frozen_pkg.items,
                    ));
                    assert(match thawed_pkg.items.spec_get(i) {
                        Some(item) => crate::scaffolding::spec_item_frozen(
                            item,
                            ItemComputeProperties::Callable(before_callable),
                        ),
                        None => false,
                    });
                    old(self).compute_properties.0.lemma_slots_len_bound();
                    let before_pkg = old(self).compute_properties.0.spec_get(p)->Some_0;
                    before_pkg.items.lemma_slots_len_bound();
                    let pid = PackageId::from_idx(p);
                    let iid = LocalItemId::from_idx(i);
                    assert(pid.idx() == p && iid.idx() == i);
                    let gid_body = GlobalSpecId {
                        callable: StoreItemId { package: pid, item: iid },
                        functor_set_value: FunctorSetValue::Empty,
                    };
                    assert(thawed.spec_find_specialization(gid_body) == Some(
                        before_callable.body,
                    ));
                    assert(analyzed.spec_find_specialization(gid_body) == Some(
                        before_callable.body,
                    ));
                    assert(analyzed.0.spec_get(p) is Some);
                    let analyzed_pkg = analyzed.0.spec_get(p)->Some_0;
                    assert(analyzed_pkg.items.spec_get(i) is Some);
                    let analyzed_item = analyzed_pkg.items.spec_get(i)->Some_0;
                    assert(analyzed_item is Specializations);
                    let final_pkg = self.compute_properties.0.spec_get(p)->Some_0;
                    assert(crate::scaffolding::spec_items_frozen(
                        analyzed_pkg.items,
                        final_pkg.items,
                    ));
                    assert(match final_pkg.items.spec_get(i) {
                        Some(after_item) => crate::scaffolding::spec_item_frozen(
                            analyzed_item,
                            after_item,
                        ),
                        None => false,
                    });
                    if before_callable.adj is Some {
                        let gid_adj = GlobalSpecId {
                            callable: StoreItemId { package: pid, item: iid },
                            functor_set_value: FunctorSetValue::Adj,
                        };
                        assert(thawed.spec_find_specialization(gid_adj)
                            == before_callable.adj);
                        assert(analyzed.spec_find_specialization(gid_adj)
                            == before_callable.adj);
                    }
                    if before_callable.ctl is Some {
                        let gid_ctl = GlobalSpecId {
                            callable: StoreItemId { package: pid, item: iid },
                            functor_set_value: FunctorSetValue::Ctl,
                        };
                        assert(thawed.spec_find_specialization(gid_ctl)
                            == before_callable.ctl);
                        assert(analyzed.spec_find_specialization(gid_ctl)
                            == before_callable.ctl);
                    }
                    if before_callable.ctl_adj is Some {
                        let gid_ctl_adj = GlobalSpecId {
                            callable: StoreItemId { package: pid, item: iid },
                            functor_set_value: FunctorSetValue::CtlAdj,
                        };
                        assert(thawed.spec_find_specialization(gid_ctl_adj)
                            == before_callable.ctl_adj);
                        assert(analyzed.spec_find_specialization(gid_ctl_adj)
                            == before_callable.ctl_adj);
                    }
                }
            }
        }
        Ok(())
    }
}

} // verus!
