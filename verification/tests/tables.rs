//! Applications tables: intrinsic derivation from signatures, call-site
//! derivation, and the monotonicity they exhibit.

use rca::analyzer::Analyzer;
use rca::applications::AppIdx;
use rca::applications::ApplicationInstanceIndex;
use rca::compute::ApplicationGeneratorSet;
use rca::compute::ComputeKind;
use rca::compute::QuantumProperties;
use rca::compute::RuntimeKind;
use rca::compute::ValueKind;
use rca::compute::USE_OF_DYNAMIC_INT;
use rca::compute::USE_OF_DYNAMIC_QUBIT;
use rca::fir::CallableDecl;
use rca::fir::CallableImpl;
use rca::fir::CallableKind;
use rca::fir::Ident;
use rca::fir::Item;
use rca::fir::ItemKind;
use rca::fir::LocalItemId;
use rca::fir::LocalVarId;
use rca::fir::Package;
use rca::fir::PackageId;
use rca::fir::PackageStore;
use rca::fir::Pat;
use rca::fir::PatId;
use rca::fir::PatKind;
use rca::fir::Prim;
use rca::fir::Ty;
use rca::scaffolding::ItemComputeProperties;

/// A store holding one intrinsic callable with a two-integer tuple input.
fn intrinsic_store(kind: CallableKind, output: Ty) -> PackageStore {
    let mut package = Package::new();
    package.pats.insert(
        PatId(0),
        Pat {
            ty: Ty::Prim(Prim::Int),
            kind: PatKind::Bind(Ident { id: LocalVarId(0) }),
        },
    );
    package.pats.insert(
        PatId(1),
        Pat {
            ty: Ty::Prim(Prim::Qubit),
            kind: PatKind::Bind(Ident { id: LocalVarId(1) }),
        },
    );
    package.pats.insert(
        PatId(2),
        Pat {
            ty: Ty::Tuple(vec![Ty::Prim(Prim::Int), Ty::Prim(Prim::Qubit)]),
            kind: PatKind::Tuple(vec![PatId(0), PatId(1)]),
        },
    );
    package.items.insert(
        LocalItemId(0),
        Item {
            kind: ItemKind::Callable(CallableDecl {
                kind,
                input: PatId(2),
                output,
                implementation: CallableImpl::Intrinsic,
            }),
        },
    );
    let mut store = PackageStore::new();
    store.insert(PackageId(0), package);
    store
}

fn body_table(store: &PackageStore) -> ApplicationGeneratorSet {
    let analyzer = Analyzer::new(store).expect("analysis should succeed");
    let properties = analyzer.get_package_store_compute_properties();
    let package_properties = properties.get(PackageId(0)).expect("entry should exist");
    match package_properties
        .find_item(LocalItemId(0))
        .expect("item should be analyzed")
    {
        ItemComputeProperties::Callable(callable) => callable.body.clone(),
        ItemComputeProperties::NonCallable => panic!("expected a callable entry"),
    }
}

#[test]
fn intrinsic_function_table_derives_from_signature() {
    // An intrinsic function (Int, Qubit) -> Int: inherently classical; each
    // dynamic parameter costs its own type's features and makes the output
    // dynamic.
    let store = intrinsic_store(CallableKind::Function, Ty::Prim(Prim::Int));
    let table = body_table(&store);
    assert_eq!(table.inherent, ComputeKind::Classical);
    assert_eq!(
        table.dynamic_param_applications,
        vec![
            ComputeKind::Quantum(QuantumProperties {
                runtime_features: USE_OF_DYNAMIC_INT,
                value_kind: ValueKind::Element(RuntimeKind::Dynamic),
            }),
            ComputeKind::Quantum(QuantumProperties {
                runtime_features: USE_OF_DYNAMIC_QUBIT,
                value_kind: ValueKind::Element(RuntimeKind::Dynamic),
            }),
        ]
    );
}

#[test]
fn intrinsic_operation_table_is_inherently_quantum() {
    // An intrinsic operation (Int, Qubit) -> Result: inherently quantum and
    // dynamic (the output is neither unit nor a qubit) with no features.
    let store = intrinsic_store(CallableKind::Operation, Ty::Prim(Prim::Result));
    let table = body_table(&store);
    assert_eq!(
        table.inherent,
        ComputeKind::Quantum(QuantumProperties {
            runtime_features: 0,
            value_kind: ValueKind::Element(RuntimeKind::Dynamic),
        })
    );
    assert_eq!(table.dynamic_param_applications.len(), 2);
}

#[test]
fn intrinsic_qubit_returning_operation_is_static() {
    // An intrinsic operation returning a qubit is not a source of dynamism.
    let store = intrinsic_store(CallableKind::Operation, Ty::Prim(Prim::Qubit));
    let table = body_table(&store);
    assert_eq!(
        table.inherent,
        ComputeKind::Quantum(QuantumProperties {
            runtime_features: 0,
            value_kind: ValueKind::Element(RuntimeKind::Static),
        })
    );
}

#[test]
fn intrinsic_derivation_is_idempotent() {
    // Deriving the table for the same intrinsic signature twice yields
    // bit-identical tables.
    let store = intrinsic_store(CallableKind::Function, Ty::Prim(Prim::Int));
    let first = body_table(&store);
    let second = body_table(&store);
    assert_eq!(first.inherent, second.inherent);
    assert_eq!(
        first.dynamic_param_applications,
        second.dynamic_param_applications
    );
}

#[test]
fn dynamic_param_applications_cover_inherent_features() {
    // Monotonicity on a derived table: every dynamic-parameter application
    // requires at least the features of the inherent application.
    let store = intrinsic_store(CallableKind::Operation, Ty::Prim(Prim::Result));
    let table = body_table(&store);
    let inherent_features = match table.inherent {
        ComputeKind::Classical => 0,
        ComputeKind::Quantum(properties) => properties.runtime_features,
    };
    for entry in &table.dynamic_param_applications {
        let entry_features = match entry {
            ComputeKind::Classical => 0,
            ComputeKind::Quantum(properties) => properties.runtime_features,
        };
        assert_eq!(entry_features & inherent_features, inherent_features);
    }
}

#[test]
fn derive_application_unions_activated_entries() {
    let table = ApplicationGeneratorSet {
        inherent: ComputeKind::Classical,
        dynamic_param_applications: vec![
            ComputeKind::Quantum(QuantumProperties {
                runtime_features: USE_OF_DYNAMIC_INT,
                value_kind: ValueKind::Element(RuntimeKind::Dynamic),
            }),
            ComputeKind::Quantum(QuantumProperties {
                runtime_features: USE_OF_DYNAMIC_QUBIT,
                value_kind: ValueKind::Element(RuntimeKind::Dynamic),
            }),
        ],
    };
    // No dynamic argument: the inherent compute kind.
    let all_static = vec![
        ValueKind::Element(RuntimeKind::Static),
        ValueKind::Element(RuntimeKind::Static),
    ];
    assert_eq!(
        table.derive_application_compute_kind(&all_static),
        ComputeKind::Classical
    );
    // Only the first argument dynamic: exactly that entry.
    let first_dynamic = vec![
        ValueKind::Element(RuntimeKind::Dynamic),
        ValueKind::Element(RuntimeKind::Static),
    ];
    assert_eq!(
        table.derive_application_compute_kind(&first_dynamic),
        table.dynamic_param_applications[0]
    );
    // Both dynamic: the union of both entries.
    let both_dynamic = vec![
        ValueKind::Element(RuntimeKind::Dynamic),
        ValueKind::Element(RuntimeKind::Dynamic),
    ];
    assert_eq!(
        table.derive_application_compute_kind(&both_dynamic),
        ComputeKind::Quantum(QuantumProperties {
            runtime_features: USE_OF_DYNAMIC_INT | USE_OF_DYNAMIC_QUBIT,
            value_kind: ValueKind::Element(RuntimeKind::Dynamic),
        })
    );
}

#[test]
fn app_idx_maps_to_one_dynamic_parameter() {
    let kinds = AppIdx(2).map_to_compute_kind_vector(3);
    assert_eq!(kinds[0], ComputeKind::Classical);
    assert_eq!(
        kinds[1],
        ComputeKind::Quantum(QuantumProperties {
            runtime_features: 0,
            value_kind: ValueKind::Element(RuntimeKind::Dynamic),
        })
    );
    assert_eq!(kinds[2], ComputeKind::Classical);
    let inherent = AppIdx(0).map_to_compute_kind_vector(2);
    assert_eq!(inherent, vec![ComputeKind::Classical, ComputeKind::Classical]);
}

#[test]
fn application_instance_index_addresses_the_table() {
    let table = ApplicationGeneratorSet {
        inherent: ComputeKind::Classical,
        dynamic_param_applications: vec![ComputeKind::Quantum(QuantumProperties {
            runtime_features: USE_OF_DYNAMIC_INT,
            value_kind: ValueKind::Element(RuntimeKind::Dynamic),
        })],
    };
    assert_eq!(
        ApplicationInstanceIndex(-1).application_of(&table),
        Some(ComputeKind::Classical)
    );
    assert_eq!(
        ApplicationInstanceIndex(0).application_of(&table),
        Some(table.dynamic_param_applications[0])
    );
    assert_eq!(ApplicationInstanceIndex(1).application_of(&table), None);
}
