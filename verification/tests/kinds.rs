//! The compute-kind algebra: aggregation, value-kind shapes and projection.

use rca::compute::ComputeKind;
use rca::compute::QuantumProperties;
use rca::compute::RuntimeKind;
use rca::compute::ValueKind;
use rca::compute::USE_OF_DYNAMIC_BOOL;
use rca::compute::USE_OF_DYNAMIC_INT;
use rca::fir::Prim;
use rca::fir::Ty;

#[test]
fn aggregate_unions_features_and_joins_value_kinds() {
    let a = ComputeKind::Quantum(QuantumProperties {
        runtime_features: USE_OF_DYNAMIC_BOOL,
        value_kind: ValueKind::Element(RuntimeKind::Static),
    });
    let b = ComputeKind::Quantum(QuantumProperties {
        runtime_features: USE_OF_DYNAMIC_INT,
        value_kind: ValueKind::Element(RuntimeKind::Dynamic),
    });
    assert_eq!(
        a.aggregate(b),
        ComputeKind::Quantum(QuantumProperties {
            runtime_features: USE_OF_DYNAMIC_BOOL | USE_OF_DYNAMIC_INT,
            value_kind: ValueKind::Element(RuntimeKind::Dynamic),
        })
    );
    assert_eq!(ComputeKind::Classical.aggregate(a), a);
    assert_eq!(a.aggregate(ComputeKind::Classical), a);
}

#[test]
fn aggregate_runtime_features_keeps_the_value_kind() {
    let a = ComputeKind::Quantum(QuantumProperties {
        runtime_features: USE_OF_DYNAMIC_BOOL,
        value_kind: ValueKind::Element(RuntimeKind::Static),
    });
    let b = ComputeKind::Quantum(QuantumProperties {
        runtime_features: USE_OF_DYNAMIC_INT,
        value_kind: ValueKind::Element(RuntimeKind::Dynamic),
    });
    let joined = a.aggregate_runtime_features(b, ValueKind::Element(RuntimeKind::Static));
    assert_eq!(
        joined,
        ComputeKind::Quantum(QuantumProperties {
            runtime_features: USE_OF_DYNAMIC_BOOL | USE_OF_DYNAMIC_INT,
            value_kind: ValueKind::Element(RuntimeKind::Static),
        })
    );
    assert!(!joined.is_dynamic());
}

#[test]
fn value_kind_shapes_follow_types() {
    let array_ty = Ty::Array(Box::new(Ty::Prim(Prim::Int)));
    assert_eq!(
        ValueKind::new_static_from_type(&array_ty),
        ValueKind::Array(RuntimeKind::Static, RuntimeKind::Static)
    );
    assert_eq!(
        ValueKind::new_dynamic_from_type(&array_ty),
        ValueKind::Array(RuntimeKind::Dynamic, RuntimeKind::Dynamic)
    );
    assert_eq!(
        ValueKind::new_dynamic_from_type(&Ty::Prim(Prim::Bool)),
        ValueKind::Element(RuntimeKind::Dynamic)
    );
}

#[test]
fn projection_repairs_shape_mismatches() {
    // A dynamic element projected onto an array shape spreads its dynamism
    // over content and size.
    let projected = ValueKind::Element(RuntimeKind::Dynamic)
        .projected_onto(ValueKind::Array(RuntimeKind::Static, RuntimeKind::Static));
    assert_eq!(projected, ValueKind::Array(RuntimeKind::Dynamic, RuntimeKind::Dynamic));
    // An array with any dynamic leaf collapses to a dynamic element.
    let collapsed = ValueKind::Array(RuntimeKind::Static, RuntimeKind::Dynamic)
        .projected_onto(ValueKind::Element(RuntimeKind::Static));
    assert_eq!(collapsed, ValueKind::Element(RuntimeKind::Dynamic));
    // Matching shapes pass through unchanged.
    let kept = ValueKind::Array(RuntimeKind::Dynamic, RuntimeKind::Static)
        .projected_onto(ValueKind::Array(RuntimeKind::Static, RuntimeKind::Static));
    assert_eq!(kept, ValueKind::Array(RuntimeKind::Dynamic, RuntimeKind::Static));
}

#[test]
fn dynamism_of_an_array_tracks_both_leaves() {
    assert!(ValueKind::Array(RuntimeKind::Dynamic, RuntimeKind::Static).is_dynamic());
    assert!(ValueKind::Array(RuntimeKind::Static, RuntimeKind::Dynamic).is_dynamic());
    assert!(!ValueKind::Array(RuntimeKind::Static, RuntimeKind::Static).is_dynamic());
}

#[test]
fn unit_type_is_the_empty_tuple() {
    assert!(Ty::unit().is_unit());
    assert!(!Ty::Prim(Prim::Int).is_unit());
    assert!(Ty::Prim(Prim::Int).is_prim(Prim::Int));
    assert!(!Ty::Prim(Prim::Int).is_prim(Prim::Bool));
}
