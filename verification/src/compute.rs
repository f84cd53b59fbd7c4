//! The compute-kind model: runtime feature flags, target capabilities, value
//! dynamism shapes, and the aggregation algebra the analysis is built from.

use crate::fir::Ty;
use vstd::prelude::*;

verus! {

/// A set of runtime features, one bit per feature.
pub type RuntimeFeatureFlags = u64;

/// Use of a dynamic `Bool` value.
pub const USE_OF_DYNAMIC_BOOL: RuntimeFeatureFlags = 1u64 << 0;

/// Use of a dynamic `Int` value.
pub const USE_OF_DYNAMIC_INT: RuntimeFeatureFlags = 1u64 << 1;

/// Use of a dynamic `Pauli` value.
pub const USE_OF_DYNAMIC_PAULI: RuntimeFeatureFlags = 1u64 << 2;

/// Use of a dynamic `Range` value.
pub const USE_OF_DYNAMIC_RANGE: RuntimeFeatureFlags = 1u64 << 3;

/// Use of a dynamic `Double` value.
pub const USE_OF_DYNAMIC_DOUBLE: RuntimeFeatureFlags = 1u64 << 4;

/// Use of a dynamic `BigInt` value.
pub const USE_OF_DYNAMIC_BIG_INT: RuntimeFeatureFlags = 1u64 << 5;

/// Use of a dynamic `Qubit` value.
pub const USE_OF_DYNAMIC_QUBIT: RuntimeFeatureFlags = 1u64 << 6;

/// Use of a dynamic `String` value.
pub const USE_OF_DYNAMIC_STRING: RuntimeFeatureFlags = 1u64 << 7;

/// Use of an array whose size depends on a measurement result.
pub const USE_OF_DYNAMICALLY_SIZED_ARRAY: RuntimeFeatureFlags = 1u64 << 8;

/// Use of a dynamic user-declared type value.
pub const USE_OF_DYNAMIC_UDT: RuntimeFeatureFlags = 1u64 << 9;

/// Use of a dynamic function value.
pub const USE_OF_DYNAMIC_ARROW_FUNCTION: RuntimeFeatureFlags = 1u64 << 10;

/// Use of a dynamic operation value.
pub const USE_OF_DYNAMIC_ARROW_OPERATION: RuntimeFeatureFlags = 1u64 << 11;

/// Use of a dynamic index to access an array.
pub const USE_OF_DYNAMIC_INDEX: RuntimeFeatureFlags = 1u64 << 12;

/// A call to a cycled function with a dynamic argument.
pub const CYCLED_FUNCTION_APPLICATION_USES_DYNAMIC_ARG: RuntimeFeatureFlags = 1u64 << 13;

/// An application of a cycled operation specialization.
pub const CYCLED_OPERATION_SPECIALIZATION_APPLICATION: RuntimeFeatureFlags = 1u64 << 14;

/// A call to a callable value that is itself dynamic.
pub const CALL_TO_DYNAMIC_CALLEE: RuntimeFeatureFlags = 1u64 << 15;

/// A call whose callee cannot be resolved statically.
pub const CALL_TO_UNRESOLVED_CALLEE: RuntimeFeatureFlags = 1u64 << 16;

/// A call performed inside a branch on a dynamic condition.
pub const FORWARD_BRANCHING_ON_DYNAMIC_VALUE: RuntimeFeatureFlags = 1u64 << 17;

/// Use of a closure.
pub const USE_OF_CLOSURE: RuntimeFeatureFlags = 1u64 << 18;

/// A qubit allocated inside a branch on a dynamic condition.
pub const DYNAMIC_QUBIT_ALLOCATION: RuntimeFeatureFlags = 1u64 << 19;

/// A measurement result produced inside a branch on a dynamic condition.
pub const DYNAMIC_RESULT_ALLOCATION: RuntimeFeatureFlags = 1u64 << 20;

/// A set of capabilities a compilation target supports, one bit per
/// capability.
pub type TargetCapabilityFlags = u64;

/// Branching forward on a dynamic condition.
pub const TARGET_FORWARD_BRANCHING: TargetCapabilityFlags = 1u64 << 0;

/// Classical computations on dynamic integer-like values.
pub const TARGET_INTEGER_COMPUTATIONS: TargetCapabilityFlags = 1u64 << 1;

/// Classical computations on dynamic floating-point values.
pub const TARGET_FLOATING_POINT_COMPUTATIONS: TargetCapabilityFlags = 1u64 << 2;

/// Branching backward on a dynamic condition.
pub const TARGET_BACKWARDS_BRANCHING: TargetCapabilityFlags = 1u64 << 3;

/// Dynamic aggregates, closures and unbounded recursion.
pub const TARGET_HIGHER_LEVEL_CONSTRUCTS: TargetCapabilityFlags = 1u64 << 4;

/// Reusing a qubit after it was measured.
pub const TARGET_QUBIT_REUSE: TargetCapabilityFlags = 1u64 << 5;

/// The universal capability set: every capability bit set.
pub const TARGET_ALL: TargetCapabilityFlags = TARGET_FORWARD_BRANCHING
    | TARGET_INTEGER_COMPUTATIONS | TARGET_FLOATING_POINT_COMPUTATIONS
    | TARGET_BACKWARDS_BRANCHING | TARGET_HIGHER_LEVEL_CONSTRUCTS | TARGET_QUBIT_REUSE;

/// The empty capability set.
pub const TARGET_EMPTY: TargetCapabilityFlags = 0u64;

/// Whether a value is known at compile time or depends on a measurement
/// outcome.
#[derive(Clone, Copy, Debug, PartialEq, Eq, Structural)]
pub enum RuntimeKind {
    Static,
    Dynamic,
}

impl RuntimeKind {
    /// The join of two runtime kinds: dynamic when either side is dynamic.
    pub open spec fn spec_join(self, other: RuntimeKind) -> RuntimeKind {
        if self == RuntimeKind::Dynamic || other == RuntimeKind::Dynamic {
            RuntimeKind::Dynamic
        } else {
            RuntimeKind::Static
        }
    }

    pub fn join(self, other: RuntimeKind) -> (r: RuntimeKind)
        ensures
            r == self.spec_join(other),
    {
        if matches!(self, RuntimeKind::Dynamic) || matches!(other, RuntimeKind::Dynamic) {
            RuntimeKind::Dynamic
        } else {
            RuntimeKind::Static
        }
    }
}

/// The dynamism shape of a value, matching the structure of its type: arrays
/// track the dynamism of their content and of their size independently, and
/// every other value is a single element.
#[derive(Clone, Copy, Debug, PartialEq, Eq, Structural)]
pub enum ValueKind {
    /// An array value: content runtime kind, size runtime kind.
    Array(RuntimeKind, RuntimeKind),
    Element(RuntimeKind),
}

impl ValueKind {
    /// Whether any leaf of the shape is dynamic.
    pub open spec fn spec_is_dynamic(self) -> bool {
        match self {
            ValueKind::Array(content, size) => content == RuntimeKind::Dynamic || size
                == RuntimeKind::Dynamic,
            ValueKind::Element(kind) => kind == RuntimeKind::Dynamic,
        }
    }

    pub fn is_dynamic(&self) -> (r: bool)
        ensures
            r == self.spec_is_dynamic(),
    {
        match self {
            ValueKind::Array(content, size) => matches!(content, RuntimeKind::Dynamic)
                || matches!(size, RuntimeKind::Dynamic),
            ValueKind::Element(kind) => matches!(kind, RuntimeKind::Dynamic),
        }
    }

    /// The all-static shape for a type: the array variant for array types and
    /// the element variant for everything else.
    pub open spec fn spec_new_static_from_type(ty: Ty) -> ValueKind {
        match ty {
            Ty::Array(_) => ValueKind::Array(RuntimeKind::Static, RuntimeKind::Static),
            _ => ValueKind::Element(RuntimeKind::Static),
        }
    }

    /// The all-dynamic shape for a type.
    pub open spec fn spec_new_dynamic_from_type(ty: Ty) -> ValueKind {
        match ty {
            Ty::Array(_) => ValueKind::Array(RuntimeKind::Dynamic, RuntimeKind::Dynamic),
            _ => ValueKind::Element(RuntimeKind::Dynamic),
        }
    }

    pub fn new_static_from_type(ty: &Ty) -> (r: ValueKind)
        ensures
            r == ValueKind::spec_new_static_from_type(*ty),
    {
        match ty {
            Ty::Array(_) => ValueKind::Array(RuntimeKind::Static, RuntimeKind::Static),
            _ => ValueKind::Element(RuntimeKind::Static),
        }
    }

    pub fn new_dynamic_from_type(ty: &Ty) -> (r: ValueKind)
        ensures
            r == ValueKind::spec_new_dynamic_from_type(*ty),
    {
        match ty {
            Ty::Array(_) => ValueKind::Array(RuntimeKind::Dynamic, RuntimeKind::Dynamic),
            _ => ValueKind::Element(RuntimeKind::Dynamic),
        }
    }

    /// The join of two shapes. Matching variants join leaf by leaf; when the
    /// variants differ, the left shape is kept and all its leaves become
    /// dynamic if the right side carries any dynamism.
    pub open spec fn spec_aggregate(self, other: ValueKind) -> ValueKind {
        match (self, other) {
            (ValueKind::Array(c1, s1), ValueKind::Array(c2, s2)) => ValueKind::Array(
                c1.spec_join(c2),
                s1.spec_join(s2),
            ),
            (ValueKind::Element(k1), ValueKind::Element(k2)) => ValueKind::Element(
                k1.spec_join(k2),
            ),
            _ => {
                if other.spec_is_dynamic() {
                    match self {
                        ValueKind::Array(_, _) => ValueKind::Array(
                            RuntimeKind::Dynamic,
                            RuntimeKind::Dynamic,
                        ),
                        ValueKind::Element(_) => ValueKind::Element(RuntimeKind::Dynamic),
                    }
                } else {
                    self
                }
            }
        }
    }

    pub fn aggregate(self, other: ValueKind) -> (r: ValueKind)
        ensures
            r == self.spec_aggregate(other),
    {
        match (self, other) {
            (ValueKind::Array(c1, s1), ValueKind::Array(c2, s2)) => ValueKind::Array(
                c1.join(c2),
                s1.join(s2),
            ),
            (ValueKind::Element(k1), ValueKind::Element(k2)) => ValueKind::Element(k1.join(k2)),
            (me, other) => {
                if other.is_dynamic() {
                    match me {
                        ValueKind::Array(_, _) => ValueKind::Array(
                            RuntimeKind::Dynamic,
                            RuntimeKind::Dynamic,
                        ),
                        ValueKind::Element(_) => ValueKind::Element(RuntimeKind::Dynamic),
                    }
                } else {
                    me
                }
            }
        }
    }

    /// This shape projected onto the variant of a target shape, so that the
    /// stored shape always matches the structure of the type it describes.
    /// Dynamism is preserved: the result is dynamic exactly when the source
    /// shape is dynamic, spread over all leaves on a variant change.
    pub open spec fn spec_projected_onto(self, target: ValueKind) -> ValueKind {
        match (self, target) {
            (ValueKind::Array(c, s), ValueKind::Array(_, _)) => ValueKind::Array(c, s),
            (ValueKind::Element(k), ValueKind::Element(_)) => ValueKind::Element(k),
            (ValueKind::Element(k), ValueKind::Array(_, _)) => ValueKind::Array(k, k),
            (ValueKind::Array(_, _), ValueKind::Element(_)) => {
                if self.spec_is_dynamic() {
                    ValueKind::Element(RuntimeKind::Dynamic)
                } else {
                    ValueKind::Element(RuntimeKind::Static)
                }
            }
        }
    }

    pub fn projected_onto(self, target: ValueKind) -> (r: ValueKind)
        ensures
            r == self.spec_projected_onto(target),
    {
        match (self, target) {
            (ValueKind::Array(c, s), ValueKind::Array(_, _)) => ValueKind::Array(c, s),
            (ValueKind::Element(k), ValueKind::Element(_)) => ValueKind::Element(k),
            (ValueKind::Element(k), ValueKind::Array(_, _)) => ValueKind::Array(k, k),
            (me, ValueKind::Element(_)) => {
                if me.is_dynamic() {
                    ValueKind::Element(RuntimeKind::Dynamic)
                } else {
                    ValueKind::Element(RuntimeKind::Static)
                }
            }
        }
    }

    /// Whether `other` is at least as dynamic as `self`, leaf by leaf.
    pub open spec fn spec_le(self, other: ValueKind) -> bool {
        &&& (self.spec_is_dynamic() ==> other.spec_is_dynamic())
        &&& match (self, other) {
            (ValueKind::Array(c1, s1), ValueKind::Array(c2, s2)) => (c1 == RuntimeKind::Dynamic
                ==> c2 == RuntimeKind::Dynamic) && (s1 == RuntimeKind::Dynamic ==> s2
                == RuntimeKind::Dynamic),
            _ => true,
        }
    }
}

/// The properties of an entity whose execution touches the quantum runtime:
/// the runtime features it requires and the dynamism shape of its value.
#[derive(Clone, Copy, Debug, PartialEq, Eq, Structural)]
pub struct QuantumProperties {
    pub runtime_features: RuntimeFeatureFlags,
    pub value_kind: ValueKind,
}

/// The classification of a program entity: purely classical, or quantum with
/// its properties.
#[derive(Clone, Copy, Debug, PartialEq, Eq, Structural)]
pub enum ComputeKind {
    Classical,
    Quantum(QuantumProperties),
}

impl ComputeKind {
    /// The runtime features required; a classical entity requires none.
    pub open spec fn spec_features(self) -> RuntimeFeatureFlags {
        match self {
            ComputeKind::Classical => 0u64,
            ComputeKind::Quantum(properties) => properties.runtime_features,
        }
    }

    /// The value kind, when the entity is quantum.
    pub open spec fn spec_value_kind(self) -> Option<ValueKind> {
        match self {
            ComputeKind::Classical => None,
            ComputeKind::Quantum(properties) => Some(properties.value_kind),
        }
    }

    /// Whether the entity's value depends on a measurement outcome.
    pub open spec fn spec_is_dynamic(self) -> bool {
        match self {
            ComputeKind::Classical => false,
            ComputeKind::Quantum(properties) => properties.value_kind.spec_is_dynamic(),
        }
    }

    pub fn is_quantum(&self) -> (r: bool)
        ensures
            r == (*self is Quantum),
    {
        matches!(self, ComputeKind::Quantum(_))
    }

    pub fn is_dynamic(&self) -> (r: bool)
        ensures
            r == self.spec_is_dynamic(),
    {
        match self {
            ComputeKind::Classical => false,
            ComputeKind::Quantum(properties) => properties.value_kind.is_dynamic(),
        }
    }

    pub fn features(&self) -> (r: RuntimeFeatureFlags)
        ensures
            r == self.spec_features(),
    {
        match self {
            ComputeKind::Classical => 0u64,
            ComputeKind::Quantum(properties) => properties.runtime_features,
        }
    }

    pub fn value_kind(&self) -> (r: Option<ValueKind>)
        ensures
            r == self.spec_value_kind(),
    {
        match self {
            ComputeKind::Classical => None,
            ComputeKind::Quantum(properties) => Some(properties.value_kind),
        }
    }

    /// The value kind, or a default shape for a classical entity.
    pub fn value_kind_or_default(&self, default: ValueKind) -> (r: ValueKind)
        ensures
            r == match self.spec_value_kind() {
                Some(value_kind) => value_kind,
                None => default,
            },
    {
        match self {
            ComputeKind::Classical => default,
            ComputeKind::Quantum(properties) => properties.value_kind,
        }
    }

    /// A quantum compute kind with the given features and value kind.
    pub fn new_with_runtime_features(runtime_features: RuntimeFeatureFlags, value_kind: ValueKind) -> (r:
        ComputeKind)
        ensures
            r == ComputeKind::Quantum(QuantumProperties { runtime_features, value_kind }),
    {
        ComputeKind::Quantum(QuantumProperties { runtime_features, value_kind })
    }

    /// The full join of two compute kinds: runtime features are unioned and
    /// value kinds are joined.
    pub open spec fn spec_aggregate(self, other: ComputeKind) -> ComputeKind {
        match (self, other) {
            (ComputeKind::Classical, _) => other,
            (_, ComputeKind::Classical) => self,
            (ComputeKind::Quantum(p1), ComputeKind::Quantum(p2)) => ComputeKind::Quantum(
                QuantumProperties {
                    runtime_features: p1.runtime_features | p2.runtime_features,
                    value_kind: p1.value_kind.spec_aggregate(p2.value_kind),
                },
            ),
        }
    }

    pub fn aggregate(self, other: ComputeKind) -> (r: ComputeKind)
        ensures
            r == self.spec_aggregate(other),
    {
        match (self, other) {
            (ComputeKind::Classical, other) => other,
            (me, ComputeKind::Classical) => me,
            (ComputeKind::Quantum(p1), ComputeKind::Quantum(p2)) => ComputeKind::Quantum(
                QuantumProperties {
                    runtime_features: p1.runtime_features | p2.runtime_features,
                    value_kind: p1.value_kind.aggregate(p2.value_kind),
                },
            ),
        }
    }

    /// Joins only the runtime features of `other` into `self`, leaving the
    /// value kind alone; a classical `self` becomes quantum with the given
    /// default value kind when `other` brings features.
    pub open spec fn spec_aggregate_runtime_features(
        self,
        other: ComputeKind,
        default: ValueKind,
    ) -> ComputeKind {
        match other {
            ComputeKind::Classical => self,
            ComputeKind::Quantum(p2) => match self {
                ComputeKind::Classical => ComputeKind::Quantum(
                    QuantumProperties {
                        runtime_features: p2.runtime_features,
                        value_kind: default,
                    },
                ),
                ComputeKind::Quantum(p1) => ComputeKind::Quantum(
                    QuantumProperties {
                        runtime_features: p1.runtime_features | p2.runtime_features,
                        value_kind: p1.value_kind,
                    },
                ),
            },
        }
    }

    pub fn aggregate_runtime_features(self, other: ComputeKind, default: ValueKind) -> (r:
        ComputeKind)
        ensures
            r == self.spec_aggregate_runtime_features(other, default),
    {
        match other {
            ComputeKind::Classical => self,
            ComputeKind::Quantum(p2) => match self {
                ComputeKind::Classical => ComputeKind::Quantum(
                    QuantumProperties {
                        runtime_features: p2.runtime_features,
                        value_kind: default,
                    },
                ),
                ComputeKind::Quantum(p1) => ComputeKind::Quantum(
                    QuantumProperties {
                        runtime_features: p1.runtime_features | p2.runtime_features,
                        value_kind: p1.value_kind,
                    },
                ),
            },
        }
    }

    /// Whether `other` is at least as dynamic as `self`: a classical entity
    /// is below everything, and quantum entities compare by their value
    /// kinds, leaf by leaf.
    pub open spec fn spec_dynamism_le(self, other: ComputeKind) -> bool {
        match self.spec_value_kind() {
            None => true,
            Some(self_kind) => match other.spec_value_kind() {
                None => false,
                Some(other_kind) => self_kind.spec_le(other_kind),
            },
        }
    }

    /// Joins a value kind into the compute kind; a classical entity becomes
    /// quantum with no features and the given value kind.
    pub open spec fn spec_aggregate_value_kind(self, value_kind: ValueKind) -> ComputeKind {
        match self {
            ComputeKind::Classical => ComputeKind::Quantum(
                QuantumProperties { runtime_features: 0u64, value_kind },
            ),
            ComputeKind::Quantum(properties) => ComputeKind::Quantum(
                QuantumProperties {
                    runtime_features: properties.runtime_features,
                    value_kind: properties.value_kind.spec_aggregate(value_kind),
                },
            ),
        }
    }

    pub fn aggregate_value_kind(self, value_kind: ValueKind) -> (r: ComputeKind)
        ensures
            r == self.spec_aggregate_value_kind(value_kind),
    {
        match self {
            ComputeKind::Classical => ComputeKind::Quantum(
                QuantumProperties { runtime_features: 0u64, value_kind },
            ),
            ComputeKind::Quantum(properties) => ComputeKind::Quantum(
                QuantumProperties {
                    runtime_features: properties.runtime_features,
                    value_kind: properties.value_kind.aggregate(value_kind),
                },
            ),
        }
    }
}

/// Aggregation never drops features: the join of two compute kinds requires
/// exactly the union of the features either side requires.
pub proof fn lemma_aggregate_features_union(a: ComputeKind, b: ComputeKind)
    ensures
        a.spec_aggregate(b).spec_features() == (a.spec_features() | b.spec_features()),
{
    assert(a.spec_features() | 0u64 == a.spec_features()) by (bit_vector);
    assert(0u64 | b.spec_features() == b.spec_features()) by (bit_vector);
}

/// Joining a value kind into a compute kind never changes its features.
pub proof fn lemma_aggregate_value_kind_keeps_features(a: ComputeKind, value_kind: ValueKind)
    ensures
        a.spec_aggregate_value_kind(value_kind).spec_features() == a.spec_features(),
{
}

/// Aggregation is monotone in dynamism: the join is dynamic exactly when one
/// of the sides is, and it is at least as dynamic as the left side, leaf by
/// leaf.
pub proof fn lemma_aggregate_dynamism(a: ComputeKind, b: ComputeKind)
    ensures
        a.spec_aggregate(b).spec_is_dynamic() == (a.spec_is_dynamic() || b.spec_is_dynamic()),
        a.spec_dynamism_le(a.spec_aggregate(b)),
{
}

/// Joining only runtime features unions exactly the two feature sets.
pub proof fn lemma_aggregate_runtime_features_union(
    a: ComputeKind,
    b: ComputeKind,
    default: ValueKind,
)
    ensures
        a.spec_aggregate_runtime_features(b, default).spec_features() == (a.spec_features()
            | b.spec_features()),
{
    assert(a.spec_features() | 0u64 == a.spec_features()) by (bit_vector);
    assert(0u64 | b.spec_features() == b.spec_features()) by (bit_vector);
}

/// Intersection with itself keeps a feature set.
pub proof fn lemma_and_self(x: u64)
    ensures
        x & x == x,
{
    assert(x & x == x) by (bit_vector);
}

/// A feature flag survives any further union of features.
pub proof fn lemma_or_flag_preserved(x: u64, y: u64, flag: u64)
    requires
        x & flag == flag,
    ensures
        (x | y) & flag == flag,
        (y | x) & flag == flag,
{
    assert(x & flag == flag ==> ((x | y) & flag == flag && (y | x) & flag == flag))
        by (bit_vector);
}

/// A union of features contains the features united last.
pub proof fn lemma_or_superset(x: u64, a: u64, b: u64)
    ensures
        ((x | a) | b) & (a | b) == (a | b),
{
    assert(((x | a) | b) & (a | b) == (a | b)) by (bit_vector);
}

/// The memoized analysis summary of one specialization, block, statement or
/// expression: its compute kind when every input is static, and one compute
/// kind per input parameter describing the application in which exactly that
/// parameter is dynamic.
#[derive(Debug)]
pub struct ApplicationGeneratorSet {
    pub inherent: ComputeKind,
    pub dynamic_param_applications: Vec<ComputeKind>,
}

impl Clone for ApplicationGeneratorSet {
    fn clone(&self) -> (r: Self)
        ensures
            r.inherent == self.inherent,
            r.dynamic_param_applications@ == self.dynamic_param_applications@,
    {
        let mut apps: Vec<ComputeKind> = Vec::new();
        let mut i: usize = 0;
        while i < self.dynamic_param_applications.len()
            invariant
                i <= self.dynamic_param_applications@.len(),
                apps@.len() == i as int,
                forall|j: int|
                    0 <= j < i ==> apps@[j] == self.dynamic_param_applications@[j],
            decreases self.dynamic_param_applications@.len() - i,
        {
            apps.push(self.dynamic_param_applications[i]);
            i += 1;
        }
        proof {
            assert(apps@ =~= self.dynamic_param_applications@);
        }
        ApplicationGeneratorSet { inherent: self.inherent, dynamic_param_applications: apps }
    }
}

/// The compute kind derived from an applications table for a call whose
/// arguments have the given value kinds, considering the first `n` arguments:
/// the inherent compute kind joined with the table entry of every dynamic
/// argument.
pub open spec fn spec_derive_application(
    inherent: ComputeKind,
    apps: Seq<ComputeKind>,
    args: Seq<ValueKind>,
    n: int,
) -> ComputeKind
    decreases n,
{
    if n <= 0 {
        inherent
    } else {
        let prev = spec_derive_application(inherent, apps, args, n - 1);
        if args[n - 1].spec_is_dynamic() {
            prev.spec_aggregate(apps[n - 1])
        } else {
            prev
        }
    }
}

impl ApplicationGeneratorSet {
    /// Derives the compute kind of one call of the summarized callable from
    /// the value kinds of the actual arguments, without re-analyzing the
    /// callee: the inherent compute kind joined with the per-parameter entry
    /// of every argument that is dynamic. When several arguments are dynamic
    /// at once the single-parameter entries are unioned, which is sound but
    /// may over-approximate.
    pub fn derive_application_compute_kind(&self, arg_value_kinds: &Vec<ValueKind>) -> (r:
        ComputeKind)
        requires
            arg_value_kinds@.len() == self.dynamic_param_applications@.len(),
        ensures
            r == spec_derive_application(
                self.inherent,
                self.dynamic_param_applications@,
                arg_value_kinds@,
                arg_value_kinds@.len() as int,
            ),
    {
        let mut compute_kind = self.inherent;
        let mut i: usize = 0;
        while i < arg_value_kinds.len()
            invariant
                arg_value_kinds@.len() == self.dynamic_param_applications@.len(),
                i <= arg_value_kinds@.len(),
                compute_kind == spec_derive_application(
                    self.inherent,
                    self.dynamic_param_applications@,
                    arg_value_kinds@,
                    i as int,
                ),
            decreases arg_value_kinds@.len() - i,
        {
            if arg_value_kinds[i].is_dynamic() {
                compute_kind = compute_kind.aggregate(self.dynamic_param_applications[i]);
            }
            i += 1;
        }
        compute_kind
    }
}

/// Whether the right compute kind keeps the shape of the left one's value
/// kind: a classical left side puts no constraint, and a quantum left side
/// requires a quantum right side of the same variant.
pub open spec fn spec_variant_preserved(a: ComputeKind, b: ComputeKind) -> bool {
    match a.spec_value_kind() {
        None => true,
        Some(a_kind) => match b.spec_value_kind() {
            None => false,
            Some(b_kind) => match (a_kind, b_kind) {
                (ValueKind::Array(_, _), ValueKind::Array(_, _)) => true,
                (ValueKind::Element(_), ValueKind::Element(_)) => true,
                _ => false,
            },
        },
    }
}

/// Deriving a call's compute kind from an applications table never loses the
/// inherent requirements: the result requires every feature the inherent
/// application requires, and is at least as dynamic, leaf by leaf.
pub proof fn lemma_derive_application_covers_inherent(
    inherent: ComputeKind,
    apps: Seq<ComputeKind>,
    args: Seq<ValueKind>,
    n: int,
)
    ensures
        spec_derive_application(inherent, apps, args, n).spec_features() & inherent.spec_features()
            == inherent.spec_features(),
        inherent.spec_is_dynamic() ==> spec_derive_application(
            inherent,
            apps,
            args,
            n,
        ).spec_is_dynamic(),
        inherent.spec_dynamism_le(spec_derive_application(inherent, apps, args, n)),
        spec_variant_preserved(inherent, spec_derive_application(inherent, apps, args, n)),
    decreases n,
{
    if n <= 0 {
        assert(inherent.spec_features() & inherent.spec_features() == inherent.spec_features())
            by (bit_vector);
    } else {
        lemma_derive_application_covers_inherent(inherent, apps, args, n - 1);
        let prev = spec_derive_application(inherent, apps, args, n - 1);
        let cur = spec_derive_application(inherent, apps, args, n);
        if args[n - 1].spec_is_dynamic() {
            lemma_aggregate_features_union(prev, apps[n - 1]);
            let pf = prev.spec_features();
            let af = apps[n - 1].spec_features();
            let inf = inherent.spec_features();
            assert(pf & inf == inf ==> (pf | af) & inf == inf) by (bit_vector);
            lemma_aggregate_dynamism(prev, apps[n - 1]);
        }
    }
}

} // verus!
