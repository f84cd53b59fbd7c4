//! Cycle detection and the conservative tables pre-seeded for cycled
//! specializations.

use rca::analyzer::Analyzer;
use rca::capabilitiesck::check_supported_capabilities;
use rca::capabilitiesck::Error;
use rca::compute::ComputeKind;
use rca::compute::QuantumProperties;
use rca::compute::RuntimeKind;
use rca::compute::ValueKind;
use rca::compute::CYCLED_FUNCTION_APPLICATION_USES_DYNAMIC_ARG;
use rca::compute::CYCLED_OPERATION_SPECIALIZATION_APPLICATION;
use rca::compute::TARGET_EMPTY;
use rca::cycle_detection::detect_specializations_with_cycles;
use rca::fir::Block;
use rca::fir::BlockId;
use rca::fir::CallableDecl;
use rca::fir::CallableImpl;
use rca::fir::CallableKind;
use rca::fir::Expr;
use rca::fir::ExprId;
use rca::fir::ExprKind;
use rca::fir::FunctorSetValue;
use rca::fir::Ident;
use rca::fir::Item;
use rca::fir::ItemId;
use rca::fir::ItemKind;
use rca::fir::LocalItemId;
use rca::fir::LocalVarId;
use rca::fir::Mutability;
use rca::fir::Package;
use rca::fir::PackageId;
use rca::fir::PackageStore;
use rca::fir::Pat;
use rca::fir::PatId;
use rca::fir::PatKind;
use rca::fir::Prim;
use rca::fir::Res;
use rca::fir::Span;
use rca::fir::SpecDecl;
use rca::fir::Specializations;
use rca::fir::Stmt;
use rca::fir::StmtId;
use rca::fir::StmtKind;
use rca::fir::Ty;
use rca::scaffolding::ItemComputeProperties;

fn cy_expr(package: &mut Package, id: usize, ty: Ty, kind: ExprKind) {
    package.exprs.insert(ExprId(id), Expr { ty, kind });
}

fn cy_stmt(package: &mut Package, id: usize, lo: u32, hi: u32, kind: StmtKind) {
    package
        .stmts
        .insert(StmtId(id), Stmt { span: Span { lo, hi }, kind });
}

/// A package holding `function Foo(i : Int) : Int { Foo(i) }` as item 0.
fn recursive_function_package() -> PackageStore {
    let mut package = Package::new();
    package.pats.insert(
        PatId(0),
        Pat {
            ty: Ty::Prim(Prim::Int),
            kind: PatKind::Bind(Ident { id: LocalVarId(0) }),
        },
    );
    cy_expr(
        &mut package,
        0,
        Ty::Arrow(CallableKind::Function),
        ExprKind::Var(Res::Item(ItemId {
            package: None,
            item: LocalItemId(0),
        })),
    );
    cy_expr(
        &mut package,
        1,
        Ty::Prim(Prim::Int),
        ExprKind::Var(Res::Local(LocalVarId(0))),
    );
    cy_expr(
        &mut package,
        2,
        Ty::Prim(Prim::Int),
        ExprKind::Call(ExprId(0), ExprId(1)),
    );
    cy_stmt(&mut package, 0, 0, 10, StmtKind::Expr(ExprId(2)));
    package.blocks.insert(
        BlockId(0),
        Block {
            ty: Ty::Prim(Prim::Int),
            stmts: vec![StmtId(0)],
        },
    );
    package.items.insert(
        LocalItemId(0),
        Item {
            kind: ItemKind::Callable(CallableDecl {
                kind: CallableKind::Function,
                input: PatId(0),
                output: Ty::Prim(Prim::Int),
                implementation: CallableImpl::Spec(Specializations {
                    body: SpecDecl {
                        block: BlockId(0),
                        input: None,
                    },
                    adj: None,
                    ctl: None,
                    ctl_adj: None,
                }),
            }),
        },
    );
    let mut store = PackageStore::new();
    store.insert(PackageId(0), package);
    store
}

/// A package holding `operation Foo(q : Qubit) : Unit { Foo(q); }` as item 0.
fn recursive_operation_package() -> PackageStore {
    let mut package = Package::new();
    package.pats.insert(
        PatId(0),
        Pat {
            ty: Ty::Prim(Prim::Qubit),
            kind: PatKind::Bind(Ident { id: LocalVarId(0) }),
        },
    );
    cy_expr(
        &mut package,
        0,
        Ty::Arrow(CallableKind::Operation),
        ExprKind::Var(Res::Item(ItemId {
            package: None,
            item: LocalItemId(0),
        })),
    );
    cy_expr(
        &mut package,
        1,
        Ty::Prim(Prim::Qubit),
        ExprKind::Var(Res::Local(LocalVarId(0))),
    );
    cy_expr(
        &mut package,
        2,
        Ty::Tuple(Vec::new()),
        ExprKind::Call(ExprId(0), ExprId(1)),
    );
    cy_stmt(&mut package, 0, 0, 10, StmtKind::Semi(ExprId(2)));
    package.blocks.insert(
        BlockId(0),
        Block {
            ty: Ty::Tuple(Vec::new()),
            stmts: vec![StmtId(0)],
        },
    );
    package.items.insert(
        LocalItemId(0),
        Item {
            kind: ItemKind::Callable(CallableDecl {
                kind: CallableKind::Operation,
                input: PatId(0),
                output: Ty::Tuple(Vec::new()),
                implementation: CallableImpl::Spec(Specializations {
                    body: SpecDecl {
                        block: BlockId(0),
                        input: None,
                    },
                    adj: None,
                    ctl: None,
                    ctl_adj: None,
                }),
            }),
        },
    );
    let mut store = PackageStore::new();
    store.insert(PackageId(0), package);
    store
}

#[test]
fn direct_recursion_is_detected() {
    let store = recursive_function_package();
    let package = store.get(PackageId(0)).expect("package should exist");
    let cycles =
        detect_specializations_with_cycles(PackageId(0), package).expect("detection should run");
    assert_eq!(cycles.len(), 1);
    assert_eq!(cycles[0].callable.item, LocalItemId(0));
    assert_eq!(cycles[0].functor_set_value, FunctorSetValue::Empty);
}

#[test]
fn straight_line_code_has_no_cycles() {
    let mut package = Package::new();
    package.pats.insert(
        PatId(0),
        Pat {
            ty: Ty::Prim(Prim::Int),
            kind: PatKind::Bind(Ident { id: LocalVarId(0) }),
        },
    );
    cy_expr(
        &mut package,
        0,
        Ty::Prim(Prim::Int),
        ExprKind::Var(Res::Local(LocalVarId(0))),
    );
    cy_stmt(&mut package, 0, 0, 10, StmtKind::Expr(ExprId(0)));
    package.blocks.insert(
        BlockId(0),
        Block {
            ty: Ty::Prim(Prim::Int),
            stmts: vec![StmtId(0)],
        },
    );
    package.items.insert(
        LocalItemId(0),
        Item {
            kind: ItemKind::Callable(CallableDecl {
                kind: CallableKind::Function,
                input: PatId(0),
                output: Ty::Prim(Prim::Int),
                implementation: CallableImpl::Spec(Specializations {
                    body: SpecDecl {
                        block: BlockId(0),
                        input: None,
                    },
                    adj: None,
                    ctl: None,
                    ctl_adj: None,
                }),
            }),
        },
    );
    let mut store = PackageStore::new();
    store.insert(PackageId(0), package);
    let package = store.get(PackageId(0)).expect("package should exist");
    let cycles =
        detect_specializations_with_cycles(PackageId(0), package).expect("detection should run");
    assert_eq!(cycles.len(), 0);
}

#[test]
fn cycled_function_gets_conservative_table() {
    // function Foo(i : Int) : Int { Foo(i) }: inherently classical, and a
    // dynamic argument costs the cycled-function feature with a dynamic
    // output.
    let store = recursive_function_package();
    let analyzer = Analyzer::new(&store).expect("analysis should terminate and succeed");
    let properties = analyzer.get_package_store_compute_properties();
    let package_properties = properties.get(PackageId(0)).expect("entry should exist");
    let item = package_properties
        .find_item(LocalItemId(0))
        .expect("item should be analyzed");
    match item {
        ItemComputeProperties::Callable(callable) => {
            assert_eq!(callable.body.inherent, ComputeKind::Classical);
            assert_eq!(
                callable.body.dynamic_param_applications,
                vec![ComputeKind::Quantum(QuantumProperties {
                    runtime_features: CYCLED_FUNCTION_APPLICATION_USES_DYNAMIC_ARG,
                    value_kind: ValueKind::Element(RuntimeKind::Dynamic),
                })]
            );
        }
        ItemComputeProperties::NonCallable => panic!("expected a callable entry"),
    }
}

#[test]
fn cycled_unit_operation_is_quantum_with_static_value() {
    // operation Foo(q : Qubit) : Unit { Foo(q); }: inherently quantum with
    // the cycled-operation feature, and static because the output is unit.
    let store = recursive_operation_package();
    let analyzer = Analyzer::new(&store).expect("analysis should terminate and succeed");
    let properties = analyzer.get_package_store_compute_properties();
    let package_properties = properties.get(PackageId(0)).expect("entry should exist");
    let item = package_properties
        .find_item(LocalItemId(0))
        .expect("item should be analyzed");
    let expected = ComputeKind::Quantum(QuantumProperties {
        runtime_features: CYCLED_OPERATION_SPECIALIZATION_APPLICATION,
        value_kind: ValueKind::Element(RuntimeKind::Static),
    });
    match item {
        ItemComputeProperties::Callable(callable) => {
            assert_eq!(callable.body.inherent, expected);
            assert_eq!(callable.body.dynamic_param_applications, vec![expected]);
        }
        ItemComputeProperties::NonCallable => panic!("expected a callable entry"),
    }
}

#[test]
fn call_cyclic_function_with_classical_argument_yields_no_errors() {
    // function Foo(i : Int) : Int { Foo(i) } called as Foo(7) from a
    // top-level statement: everything stays classical.
    let mut package = Package::new();
    package.pats.insert(
        PatId(0),
        Pat {
            ty: Ty::Prim(Prim::Int),
            kind: PatKind::Bind(Ident { id: LocalVarId(0) }),
        },
    );
    cy_expr(
        &mut package,
        0,
        Ty::Arrow(CallableKind::Function),
        ExprKind::Var(Res::Item(ItemId {
            package: None,
            item: LocalItemId(0),
        })),
    );
    cy_expr(
        &mut package,
        1,
        Ty::Prim(Prim::Int),
        ExprKind::Var(Res::Local(LocalVarId(0))),
    );
    cy_expr(
        &mut package,
        2,
        Ty::Prim(Prim::Int),
        ExprKind::Call(ExprId(0), ExprId(1)),
    );
    cy_stmt(&mut package, 0, 0, 10, StmtKind::Expr(ExprId(2)));
    package.blocks.insert(
        BlockId(0),
        Block {
            ty: Ty::Prim(Prim::Int),
            stmts: vec![StmtId(0)],
        },
    );
    package.items.insert(
        LocalItemId(0),
        Item {
            kind: ItemKind::Callable(CallableDecl {
                kind: CallableKind::Function,
                input: PatId(0),
                output: Ty::Prim(Prim::Int),
                implementation: CallableImpl::Spec(Specializations {
                    body: SpecDecl {
                        block: BlockId(0),
                        input: None,
                    },
                    adj: None,
                    ctl: None,
                    ctl_adj: None,
                }),
            }),
        },
    );
    // Top-level: Foo(7);
    cy_expr(
        &mut package,
        3,
        Ty::Arrow(CallableKind::Function),
        ExprKind::Var(Res::Item(ItemId {
            package: None,
            item: LocalItemId(0),
        })),
    );
    cy_expr(&mut package, 4, Ty::Prim(Prim::Int), ExprKind::Lit);
    cy_expr(
        &mut package,
        5,
        Ty::Prim(Prim::Int),
        ExprKind::Call(ExprId(3), ExprId(4)),
    );
    cy_stmt(&mut package, 1, 20, 30, StmtKind::Semi(ExprId(5)));
    let mut store = PackageStore::new();
    store.insert(PackageId(0), package);
    let analyzer = Analyzer::new(&store).expect("analysis should succeed");
    let properties = analyzer.get_package_store_compute_properties();
    let package = store.get(PackageId(0)).expect("package should exist");
    let package_properties = properties.get(PackageId(0)).expect("entry should exist");
    let errors = check_supported_capabilities(package, package_properties, TARGET_EMPTY)
        .expect("package should be fully analyzed");
    assert_eq!(errors, Vec::new());
}

#[test]
fn call_cyclic_function_with_dynamic_argument_yields_errors() {
    // function Foo(i : Int) : Int { Foo(i) } plus an operation measuring a
    // qubit and calling Foo on the dynamic comparison: the call costs the
    // cycled-function feature on top of the dynamic bool and int.
    let mut package = Package::new();
    // Item 0: the cyclic function.
    package.pats.insert(
        PatId(0),
        Pat {
            ty: Ty::Prim(Prim::Int),
            kind: PatKind::Bind(Ident { id: LocalVarId(0) }),
        },
    );
    cy_expr(
        &mut package,
        0,
        Ty::Arrow(CallableKind::Function),
        ExprKind::Var(Res::Item(ItemId {
            package: None,
            item: LocalItemId(0),
        })),
    );
    cy_expr(
        &mut package,
        1,
        Ty::Prim(Prim::Int),
        ExprKind::Var(Res::Local(LocalVarId(0))),
    );
    cy_expr(
        &mut package,
        2,
        Ty::Prim(Prim::Int),
        ExprKind::Call(ExprId(0), ExprId(1)),
    );
    cy_stmt(&mut package, 0, 0, 10, StmtKind::Expr(ExprId(2)));
    package.blocks.insert(
        BlockId(0),
        Block {
            ty: Ty::Prim(Prim::Int),
            stmts: vec![StmtId(0)],
        },
    );
    package.items.insert(
        LocalItemId(0),
        Item {
            kind: ItemKind::Callable(CallableDecl {
                kind: CallableKind::Function,
                input: PatId(0),
                output: Ty::Prim(Prim::Int),
                implementation: CallableImpl::Spec(Specializations {
                    body: SpecDecl {
                        block: BlockId(0),
                        input: None,
                    },
                    adj: None,
                    ctl: None,
                    ctl_adj: None,
                }),
            }),
        },
    );
    // Item 1: qubit allocation; item 2: measurement.
    package.pats.insert(
        PatId(1),
        Pat {
            ty: Ty::Tuple(Vec::new()),
            kind: PatKind::Discard,
        },
    );
    package.items.insert(
        LocalItemId(1),
        Item {
            kind: ItemKind::Callable(CallableDecl {
                kind: CallableKind::Operation,
                input: PatId(1),
                output: Ty::Prim(Prim::Qubit),
                implementation: CallableImpl::Intrinsic,
            }),
        },
    );
    package.pats.insert(
        PatId(2),
        Pat {
            ty: Ty::Prim(Prim::Qubit),
            kind: PatKind::Bind(Ident { id: LocalVarId(100) }),
        },
    );
    package.items.insert(
        LocalItemId(2),
        Item {
            kind: ItemKind::Callable(CallableDecl {
                kind: CallableKind::Operation,
                input: PatId(2),
                output: Ty::Prim(Prim::Result),
                implementation: CallableImpl::Intrinsic,
            }),
        },
    );
    // Item 3: the caller operation.
    // use q = Qubit();
    cy_expr(
        &mut package,
        3,
        Ty::Arrow(CallableKind::Operation),
        ExprKind::Var(Res::Item(ItemId {
            package: None,
            item: LocalItemId(1),
        })),
    );
    cy_expr(&mut package, 4, Ty::Tuple(Vec::new()), ExprKind::Tuple(Vec::new()));
    cy_expr(
        &mut package,
        5,
        Ty::Prim(Prim::Qubit),
        ExprKind::Call(ExprId(3), ExprId(4)),
    );
    package.pats.insert(
        PatId(3),
        Pat {
            ty: Ty::Prim(Prim::Qubit),
            kind: PatKind::Bind(Ident { id: LocalVarId(1) }),
        },
    );
    cy_stmt(
        &mut package,
        1,
        10,
        20,
        StmtKind::Local(Mutability::Immutable, PatId(3), ExprId(5)),
    );
    // let i = M(q) == Zero ? 0 | 1;
    cy_expr(
        &mut package,
        6,
        Ty::Arrow(CallableKind::Operation),
        ExprKind::Var(Res::Item(ItemId {
            package: None,
            item: LocalItemId(2),
        })),
    );
    cy_expr(
        &mut package,
        7,
        Ty::Prim(Prim::Qubit),
        ExprKind::Var(Res::Local(LocalVarId(1))),
    );
    cy_expr(
        &mut package,
        8,
        Ty::Prim(Prim::Result),
        ExprKind::Call(ExprId(6), ExprId(7)),
    );
    cy_expr(&mut package, 9, Ty::Prim(Prim::Result), ExprKind::Lit);
    cy_expr(
        &mut package,
        10,
        Ty::Prim(Prim::Bool),
        ExprKind::BinOp(ExprId(8), ExprId(9)),
    );
    cy_expr(&mut package, 11, Ty::Prim(Prim::Int), ExprKind::Lit);
    cy_expr(&mut package, 12, Ty::Prim(Prim::Int), ExprKind::Lit);
    cy_expr(
        &mut package,
        13,
        Ty::Prim(Prim::Int),
        ExprKind::If(ExprId(10), ExprId(11), Some(ExprId(12))),
    );
    package.pats.insert(
        PatId(4),
        Pat {
            ty: Ty::Prim(Prim::Int),
            kind: PatKind::Bind(Ident { id: LocalVarId(2) }),
        },
    );
    cy_stmt(
        &mut package,
        2,
        20,
        30,
        StmtKind::Local(Mutability::Immutable, PatId(4), ExprId(13)),
    );
    // let r = Foo(i);
    cy_expr(
        &mut package,
        14,
        Ty::Arrow(CallableKind::Function),
        ExprKind::Var(Res::Item(ItemId {
            package: None,
            item: LocalItemId(0),
        })),
    );
    cy_expr(
        &mut package,
        15,
        Ty::Prim(Prim::Int),
        ExprKind::Var(Res::Local(LocalVarId(2))),
    );
    cy_expr(
        &mut package,
        16,
        Ty::Prim(Prim::Int),
        ExprKind::Call(ExprId(14), ExprId(15)),
    );
    package.pats.insert(
        PatId(5),
        Pat {
            ty: Ty::Prim(Prim::Int),
            kind: PatKind::Bind(Ident { id: LocalVarId(3) }),
        },
    );
    cy_stmt(
        &mut package,
        3,
        30,
        40,
        StmtKind::Local(Mutability::Immutable, PatId(5), ExprId(16)),
    );
    package.blocks.insert(
        BlockId(1),
        Block {
            ty: Ty::Tuple(Vec::new()),
            stmts: vec![StmtId(1), StmtId(2), StmtId(3)],
        },
    );
    package.pats.insert(
        PatId(6),
        Pat {
            ty: Ty::Tuple(Vec::new()),
            kind: PatKind::Discard,
        },
    );
    package.items.insert(
        LocalItemId(3),
        Item {
            kind: ItemKind::Callable(CallableDecl {
                kind: CallableKind::Operation,
                input: PatId(6),
                output: Ty::Tuple(Vec::new()),
                implementation: CallableImpl::Spec(Specializations {
                    body: SpecDecl {
                        block: BlockId(1),
                        input: None,
                    },
                    adj: None,
                    ctl: None,
                    ctl_adj: None,
                }),
            }),
        },
    );
    let mut store = PackageStore::new();
    store.insert(PackageId(0), package);
    let analyzer = Analyzer::new(&store).expect("analysis should succeed");
    let properties = analyzer.get_package_store_compute_properties();
    let package = store.get(PackageId(0)).expect("package should exist");
    let package_properties = properties.get(PackageId(0)).expect("entry should exist");
    let errors = check_supported_capabilities(package, package_properties, TARGET_EMPTY)
        .expect("package should be fully analyzed");
    assert_eq!(
        errors,
        vec![
            Error::UseOfDynamicBool(Span { lo: 20, hi: 30 }),
            Error::UseOfDynamicInt(Span { lo: 20, hi: 30 }),
            Error::UseOfDynamicInt(Span { lo: 30, hi: 40 }),
            Error::CyclicFunctionUsesDynamicArg(Span { lo: 30, hi: 40 }),
        ]
    );
}

#[test]
fn every_member_of_a_three_function_cycle_is_reported() {
    // function F0(i : Int) : Int { F1(i) }, F1 calls F2, F2 calls F0.
    let mut package = Package::new();
    for k in 0..3usize {
        package.pats.insert(
            PatId(k),
            Pat {
                ty: Ty::Prim(Prim::Int),
                kind: PatKind::Bind(Ident { id: LocalVarId(k) }),
            },
        );
        cy_expr(
            &mut package,
            3 * k,
            Ty::Arrow(CallableKind::Function),
            ExprKind::Var(Res::Item(ItemId {
                package: None,
                item: LocalItemId((k + 1) % 3),
            })),
        );
        cy_expr(
            &mut package,
            3 * k + 1,
            Ty::Prim(Prim::Int),
            ExprKind::Var(Res::Local(LocalVarId(k))),
        );
        cy_expr(
            &mut package,
            3 * k + 2,
            Ty::Prim(Prim::Int),
            ExprKind::Call(ExprId(3 * k), ExprId(3 * k + 1)),
        );
        cy_stmt(&mut package, k, 0, 10, StmtKind::Expr(ExprId(3 * k + 2)));
        package.blocks.insert(
            BlockId(k),
            Block {
                ty: Ty::Prim(Prim::Int),
                stmts: vec![StmtId(k)],
            },
        );
        package.items.insert(
            LocalItemId(k),
            Item {
                kind: ItemKind::Callable(CallableDecl {
                    kind: CallableKind::Function,
                    input: PatId(k),
                    output: Ty::Prim(Prim::Int),
                    implementation: CallableImpl::Spec(Specializations {
                        body: SpecDecl {
                            block: BlockId(k),
                            input: None,
                        },
                        adj: None,
                        ctl: None,
                        ctl_adj: None,
                    }),
                }),
            },
        );
    }
    let mut store = PackageStore::new();
    store.insert(PackageId(0), package);
    let package = store.get(PackageId(0)).expect("package should exist");
    let cycles =
        detect_specializations_with_cycles(PackageId(0), package).expect("detection should run");
    assert_eq!(cycles.len(), 3);
    for k in 0..3usize {
        assert!(cycles
            .iter()
            .any(|c| c.callable.item == LocalItemId(k)
                && c.functor_set_value == FunctorSetValue::Empty));
    }
}
