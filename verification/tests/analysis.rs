//! Deeper analysis paths: controlled specializations, cross-package calls,
//! assignment under a dynamic scope, and the checker's failure mode.

use rca::analyzer::Analyzer;
use rca::capabilitiesck::check_supported_capabilities;
use rca::capabilitiesck::Error;
use rca::common::AnalysisError;
use rca::compute::TARGET_EMPTY;
use rca::fir::Block;
use rca::fir::BlockId;
use rca::fir::CallableDecl;
use rca::fir::CallableImpl;
use rca::fir::CallableKind;
use rca::fir::Expr;
use rca::fir::ExprId;
use rca::fir::ExprKind;
use rca::fir::Functor;
use rca::fir::Ident;
use rca::fir::Item;
use rca::fir::ItemId;
use rca::fir::ItemKind;
use rca::fir::LocalItemId;
use rca::fir::LocalVarId;
use rca::fir::Mutability;
use rca::fir::Package;
use rca::fir::PackageId;
use rca::fir::PackageStore;
use rca::fir::Pat;
use rca::fir::PatId;
use rca::fir::PatKind;
use rca::fir::Prim;
use rca::fir::Res;
use rca::fir::Span;
use rca::fir::SpecDecl;
use rca::fir::Specializations;
use rca::fir::Stmt;
use rca::fir::StmtId;
use rca::fir::StmtKind;
use rca::fir::Ty;
use rca::fir::UnOp;
use rca::scaffolding::ItemComputeProperties;
use rca::scaffolding::PackageComputeProperties;

fn an_expr(package: &mut Package, id: usize, ty: Ty, kind: ExprKind) {
    package.exprs.insert(ExprId(id), Expr { ty, kind });
}

fn an_stmt(package: &mut Package, id: usize, lo: u32, hi: u32, kind: StmtKind) {
    package
        .stmts
        .insert(StmtId(id), Stmt { span: Span { lo, hi }, kind });
}

fn an_bind(package: &mut Package, id: usize, var: usize, ty: Ty) {
    package.pats.insert(
        PatId(id),
        Pat {
            ty,
            kind: PatKind::Bind(Ident { id: LocalVarId(var) }),
        },
    );
}

fn unit() -> Ty {
    Ty::Tuple(Vec::new())
}

#[test]
fn controlled_specialization_gets_a_leading_controls_parameter() {
    let mut package = Package::new();
    // Item 0: qubit allocation.
    package.pats.insert(
        PatId(0),
        Pat {
            ty: unit(),
            kind: PatKind::Discard,
        },
    );
    package.items.insert(
        LocalItemId(0),
        Item {
            kind: ItemKind::Callable(CallableDecl {
                kind: CallableKind::Operation,
                input: PatId(0),
                output: Ty::Prim(Prim::Qubit),
                implementation: CallableImpl::Intrinsic,
            }),
        },
    );
    // Item 1: Foo(q : Qubit) : Unit, with an empty body and an empty
    // controlled specialization binding the control register.
    an_bind(&mut package, 1, 10, Ty::Prim(Prim::Qubit));
    an_bind(&mut package, 2, 11, Ty::Array(Box::new(Ty::Prim(Prim::Qubit))));
    package.blocks.insert(
        BlockId(1),
        Block {
            ty: unit(),
            stmts: Vec::new(),
        },
    );
    package.blocks.insert(
        BlockId(2),
        Block {
            ty: unit(),
            stmts: Vec::new(),
        },
    );
    package.items.insert(
        LocalItemId(1),
        Item {
            kind: ItemKind::Callable(CallableDecl {
                kind: CallableKind::Operation,
                input: PatId(1),
                output: unit(),
                implementation: CallableImpl::Spec(Specializations {
                    body: SpecDecl {
                        block: BlockId(1),
                        input: None,
                    },
                    adj: None,
                    ctl: Some(SpecDecl {
                        block: BlockId(2),
                        input: Some(PatId(2)),
                    }),
                    ctl_adj: None,
                }),
            }),
        },
    );
    // Item 2: the caller: use q; use c; Controlled Foo([c], q);
    package.pats.insert(
        PatId(3),
        Pat {
            ty: unit(),
            kind: PatKind::Discard,
        },
    );
    an_expr(&mut package, 0, Ty::Arrow(CallableKind::Operation), ExprKind::Var(Res::Item(ItemId { package: None, item: LocalItemId(0) })));
    an_expr(&mut package, 1, unit(), ExprKind::Tuple(Vec::new()));
    an_expr(&mut package, 2, Ty::Prim(Prim::Qubit), ExprKind::Call(ExprId(0), ExprId(1)));
    an_bind(&mut package, 4, 0, Ty::Prim(Prim::Qubit));
    an_stmt(&mut package, 0, 0, 10, StmtKind::Local(Mutability::Immutable, PatId(4), ExprId(2)));
    an_expr(&mut package, 3, Ty::Arrow(CallableKind::Operation), ExprKind::Var(Res::Item(ItemId { package: None, item: LocalItemId(0) })));
    an_expr(&mut package, 4, unit(), ExprKind::Tuple(Vec::new()));
    an_expr(&mut package, 5, Ty::Prim(Prim::Qubit), ExprKind::Call(ExprId(3), ExprId(4)));
    an_bind(&mut package, 5, 1, Ty::Prim(Prim::Qubit));
    an_stmt(&mut package, 1, 10, 20, StmtKind::Local(Mutability::Immutable, PatId(5), ExprId(5)));
    an_expr(&mut package, 6, Ty::Arrow(CallableKind::Operation), ExprKind::Var(Res::Item(ItemId { package: None, item: LocalItemId(1) })));
    an_expr(
        &mut package,
        7,
        Ty::Arrow(CallableKind::Operation),
        ExprKind::UnOp(UnOp::Functor(Functor::Ctl), ExprId(6)),
    );
    an_expr(&mut package, 8, Ty::Prim(Prim::Qubit), ExprKind::Var(Res::Local(LocalVarId(1))));
    an_expr(
        &mut package,
        9,
        Ty::Array(Box::new(Ty::Prim(Prim::Qubit))),
        ExprKind::Array(vec![ExprId(8)]),
    );
    an_expr(&mut package, 10, Ty::Prim(Prim::Qubit), ExprKind::Var(Res::Local(LocalVarId(0))));
    an_expr(
        &mut package,
        11,
        unit(),
        ExprKind::Tuple(vec![ExprId(9), ExprId(10)]),
    );
    an_expr(&mut package, 12, unit(), ExprKind::Call(ExprId(7), ExprId(11)));
    an_stmt(&mut package, 2, 20, 30, StmtKind::Semi(ExprId(12)));
    package.blocks.insert(
        BlockId(0),
        Block {
            ty: unit(),
            stmts: vec![StmtId(0), StmtId(1), StmtId(2)],
        },
    );
    package.items.insert(
        LocalItemId(2),
        Item {
            kind: ItemKind::Callable(CallableDecl {
                kind: CallableKind::Operation,
                input: PatId(3),
                output: unit(),
                implementation: CallableImpl::Spec(Specializations {
                    body: SpecDecl {
                        block: BlockId(0),
                        input: None,
                    },
                    adj: None,
                    ctl: None,
                    ctl_adj: None,
                }),
            }),
        },
    );
    let mut store = PackageStore::new();
    store.insert(PackageId(0), package);
    let analyzer = Analyzer::new(&store).expect("analysis should succeed");
    let properties = analyzer.get_package_store_compute_properties();
    let package_properties = properties.get(PackageId(0)).expect("entry should exist");
    match package_properties
        .find_item(LocalItemId(1))
        .expect("item should be analyzed")
    {
        ItemComputeProperties::Callable(callable) => {
            // The controlled specialization's table has the leading controls
            // parameter plus the declared qubit parameter.
            let ctl = callable.ctl.as_ref().expect("ctl table should exist");
            assert_eq!(ctl.dynamic_param_applications.len(), 2);
        }
        ItemComputeProperties::NonCallable => panic!("expected a callable entry"),
    }
    let package = store.get(PackageId(0)).expect("package should exist");
    let errors = check_supported_capabilities(package, package_properties, TARGET_EMPTY)
        .expect("package should be fully analyzed");
    assert_eq!(errors, Vec::new());
}

#[test]
fn calls_resolve_across_packages() {
    // Package 0 holds the measurement intrinsic; package 1 measures a qubit
    // allocated locally and binds the dynamic comparison.
    let mut core_package = Package::new();
    an_bind(&mut core_package, 0, 0, Ty::Prim(Prim::Qubit));
    core_package.items.insert(
        LocalItemId(0),
        Item {
            kind: ItemKind::Callable(CallableDecl {
                kind: CallableKind::Operation,
                input: PatId(0),
                output: Ty::Prim(Prim::Result),
                implementation: CallableImpl::Intrinsic,
            }),
        },
    );
    core_package.pats.insert(
        PatId(1),
        Pat {
            ty: unit(),
            kind: PatKind::Discard,
        },
    );
    core_package.items.insert(
        LocalItemId(1),
        Item {
            kind: ItemKind::Callable(CallableDecl {
                kind: CallableKind::Operation,
                input: PatId(1),
                output: Ty::Prim(Prim::Qubit),
                implementation: CallableImpl::Intrinsic,
            }),
        },
    );

    let mut user_package = Package::new();
    // use q = Qubit(); via the allocation intrinsic of package 0.
    an_expr(
        &mut user_package,
        0,
        Ty::Arrow(CallableKind::Operation),
        ExprKind::Var(Res::Item(ItemId {
            package: Some(PackageId(0)),
            item: LocalItemId(1),
        })),
    );
    an_expr(&mut user_package, 1, unit(), ExprKind::Tuple(Vec::new()));
    an_expr(&mut user_package, 2, Ty::Prim(Prim::Qubit), ExprKind::Call(ExprId(0), ExprId(1)));
    an_bind(&mut user_package, 0, 0, Ty::Prim(Prim::Qubit));
    an_stmt(&mut user_package, 0, 0, 10, StmtKind::Local(Mutability::Immutable, PatId(0), ExprId(2)));
    // let b = M(q) == Zero; via the measurement intrinsic of package 0.
    an_expr(
        &mut user_package,
        3,
        Ty::Arrow(CallableKind::Operation),
        ExprKind::Var(Res::Item(ItemId {
            package: Some(PackageId(0)),
            item: LocalItemId(0),
        })),
    );
    an_expr(&mut user_package, 4, Ty::Prim(Prim::Qubit), ExprKind::Var(Res::Local(LocalVarId(0))));
    an_expr(&mut user_package, 5, Ty::Prim(Prim::Result), ExprKind::Call(ExprId(3), ExprId(4)));
    an_expr(&mut user_package, 6, Ty::Prim(Prim::Result), ExprKind::Lit);
    an_expr(&mut user_package, 7, Ty::Prim(Prim::Bool), ExprKind::BinOp(ExprId(5), ExprId(6)));
    an_bind(&mut user_package, 1, 1, Ty::Prim(Prim::Bool));
    an_stmt(&mut user_package, 1, 10, 20, StmtKind::Local(Mutability::Immutable, PatId(1), ExprId(7)));

    let mut store = PackageStore::new();
    store.insert(PackageId(0), core_package);
    store.insert(PackageId(1), user_package);
    let analyzer = Analyzer::new(&store).expect("analysis should succeed");
    let properties = analyzer.get_package_store_compute_properties();
    let package = store.get(PackageId(1)).expect("package should exist");
    let package_properties = properties.get(PackageId(1)).expect("entry should exist");
    let errors = check_supported_capabilities(package, package_properties, TARGET_EMPTY)
        .expect("package should be fully analyzed");
    assert_eq!(errors, vec![Error::UseOfDynamicBool(Span { lo: 10, hi: 20 })]);
}

#[test]
fn assignment_in_dynamic_scope_makes_the_local_dynamic() {
    // use q; mutable b = false; if M(q) == Zero { set b = true; } let c = b;
    // The conditionally executed assignment forces b dynamic, so the final
    // read costs a dynamic bool as well.
    let mut package = Package::new();
    package.pats.insert(
        PatId(0),
        Pat {
            ty: unit(),
            kind: PatKind::Discard,
        },
    );
    package.items.insert(
        LocalItemId(0),
        Item {
            kind: ItemKind::Callable(CallableDecl {
                kind: CallableKind::Operation,
                input: PatId(0),
                output: Ty::Prim(Prim::Qubit),
                implementation: CallableImpl::Intrinsic,
            }),
        },
    );
    an_bind(&mut package, 1, 10, Ty::Prim(Prim::Qubit));
    package.items.insert(
        LocalItemId(1),
        Item {
            kind: ItemKind::Callable(CallableDecl {
                kind: CallableKind::Operation,
                input: PatId(1),
                output: Ty::Prim(Prim::Result),
                implementation: CallableImpl::Intrinsic,
            }),
        },
    );
    // use q = Qubit();
    an_expr(&mut package, 0, Ty::Arrow(CallableKind::Operation), ExprKind::Var(Res::Item(ItemId { package: None, item: LocalItemId(0) })));
    an_expr(&mut package, 1, unit(), ExprKind::Tuple(Vec::new()));
    an_expr(&mut package, 2, Ty::Prim(Prim::Qubit), ExprKind::Call(ExprId(0), ExprId(1)));
    an_bind(&mut package, 2, 0, Ty::Prim(Prim::Qubit));
    an_stmt(&mut package, 0, 0, 10, StmtKind::Local(Mutability::Immutable, PatId(2), ExprId(2)));
    // mutable b = false;
    an_expr(&mut package, 3, Ty::Prim(Prim::Bool), ExprKind::Lit);
    an_bind(&mut package, 3, 1, Ty::Prim(Prim::Bool));
    an_stmt(&mut package, 1, 10, 20, StmtKind::Local(Mutability::Mutable, PatId(3), ExprId(3)));
    // if M(q) == Zero { set b = true; }
    an_expr(&mut package, 4, Ty::Arrow(CallableKind::Operation), ExprKind::Var(Res::Item(ItemId { package: None, item: LocalItemId(1) })));
    an_expr(&mut package, 5, Ty::Prim(Prim::Qubit), ExprKind::Var(Res::Local(LocalVarId(0))));
    an_expr(&mut package, 6, Ty::Prim(Prim::Result), ExprKind::Call(ExprId(4), ExprId(5)));
    an_expr(&mut package, 7, Ty::Prim(Prim::Result), ExprKind::Lit);
    an_expr(&mut package, 8, Ty::Prim(Prim::Bool), ExprKind::BinOp(ExprId(6), ExprId(7)));
    an_expr(&mut package, 9, Ty::Prim(Prim::Bool), ExprKind::Var(Res::Local(LocalVarId(1))));
    an_expr(&mut package, 10, Ty::Prim(Prim::Bool), ExprKind::Lit);
    an_expr(&mut package, 11, unit(), ExprKind::Assign(ExprId(9), ExprId(10)));
    an_stmt(&mut package, 2, 24, 29, StmtKind::Semi(ExprId(11)));
    package.blocks.insert(
        BlockId(1),
        Block {
            ty: unit(),
            stmts: vec![StmtId(2)],
        },
    );
    an_expr(&mut package, 12, unit(), ExprKind::Block(BlockId(1)));
    an_expr(&mut package, 13, unit(), ExprKind::If(ExprId(8), ExprId(12), None));
    an_stmt(&mut package, 3, 20, 30, StmtKind::Semi(ExprId(13)));
    // let c = b;
    an_expr(&mut package, 14, Ty::Prim(Prim::Bool), ExprKind::Var(Res::Local(LocalVarId(1))));
    an_bind(&mut package, 4, 2, Ty::Prim(Prim::Bool));
    an_stmt(&mut package, 4, 30, 40, StmtKind::Local(Mutability::Immutable, PatId(4), ExprId(14)));
    package.blocks.insert(
        BlockId(0),
        Block {
            ty: unit(),
            stmts: vec![StmtId(0), StmtId(1), StmtId(3), StmtId(4)],
        },
    );
    package.pats.insert(
        PatId(5),
        Pat {
            ty: unit(),
            kind: PatKind::Discard,
        },
    );
    package.items.insert(
        LocalItemId(2),
        Item {
            kind: ItemKind::Callable(CallableDecl {
                kind: CallableKind::Operation,
                input: PatId(5),
                output: unit(),
                implementation: CallableImpl::Spec(Specializations {
                    body: SpecDecl {
                        block: BlockId(0),
                        input: None,
                    },
                    adj: None,
                    ctl: None,
                    ctl_adj: None,
                }),
            }),
        },
    );
    let mut store = PackageStore::new();
    store.insert(PackageId(0), package);
    let analyzer = Analyzer::new(&store).expect("analysis should succeed");
    let properties = analyzer.get_package_store_compute_properties();
    let package = store.get(PackageId(0)).expect("package should exist");
    let package_properties = properties.get(PackageId(0)).expect("entry should exist");
    let errors = check_supported_capabilities(package, package_properties, TARGET_EMPTY)
        .expect("package should be fully analyzed");
    assert_eq!(
        errors,
        vec![
            Error::UseOfDynamicBool(Span { lo: 24, hi: 29 }),
            Error::UseOfDynamicBool(Span { lo: 20, hi: 30 }),
            Error::UseOfDynamicBool(Span { lo: 30, hi: 40 }),
        ]
    );
}

#[test]
fn checker_refuses_a_partially_analyzed_package() {
    // A package with a statement but an empty compute-properties entry: the
    // checker reports the internal error instead of guessing.
    let mut package = Package::new();
    an_expr(&mut package, 0, Ty::Prim(Prim::Int), ExprKind::Lit);
    an_stmt(&mut package, 0, 0, 10, StmtKind::Semi(ExprId(0)));
    let empty_properties = PackageComputeProperties::new();
    let result = check_supported_capabilities(&package, &empty_properties, TARGET_EMPTY);
    assert_eq!(result, Err(AnalysisError::MalformedProgram));
}

#[test]
fn shared_expression_nodes_are_refused() {
    // The program representation is tree shaped: a table in which one
    // expression node is referenced twice is refused as malformed rather
    // than silently re-analyzed.
    let mut package = Package::new();
    an_expr(&mut package, 0, Ty::Prim(Prim::Int), ExprKind::Lit);
    an_expr(
        &mut package,
        1,
        Ty::Prim(Prim::Int),
        ExprKind::BinOp(ExprId(0), ExprId(0)),
    );
    an_stmt(&mut package, 0, 0, 10, StmtKind::Semi(ExprId(1)));
    let mut store = PackageStore::new();
    store.insert(PackageId(0), package);
    assert!(matches!(
        Analyzer::new(&store),
        Err(AnalysisError::DuplicateEntry)
    ));
}
