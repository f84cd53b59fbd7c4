//! End-to-end scenarios: small programs built directly in the intermediate
//! representation, analyzed as a whole, and checked against target
//! capability sets.

use rca::analyzer::Analyzer;
use rca::capabilitiesck::check_supported_capabilities;
use rca::capabilitiesck::Error;
use rca::compute::ComputeKind;
use rca::compute::FORWARD_BRANCHING_ON_DYNAMIC_VALUE;
use rca::compute::TARGET_ALL;
use rca::compute::TARGET_EMPTY;
use rca::fir::Block;
use rca::fir::BlockId;
use rca::fir::CallableDecl;
use rca::fir::CallableImpl;
use rca::fir::CallableKind;
use rca::fir::Expr;
use rca::fir::ExprId;
use rca::fir::ExprKind;
use rca::fir::Ident;
use rca::fir::Item;
use rca::fir::ItemId;
use rca::fir::ItemKind;
use rca::fir::LocalItemId;
use rca::fir::LocalVarId;
use rca::fir::Mutability;
use rca::fir::Package;
use rca::fir::PackageId;
use rca::fir::PackageStore;
use rca::fir::Pat;
use rca::fir::PatId;
use rca::fir::PatKind;
use rca::fir::Prim;
use rca::fir::Res;
use rca::fir::Span;
use rca::fir::SpecDecl;
use rca::fir::Specializations;
use rca::fir::Stmt;
use rca::fir::StmtId;
use rca::fir::StmtKind;
use rca::fir::Ty;

fn unit_ty() -> Ty {
    Ty::Tuple(Vec::new())
}

fn sc_expr(package: &mut Package, id: usize, ty: Ty, kind: ExprKind) -> ExprId {
    package.exprs.insert(ExprId(id), Expr { ty, kind });
    ExprId(id)
}

fn sc_stmt(package: &mut Package, id: usize, lo: u32, hi: u32, kind: StmtKind) -> StmtId {
    package
        .stmts
        .insert(StmtId(id), Stmt { span: Span { lo, hi }, kind });
    StmtId(id)
}

fn sc_bind_pat(package: &mut Package, id: usize, var: usize, ty: Ty) -> PatId {
    package.pats.insert(
        PatId(id),
        Pat {
            ty,
            kind: PatKind::Bind(Ident { id: LocalVarId(var) }),
        },
    );
    PatId(id)
}

fn sc_item_ref(item: usize) -> ExprKind {
    ExprKind::Var(Res::Item(ItemId {
        package: None,
        item: LocalItemId(item),
    }))
}

/// A package holding two intrinsic operations: item 0 allocates a qubit
/// (unit input, qubit output) and item 1 measures one (qubit input, result
/// output). Expressions 0 through 5 and statement 0 model
/// `use q = Qubit();`, binding local 0; `M(q)` is expression 5.
fn base_package() -> Package {
    let mut package = Package::new();
    // Item 0: qubit allocation.
    package.pats.insert(
        PatId(0),
        Pat {
            ty: unit_ty(),
            kind: PatKind::Discard,
        },
    );
    package.items.insert(
        LocalItemId(0),
        Item {
            kind: ItemKind::Callable(CallableDecl {
                kind: CallableKind::Operation,
                input: PatId(0),
                output: Ty::Prim(Prim::Qubit),
                implementation: CallableImpl::Intrinsic,
            }),
        },
    );
    // Item 1: measurement.
    sc_bind_pat(&mut package, 1, 100, Ty::Prim(Prim::Qubit));
    package.items.insert(
        LocalItemId(1),
        Item {
            kind: ItemKind::Callable(CallableDecl {
                kind: CallableKind::Operation,
                input: PatId(1),
                output: Ty::Prim(Prim::Result),
                implementation: CallableImpl::Intrinsic,
            }),
        },
    );
    // use q = Qubit();
    sc_expr(&mut package, 0, Ty::Arrow(CallableKind::Operation), sc_item_ref(0));
    sc_expr(&mut package, 1, unit_ty(), ExprKind::Tuple(Vec::new()));
    sc_expr(
        &mut package,
        2,
        Ty::Prim(Prim::Qubit),
        ExprKind::Call(ExprId(0), ExprId(1)),
    );
    sc_bind_pat(&mut package, 3, 0, Ty::Prim(Prim::Qubit));
    sc_stmt(
        &mut package,
        0,
        0,
        10,
        StmtKind::Local(Mutability::Immutable, PatId(3), ExprId(2)),
    );
    // M(q)
    sc_expr(&mut package, 3, Ty::Arrow(CallableKind::Operation), sc_item_ref(1));
    sc_expr(
        &mut package,
        4,
        Ty::Prim(Prim::Qubit),
        ExprKind::Var(Res::Local(LocalVarId(0))),
    );
    sc_expr(
        &mut package,
        5,
        Ty::Prim(Prim::Result),
        ExprKind::Call(ExprId(3), ExprId(4)),
    );
    package
}

/// Installs a caller operation as item 2, whose unit body block 0 holds the
/// given statements, and returns the finished store.
fn finish_store(mut package: Package, stmts: Vec<StmtId>) -> PackageStore {
    package.blocks.insert(
        BlockId(0),
        Block {
            ty: unit_ty(),
            stmts,
        },
    );
    package.pats.insert(
        PatId(2),
        Pat {
            ty: unit_ty(),
            kind: PatKind::Discard,
        },
    );
    package.items.insert(
        LocalItemId(2),
        Item {
            kind: ItemKind::Callable(CallableDecl {
                kind: CallableKind::Operation,
                input: PatId(2),
                output: unit_ty(),
                implementation: CallableImpl::Spec(Specializations {
                    body: SpecDecl {
                        block: BlockId(0),
                        input: None,
                    },
                    adj: None,
                    ctl: None,
                    ctl_adj: None,
                }),
            }),
        },
    );
    let mut store = PackageStore::new();
    store.insert(PackageId(0), package);
    store
}

fn check_against(store: &PackageStore, target: u64) -> Vec<Error> {
    let analyzer = Analyzer::new(store).expect("analysis should succeed");
    let properties = analyzer.get_package_store_compute_properties();
    let package = store.get(PackageId(0)).expect("package should exist");
    let package_properties = properties.get(PackageId(0)).expect("entry should exist");
    check_supported_capabilities(package, package_properties, target)
        .expect("package should be fully analyzed")
}

#[test]
fn minimal_program_yields_no_errors() {
    // use q = Qubit(); let r = M(q);
    let mut package = base_package();
    sc_bind_pat(&mut package, 4, 1, Ty::Prim(Prim::Result));
    sc_stmt(
        &mut package,
        1,
        10,
        20,
        StmtKind::Local(Mutability::Immutable, PatId(4), ExprId(5)),
    );
    let store = finish_store(package, vec![StmtId(0), StmtId(1)]);
    assert_eq!(check_against(&store, TARGET_EMPTY), Vec::new());
}

#[test]
fn use_of_dynamic_boolean_yields_error() {
    // use q = Qubit(); let b = M(q) == Zero;
    let mut package = base_package();
    sc_expr(&mut package, 6, Ty::Prim(Prim::Result), ExprKind::Lit);
    sc_expr(
        &mut package,
        7,
        Ty::Prim(Prim::Bool),
        ExprKind::BinOp(ExprId(5), ExprId(6)),
    );
    sc_bind_pat(&mut package, 4, 1, Ty::Prim(Prim::Bool));
    sc_stmt(
        &mut package,
        1,
        10,
        20,
        StmtKind::Local(Mutability::Immutable, PatId(4), ExprId(7)),
    );
    let store = finish_store(package, vec![StmtId(0), StmtId(1)]);
    assert_eq!(
        check_against(&store, TARGET_EMPTY),
        vec![Error::UseOfDynamicBool(Span { lo: 10, hi: 20 })]
    );
}

#[test]
fn use_of_dynamic_int_yields_errors() {
    // use q = Qubit(); let i = M(q) == Zero ? 0 | 1;
    let mut package = base_package();
    sc_expr(&mut package, 6, Ty::Prim(Prim::Result), ExprKind::Lit);
    sc_expr(
        &mut package,
        7,
        Ty::Prim(Prim::Bool),
        ExprKind::BinOp(ExprId(5), ExprId(6)),
    );
    sc_expr(&mut package, 8, Ty::Prim(Prim::Int), ExprKind::Lit);
    sc_expr(&mut package, 9, Ty::Prim(Prim::Int), ExprKind::Lit);
    sc_expr(
        &mut package,
        10,
        Ty::Prim(Prim::Int),
        ExprKind::If(ExprId(7), ExprId(8), Some(ExprId(9))),
    );
    sc_bind_pat(&mut package, 4, 1, Ty::Prim(Prim::Int));
    sc_stmt(
        &mut package,
        1,
        10,
        20,
        StmtKind::Local(Mutability::Immutable, PatId(4), ExprId(10)),
    );
    let store = finish_store(package, vec![StmtId(0), StmtId(1)]);
    assert_eq!(
        check_against(&store, TARGET_EMPTY),
        vec![
            Error::UseOfDynamicBool(Span { lo: 10, hi: 20 }),
            Error::UseOfDynamicInt(Span { lo: 10, hi: 20 }),
        ]
    );
}

#[test]
fn use_of_dynamic_double_yields_errors() {
    // use q = Qubit(); let d = M(q) == Zero ? 0.0 | 1.0;
    let mut package = base_package();
    sc_expr(&mut package, 6, Ty::Prim(Prim::Result), ExprKind::Lit);
    sc_expr(
        &mut package,
        7,
        Ty::Prim(Prim::Bool),
        ExprKind::BinOp(ExprId(5), ExprId(6)),
    );
    sc_expr(&mut package, 8, Ty::Prim(Prim::Double), ExprKind::Lit);
    sc_expr(&mut package, 9, Ty::Prim(Prim::Double), ExprKind::Lit);
    sc_expr(
        &mut package,
        10,
        Ty::Prim(Prim::Double),
        ExprKind::If(ExprId(7), ExprId(8), Some(ExprId(9))),
    );
    sc_bind_pat(&mut package, 4, 1, Ty::Prim(Prim::Double));
    sc_stmt(
        &mut package,
        1,
        10,
        20,
        StmtKind::Local(Mutability::Immutable, PatId(4), ExprId(10)),
    );
    let store = finish_store(package, vec![StmtId(0), StmtId(1)]);
    assert_eq!(
        check_against(&store, TARGET_EMPTY),
        vec![
            Error::UseOfDynamicBool(Span { lo: 10, hi: 20 }),
            Error::UseOfDynamicDouble(Span { lo: 10, hi: 20 }),
        ]
    );
}

#[test]
fn use_of_dynamically_sized_array_yields_errors() {
    // use q = Qubit(); let s = M(q) == Zero ? 1 | 2; let a = [0, size = s];
    let mut package = base_package();
    sc_expr(&mut package, 6, Ty::Prim(Prim::Result), ExprKind::Lit);
    sc_expr(
        &mut package,
        7,
        Ty::Prim(Prim::Bool),
        ExprKind::BinOp(ExprId(5), ExprId(6)),
    );
    sc_expr(&mut package, 8, Ty::Prim(Prim::Int), ExprKind::Lit);
    sc_expr(&mut package, 9, Ty::Prim(Prim::Int), ExprKind::Lit);
    sc_expr(
        &mut package,
        10,
        Ty::Prim(Prim::Int),
        ExprKind::If(ExprId(7), ExprId(8), Some(ExprId(9))),
    );
    sc_bind_pat(&mut package, 4, 1, Ty::Prim(Prim::Int));
    sc_stmt(
        &mut package,
        1,
        10,
        20,
        StmtKind::Local(Mutability::Immutable, PatId(4), ExprId(10)),
    );
    sc_expr(&mut package, 11, Ty::Prim(Prim::Int), ExprKind::Lit);
    sc_expr(
        &mut package,
        12,
        Ty::Prim(Prim::Int),
        ExprKind::Var(Res::Local(LocalVarId(1))),
    );
    sc_expr(
        &mut package,
        13,
        Ty::Array(Box::new(Ty::Prim(Prim::Int))),
        ExprKind::ArrayRepeat(ExprId(11), ExprId(12)),
    );
    sc_bind_pat(&mut package, 5, 2, Ty::Array(Box::new(Ty::Prim(Prim::Int))));
    sc_stmt(
        &mut package,
        2,
        20,
        30,
        StmtKind::Local(Mutability::Immutable, PatId(5), ExprId(13)),
    );
    let store = finish_store(package, vec![StmtId(0), StmtId(1), StmtId(2)]);
    assert_eq!(
        check_against(&store, TARGET_EMPTY),
        vec![
            Error::UseOfDynamicBool(Span { lo: 10, hi: 20 }),
            Error::UseOfDynamicInt(Span { lo: 10, hi: 20 }),
            Error::UseOfDynamicInt(Span { lo: 20, hi: 30 }),
            Error::UseOfDynamicallySizedArray(Span { lo: 20, hi: 30 }),
        ]
    );
}

#[test]
fn universal_target_accepts_every_program() {
    // The dynamically-sized-array program against the universal capability
    // set: nothing is reported.
    let mut package = base_package();
    sc_expr(&mut package, 6, Ty::Prim(Prim::Result), ExprKind::Lit);
    sc_expr(
        &mut package,
        7,
        Ty::Prim(Prim::Bool),
        ExprKind::BinOp(ExprId(5), ExprId(6)),
    );
    sc_expr(&mut package, 8, Ty::Prim(Prim::Int), ExprKind::Lit);
    sc_expr(&mut package, 9, Ty::Prim(Prim::Int), ExprKind::Lit);
    sc_expr(
        &mut package,
        10,
        Ty::Prim(Prim::Int),
        ExprKind::If(ExprId(7), ExprId(8), Some(ExprId(9))),
    );
    sc_bind_pat(&mut package, 4, 1, Ty::Prim(Prim::Int));
    sc_stmt(
        &mut package,
        1,
        10,
        20,
        StmtKind::Local(Mutability::Immutable, PatId(4), ExprId(10)),
    );
    sc_expr(&mut package, 11, Ty::Prim(Prim::Int), ExprKind::Lit);
    sc_expr(
        &mut package,
        12,
        Ty::Prim(Prim::Int),
        ExprKind::Var(Res::Local(LocalVarId(1))),
    );
    sc_expr(
        &mut package,
        13,
        Ty::Array(Box::new(Ty::Prim(Prim::Int))),
        ExprKind::ArrayRepeat(ExprId(11), ExprId(12)),
    );
    sc_bind_pat(&mut package, 5, 2, Ty::Array(Box::new(Ty::Prim(Prim::Int))));
    sc_stmt(
        &mut package,
        2,
        20,
        30,
        StmtKind::Local(Mutability::Immutable, PatId(5), ExprId(13)),
    );
    let store = finish_store(package, vec![StmtId(0), StmtId(1), StmtId(2)]);
    assert_eq!(check_against(&store, TARGET_ALL), Vec::new());
}

#[test]
fn static_condition_keeps_conditional_classical() {
    // if true { 1 } else { 0 } used as a discarded expression: the whole
    // conditional is classical because nothing in it is dynamic.
    let mut package = base_package();
    sc_expr(&mut package, 6, Ty::Prim(Prim::Bool), ExprKind::Lit);
    sc_expr(&mut package, 7, Ty::Prim(Prim::Int), ExprKind::Lit);
    sc_expr(&mut package, 8, Ty::Prim(Prim::Int), ExprKind::Lit);
    sc_expr(
        &mut package,
        9,
        Ty::Prim(Prim::Int),
        ExprKind::If(ExprId(6), ExprId(7), Some(ExprId(8))),
    );
    sc_stmt(&mut package, 1, 10, 20, StmtKind::Semi(ExprId(9)));
    let store = finish_store(package, vec![StmtId(0), StmtId(1)]);
    let analyzer = Analyzer::new(&store).expect("analysis should succeed");
    let properties = analyzer.get_package_store_compute_properties();
    let package_properties = properties.get(PackageId(0)).expect("entry should exist");
    let if_entry = package_properties
        .find_expr(ExprId(9))
        .expect("conditional should be analyzed");
    assert_eq!(if_entry.inherent, ComputeKind::Classical);
    assert_eq!(check_against(&store, TARGET_EMPTY), Vec::new());
}

#[test]
fn call_within_dynamic_scope_requires_forward_branching() {
    // if M(q) == Zero { X(q); }: the call to X happens under a dynamic
    // condition, so the statement requires forward branching on a dynamic
    // value.
    let mut package = base_package();
    // Item 3: X, an intrinsic operation on one qubit.
    sc_bind_pat(&mut package, 6, 101, Ty::Prim(Prim::Qubit));
    package.items.insert(
        LocalItemId(3),
        Item {
            kind: ItemKind::Callable(CallableDecl {
                kind: CallableKind::Operation,
                input: PatId(6),
                output: unit_ty(),
                implementation: CallableImpl::Intrinsic,
            }),
        },
    );
    sc_expr(&mut package, 6, Ty::Prim(Prim::Result), ExprKind::Lit);
    sc_expr(
        &mut package,
        7,
        Ty::Prim(Prim::Bool),
        ExprKind::BinOp(ExprId(5), ExprId(6)),
    );
    // X(q) inside the branch block.
    sc_expr(&mut package, 8, Ty::Arrow(CallableKind::Operation), sc_item_ref(3));
    sc_expr(
        &mut package,
        9,
        Ty::Prim(Prim::Qubit),
        ExprKind::Var(Res::Local(LocalVarId(0))),
    );
    sc_expr(&mut package, 10, unit_ty(), ExprKind::Call(ExprId(8), ExprId(9)));
    sc_stmt(&mut package, 2, 14, 19, StmtKind::Semi(ExprId(10)));
    package.blocks.insert(
        BlockId(1),
        Block {
            ty: unit_ty(),
            stmts: vec![StmtId(2)],
        },
    );
    sc_expr(&mut package, 11, unit_ty(), ExprKind::Block(BlockId(1)));
    sc_expr(
        &mut package,
        12,
        unit_ty(),
        ExprKind::If(ExprId(7), ExprId(11), None),
    );
    sc_stmt(&mut package, 1, 10, 20, StmtKind::Semi(ExprId(12)));
    let store = finish_store(package, vec![StmtId(0), StmtId(1)]);
    let analyzer = Analyzer::new(&store).expect("analysis should succeed");
    let properties = analyzer.get_package_store_compute_properties();
    let package_properties = properties.get(PackageId(0)).expect("entry should exist");
    let call_entry = package_properties
        .find_expr(ExprId(10))
        .expect("call should be analyzed");
    match call_entry.inherent {
        ComputeKind::Quantum(properties) => {
            assert_ne!(properties.runtime_features & FORWARD_BRANCHING_ON_DYNAMIC_VALUE, 0);
        }
        ComputeKind::Classical => panic!("the call should be quantum"),
    }
    // Only the dynamic bool is reported: forward branching has no
    // diagnostic of its own among the reported kinds.
    assert_eq!(
        check_against(&store, TARGET_EMPTY),
        vec![Error::UseOfDynamicBool(Span { lo: 10, hi: 20 })]
    );
}

#[test]
fn incremental_update_rebuilds_the_same_results() {
    let mut package = base_package();
    sc_expr(&mut package, 6, Ty::Prim(Prim::Result), ExprKind::Lit);
    sc_expr(
        &mut package,
        7,
        Ty::Prim(Prim::Bool),
        ExprKind::BinOp(ExprId(5), ExprId(6)),
    );
    sc_bind_pat(&mut package, 4, 1, Ty::Prim(Prim::Bool));
    sc_stmt(
        &mut package,
        1,
        10,
        20,
        StmtKind::Local(Mutability::Immutable, PatId(4), ExprId(7)),
    );
    let store = finish_store(package, vec![StmtId(0), StmtId(1)]);
    let mut analyzer = Analyzer::new(&store).expect("analysis should succeed");
    analyzer
        .update_package_compute_properties(&store, PackageId(0))
        .expect("incremental update should succeed");
    let properties = analyzer.get_package_store_compute_properties();
    let package = store.get(PackageId(0)).expect("package should exist");
    let package_properties = properties.get(PackageId(0)).expect("entry should exist");
    let errors = check_supported_capabilities(package, package_properties, TARGET_EMPTY)
        .expect("package should be fully analyzed");
    assert_eq!(errors, vec![Error::UseOfDynamicBool(Span { lo: 10, hi: 20 })]);
}

#[test]
fn use_of_dynamic_pauli_yields_errors() {
    // use q = Qubit(); let p = M(q) == Zero ? PauliX | PauliZ;
    let mut package = base_package();
    sc_expr(&mut package, 6, Ty::Prim(Prim::Result), ExprKind::Lit);
    sc_expr(
        &mut package,
        7,
        Ty::Prim(Prim::Bool),
        ExprKind::BinOp(ExprId(5), ExprId(6)),
    );
    sc_expr(&mut package, 8, Ty::Prim(Prim::Pauli), ExprKind::Lit);
    sc_expr(&mut package, 9, Ty::Prim(Prim::Pauli), ExprKind::Lit);
    sc_expr(
        &mut package,
        10,
        Ty::Prim(Prim::Pauli),
        ExprKind::If(ExprId(7), ExprId(8), Some(ExprId(9))),
    );
    sc_bind_pat(&mut package, 4, 1, Ty::Prim(Prim::Pauli));
    sc_stmt(
        &mut package,
        1,
        10,
        20,
        StmtKind::Local(Mutability::Immutable, PatId(4), ExprId(10)),
    );
    let store = finish_store(package, vec![StmtId(0), StmtId(1)]);
    assert_eq!(
        check_against(&store, TARGET_EMPTY),
        vec![
            Error::UseOfDynamicBool(Span { lo: 10, hi: 20 }),
            Error::UseOfDynamicPauli(Span { lo: 10, hi: 20 }),
        ]
    );
}

#[test]
fn use_of_dynamic_range_yields_errors() {
    // use q = Qubit(); let r = 1 .. (M(q) == Zero ? 2 | 4);
    let mut package = base_package();
    sc_expr(&mut package, 6, Ty::Prim(Prim::Result), ExprKind::Lit);
    sc_expr(
        &mut package,
        7,
        Ty::Prim(Prim::Bool),
        ExprKind::BinOp(ExprId(5), ExprId(6)),
    );
    sc_expr(&mut package, 8, Ty::Prim(Prim::Int), ExprKind::Lit);
    sc_expr(&mut package, 9, Ty::Prim(Prim::Int), ExprKind::Lit);
    sc_expr(
        &mut package,
        10,
        Ty::Prim(Prim::Int),
        ExprKind::If(ExprId(7), ExprId(8), Some(ExprId(9))),
    );
    sc_expr(&mut package, 11, Ty::Prim(Prim::Int), ExprKind::Lit);
    sc_expr(
        &mut package,
        12,
        Ty::Prim(Prim::Range),
        ExprKind::Range(Some(ExprId(11)), None, Some(ExprId(10))),
    );
    sc_bind_pat(&mut package, 4, 1, Ty::Prim(Prim::Range));
    sc_stmt(
        &mut package,
        1,
        10,
        20,
        StmtKind::Local(Mutability::Immutable, PatId(4), ExprId(12)),
    );
    let store = finish_store(package, vec![StmtId(0), StmtId(1)]);
    assert_eq!(
        check_against(&store, TARGET_EMPTY),
        vec![
            Error::UseOfDynamicBool(Span { lo: 10, hi: 20 }),
            Error::UseOfDynamicInt(Span { lo: 10, hi: 20 }),
            Error::UseOfDynamicRange(Span { lo: 10, hi: 20 }),
        ]
    );
}
