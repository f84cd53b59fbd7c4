//! The typed intermediate representation the analysis consumes: packages of
//! callables, blocks, statements, expressions and patterns, all addressed by
//! dense integer identifiers that are local to their package.
//!
//! The representation models exactly what the analysis reads. Payloads it
//! never inspects (literal values, operator symbols, field names) are left
//! out, and the front end is assumed to have resolved every name and type, so
//! there are no error or inference placeholders.

use crate::index_map::{Idx, IndexMap};
use vstd::prelude::*;

verus! {

/// A half-open source range, carried by statements so that diagnostics can
/// point at them.
#[derive(Clone, Copy, Debug, PartialEq, Eq, Structural)]
pub struct Span {
    pub lo: u32,
    pub hi: u32,
}

/// Identifies a package within a package store.
#[derive(Clone, Copy, Debug, PartialEq, Eq, Structural)]
pub struct PackageId(pub usize);

/// Identifies an item within a package.
#[derive(Clone, Copy, Debug, PartialEq, Eq, Structural)]
pub struct LocalItemId(pub usize);

/// Identifies a block within a package.
#[derive(Clone, Copy, Debug, PartialEq, Eq, Structural)]
pub struct BlockId(pub usize);

/// Identifies a statement within a package.
#[derive(Clone, Copy, Debug, PartialEq, Eq, Structural)]
pub struct StmtId(pub usize);

/// Identifies an expression within a package.
#[derive(Clone, Copy, Debug, PartialEq, Eq, Structural)]
pub struct ExprId(pub usize);

/// Identifies a pattern within a package.
#[derive(Clone, Copy, Debug, PartialEq, Eq, Structural)]
pub struct PatId(pub usize);

/// Identifies a local variable within a package.
#[derive(Clone, Copy, Debug, PartialEq, Eq, Structural)]
pub struct LocalVarId(pub usize);

impl Idx for PackageId {
    open spec fn idx(self) -> int {
        self.0 as int
    }

    open spec fn from_idx(i: int) -> Self {
        PackageId(i as usize)
    }

    proof fn lemma_idx_roundtrip(self) {
    }

    fn to_index(self) -> usize {
        self.0
    }

    fn from_index(i: usize) -> Self {
        PackageId(i)
    }
}

impl Idx for LocalItemId {
    open spec fn idx(self) -> int {
        self.0 as int
    }

    open spec fn from_idx(i: int) -> Self {
        LocalItemId(i as usize)
    }

    proof fn lemma_idx_roundtrip(self) {
    }

    fn to_index(self) -> usize {
        self.0
    }

    fn from_index(i: usize) -> Self {
        LocalItemId(i)
    }
}

impl Idx for BlockId {
    open spec fn idx(self) -> int {
        self.0 as int
    }

    open spec fn from_idx(i: int) -> Self {
        BlockId(i as usize)
    }

    proof fn lemma_idx_roundtrip(self) {
    }

    fn to_index(self) -> usize {
        self.0
    }

    fn from_index(i: usize) -> Self {
        BlockId(i)
    }
}

impl Idx for StmtId {
    open spec fn idx(self) -> int {
        self.0 as int
    }

    open spec fn from_idx(i: int) -> Self {
        StmtId(i as usize)
    }

    proof fn lemma_idx_roundtrip(self) {
    }

    fn to_index(self) -> usize {
        self.0
    }

    fn from_index(i: usize) -> Self {
        StmtId(i)
    }
}

impl Idx for ExprId {
    open spec fn idx(self) -> int {
        self.0 as int
    }

    open spec fn from_idx(i: int) -> Self {
        ExprId(i as usize)
    }

    proof fn lemma_idx_roundtrip(self) {
    }

    fn to_index(self) -> usize {
        self.0
    }

    fn from_index(i: usize) -> Self {
        ExprId(i)
    }
}

impl Idx for PatId {
    open spec fn idx(self) -> int {
        self.0 as int
    }

    open spec fn from_idx(i: int) -> Self {
        PatId(i as usize)
    }

    proof fn lemma_idx_roundtrip(self) {
    }

    fn to_index(self) -> usize {
        self.0
    }

    fn from_index(i: usize) -> Self {
        PatId(i)
    }
}

impl Idx for LocalVarId {
    open spec fn idx(self) -> int {
        self.0 as int
    }

    open spec fn from_idx(i: int) -> Self {
        LocalVarId(i as usize)
    }

    proof fn lemma_idx_roundtrip(self) {
    }

    fn to_index(self) -> usize {
        self.0
    }

    fn from_index(i: usize) -> Self {
        LocalVarId(i)
    }
}

/// Identifies an item across packages; a reference without a package part
/// points into the package it appears in.
#[derive(Clone, Copy, Debug, PartialEq, Eq, Structural)]
pub struct ItemId {
    pub package: Option<PackageId>,
    pub item: LocalItemId,
}

/// Globally identifies an item: a package paired with a local item.
#[derive(Clone, Copy, Debug, PartialEq, Eq, Structural)]
pub struct StoreItemId {
    pub package: PackageId,
    pub item: LocalItemId,
}

/// Globally identifies a block.
#[derive(Clone, Copy, Debug, PartialEq, Eq, Structural)]
pub struct StoreBlockId {
    pub package: PackageId,
    pub block: BlockId,
}

/// Globally identifies a statement.
#[derive(Clone, Copy, Debug, PartialEq, Eq, Structural)]
pub struct StoreStmtId {
    pub package: PackageId,
    pub stmt: StmtId,
}

/// Globally identifies an expression.
#[derive(Clone, Copy, Debug, PartialEq, Eq, Structural)]
pub struct StoreExprId {
    pub package: PackageId,
    pub expr: ExprId,
}

/// Globally identifies a pattern.
#[derive(Clone, Copy, Debug, PartialEq, Eq, Structural)]
pub struct StorePatId {
    pub package: PackageId,
    pub pat: PatId,
}

/// Whether a callable is a pure function or an operation that may act on
/// qubits.
#[derive(Clone, Copy, Debug, PartialEq, Eq, Structural)]
pub enum CallableKind {
    Function,
    Operation,
}

/// A primitive type.
#[derive(Clone, Copy, Debug, PartialEq, Eq, Structural)]
pub enum Prim {
    BigInt,
    Bool,
    Double,
    Int,
    Pauli,
    Qubit,
    Range,
    RangeFrom,
    RangeTo,
    RangeFull,
    Result,
    String,
}

/// The type of an expression or pattern. The unit type is the empty tuple.
#[derive(Debug)]
#[verifier::ext_equal]
pub enum Ty {
    /// An array of the element type.
    Array(Box<Ty>),
    /// A callable value of the given kind; parameter and return details are
    /// not read by the analysis.
    Arrow(CallableKind),
    Prim(Prim),
    Tuple(Vec<Ty>),
    /// A user-declared type; its fields are not tracked individually.
    Udt,
    /// A generic type parameter.
    Param,
}

impl Ty {
    /// Whether this is the unit type.
    pub open spec fn spec_is_unit(self) -> bool {
        match self {
            Ty::Tuple(items) => items@.len() == 0,
            _ => false,
        }
    }

    /// Whether this is the given primitive type.
    pub open spec fn spec_is_prim(self, prim: Prim) -> bool {
        self == Ty::Prim(prim)
    }

    pub fn is_unit(&self) -> (r: bool)
        ensures
            r == self.spec_is_unit(),
    {
        match self {
            Ty::Tuple(items) => items.len() == 0,
            _ => false,
        }
    }

    pub fn is_prim(&self, prim: Prim) -> (r: bool)
        ensures
            r == self.spec_is_prim(prim),
    {
        match self {
            Ty::Prim(p) => *p == prim,
            _ => false,
        }
    }

    /// The unit type.
    pub fn unit() -> (r: Ty)
        ensures
            r.spec_is_unit(),
    {
        Ty::Tuple(Vec::new())
    }
}

/// The set of functors applied to a callee expression: whether the adjoint
/// functor is active and how many controlled functors are stacked.
#[derive(Clone, Copy, Debug, PartialEq, Eq, Structural)]
pub struct FunctorApp {
    pub adjoint: bool,
    pub controlled: usize,
}

/// One of the four compiled specializations of a callable.
#[derive(Clone, Copy, Debug, PartialEq, Eq, Structural)]
pub enum FunctorSetValue {
    Empty,
    Adj,
    Ctl,
    CtlAdj,
}

impl FunctorApp {
    /// No functors applied.
    pub fn empty() -> (r: Self)
        ensures
            r == (FunctorApp { adjoint: false, controlled: 0 }),
    {
        FunctorApp { adjoint: false, controlled: 0 }
    }

    /// Which specialization this functor application selects.
    pub open spec fn spec_functor_set_value(self) -> FunctorSetValue {
        if self.adjoint && self.controlled > 0 {
            FunctorSetValue::CtlAdj
        } else if self.adjoint {
            FunctorSetValue::Adj
        } else if self.controlled > 0 {
            FunctorSetValue::Ctl
        } else {
            FunctorSetValue::Empty
        }
    }

    pub fn functor_set_value(self) -> (r: FunctorSetValue)
        ensures
            r == self.spec_functor_set_value(),
    {
        if self.adjoint && self.controlled > 0 {
            FunctorSetValue::CtlAdj
        } else if self.adjoint {
            FunctorSetValue::Adj
        } else if self.controlled > 0 {
            FunctorSetValue::Ctl
        } else {
            FunctorSetValue::Empty
        }
    }
}

/// A functor that can be applied to a callable value.
#[derive(Clone, Copy, Debug, PartialEq, Eq, Structural)]
pub enum Functor {
    Adj,
    Ctl,
}

/// A unary operator. Only functor application is inspected by the analysis;
/// the arithmetic and logical operators all propagate their operand alike.
#[derive(Clone, Copy, Debug, PartialEq, Eq, Structural)]
pub enum UnOp {
    Functor(Functor),
    Neg,
    NotB,
    NotL,
    Pos,
    Unwrap,
}

/// Whether a binding may be reassigned.
#[derive(Clone, Copy, Debug, PartialEq, Eq, Structural)]
pub enum Mutability {
    Immutable,
    Mutable,
}

/// What a variable expression resolves to.
#[derive(Clone, Copy, Debug, PartialEq, Eq, Structural)]
pub enum Res {
    /// A global item.
    Item(ItemId),
    /// A local binding.
    Local(LocalVarId),
}

/// One piece of a string interpolation: an interpolated expression or a
/// literal fragment (whose text the analysis does not read).
#[derive(Clone, Copy, Debug, PartialEq, Eq, Structural)]
pub enum StringComponent {
    Expr(ExprId),
    Lit,
}

/// The shape of an expression. Identifiers refer to the tables of the package
/// the expression belongs to.
#[derive(Debug)]
pub enum ExprKind {
    /// An array literal.
    Array(Vec<ExprId>),
    /// An array built from a repeated value and a size: value, size.
    ArrayRepeat(ExprId, ExprId),
    /// Assignment to a local or tuple of locals: assignee, value.
    Assign(ExprId, ExprId),
    /// Assignment to a field of a local: record, replacement value.
    AssignField(ExprId, ExprId),
    /// In-place replacement of an array element: array, index, replacement.
    AssignIndex(ExprId, ExprId, ExprId),
    /// Compound assignment to a local: assignee, value.
    AssignOp(ExprId, ExprId),
    /// A binary operator applied to two operands.
    BinOp(ExprId, ExprId),
    Block(BlockId),
    /// A call: callee, argument tuple.
    Call(ExprId, ExprId),
    /// A closure or partially applied callable; not followed by the analysis.
    Closure,
    /// Failure with a message expression.
    Fail(ExprId),
    /// A field access on a record expression.
    Field(ExprId),
    Hole,
    /// A conditional: condition, body, optional otherwise branch.
    If(ExprId, ExprId, Option<ExprId>),
    /// An array access: array, index.
    Index(ExprId, ExprId),
    /// A literal; its value is statically known, so it is not recorded.
    Lit,
    /// A range: start, step, end.
    Range(Option<ExprId>, Option<ExprId>, Option<ExprId>),
    Return(ExprId),
    String(Vec<StringComponent>),
    Tuple(Vec<ExprId>),
    UnOp(UnOp, ExprId),
    /// A copy-and-update of a field: record, replacement value.
    UpdateField(ExprId, ExprId),
    /// A copy-and-update of an array element: array, index, replacement.
    UpdateIndex(ExprId, ExprId, ExprId),
    Var(Res),
    While(ExprId, BlockId),
}

/// An expression with its type.
#[derive(Debug)]
pub struct Expr {
    pub ty: Ty,
    pub kind: ExprKind,
}

/// The shape of a statement.
#[derive(Clone, Copy, Debug, PartialEq, Eq, Structural)]
pub enum StmtKind {
    /// An expression without a trailing semicolon.
    Expr(ExprId),
    /// An item declared inside a block.
    Item(LocalItemId),
    /// A binding: mutability, pattern, bound expression.
    Local(Mutability, PatId, ExprId),
    /// An expression with a trailing semicolon.
    Semi(ExprId),
}

/// A statement with the source span diagnostics point at.
#[derive(Clone, Copy, Debug, PartialEq, Eq, Structural)]
pub struct Stmt {
    pub span: Span,
    pub kind: StmtKind,
}

/// A sequence of statements; the block's type is the type of its trailing
/// expression statement, or unit.
#[derive(Debug)]
pub struct Block {
    pub ty: Ty,
    pub stmts: Vec<StmtId>,
}

/// A bound name.
#[derive(Clone, Copy, Debug, PartialEq, Eq, Structural)]
pub struct Ident {
    pub id: LocalVarId,
}

/// The shape of a pattern.
#[derive(Debug)]
pub enum PatKind {
    Bind(Ident),
    Discard,
    Tuple(Vec<PatId>),
}

/// A pattern with its type.
#[derive(Debug)]
pub struct Pat {
    pub ty: Ty,
    pub kind: PatKind,
}

/// One compiled specialization body: its block, and for controlled
/// specializations the pattern binding the control qubits.
#[derive(Clone, Copy, Debug, PartialEq, Eq, Structural)]
pub struct SpecDecl {
    pub block: BlockId,
    pub input: Option<PatId>,
}

/// The bodies of a non-intrinsic callable.
#[derive(Clone, Copy, Debug, PartialEq, Eq, Structural)]
pub struct Specializations {
    pub body: SpecDecl,
    pub adj: Option<SpecDecl>,
    pub ctl: Option<SpecDecl>,
    pub ctl_adj: Option<SpecDecl>,
}

/// How a callable is implemented.
#[derive(Clone, Copy, Debug, PartialEq, Eq, Structural)]
pub enum CallableImpl {
    /// No body; the target provides the implementation.
    Intrinsic,
    Spec(Specializations),
}

/// A callable declaration.
#[derive(Debug)]
pub struct CallableDecl {
    pub kind: CallableKind,
    /// The pattern binding the input parameters.
    pub input: PatId,
    pub output: Ty,
    pub implementation: CallableImpl,
}

/// The shape of an item.
#[derive(Debug)]
pub enum ItemKind {
    Callable(CallableDecl),
    Namespace,
    Ty,
}

/// A top-level item.
#[derive(Debug)]
pub struct Item {
    pub kind: ItemKind,
}

/// One package: tables of items, blocks, statements, expressions and
/// patterns, each addressed by its dense identifier.
pub struct Package {
    pub items: IndexMap<LocalItemId, Item>,
    pub blocks: IndexMap<BlockId, Block>,
    pub stmts: IndexMap<StmtId, Stmt>,
    pub exprs: IndexMap<ExprId, Expr>,
    pub pats: IndexMap<PatId, Pat>,
}

impl Package {
    pub fn new() -> (r: Self)
        ensures
            forall|i: int| r.items.spec_get(i) is None,
            forall|i: int| r.blocks.spec_get(i) is None,
            forall|i: int| r.stmts.spec_get(i) is None,
            forall|i: int| r.exprs.spec_get(i) is None,
            forall|i: int| r.pats.spec_get(i) is None,
    {
        Package {
            items: IndexMap::new(),
            blocks: IndexMap::new(),
            stmts: IndexMap::new(),
            exprs: IndexMap::new(),
            pats: IndexMap::new(),
        }
    }

    pub fn get_block(&self, id: BlockId) -> (r: Option<&Block>)
        ensures
            match r {
                Some(b) => self.blocks.spec_get(id.idx()) == Some(*b),
                None => self.blocks.spec_get(id.idx()) is None,
            },
    {
        self.blocks.get(id)
    }

    pub fn get_stmt(&self, id: StmtId) -> (r: Option<&Stmt>)
        ensures
            match r {
                Some(s) => self.stmts.spec_get(id.idx()) == Some(*s),
                None => self.stmts.spec_get(id.idx()) is None,
            },
    {
        self.stmts.get(id)
    }

    pub fn get_expr(&self, id: ExprId) -> (r: Option<&Expr>)
        ensures
            match r {
                Some(e) => self.exprs.spec_get(id.idx()) == Some(*e),
                None => self.exprs.spec_get(id.idx()) is None,
            },
    {
        self.exprs.get(id)
    }

    pub fn get_pat(&self, id: PatId) -> (r: Option<&Pat>)
        ensures
            match r {
                Some(p) => self.pats.spec_get(id.idx()) == Some(*p),
                None => self.pats.spec_get(id.idx()) is None,
            },
    {
        self.pats.get(id)
    }

    pub fn get_item(&self, id: LocalItemId) -> (r: Option<&Item>)
        ensures
            match r {
                Some(it) => self.items.spec_get(id.idx()) == Some(*it),
                None => self.items.spec_get(id.idx()) is None,
            },
    {
        self.items.get(id)
    }
}

/// A store of packages addressed by package identifier. Packages only refer
/// to packages with smaller identifiers, so iterating in identifier order
/// processes dependencies first.
pub struct PackageStore {
    pub packages: IndexMap<PackageId, Package>,
}

impl PackageStore {
    pub fn new() -> (r: Self)
        ensures
            forall|i: int| r.packages.spec_get(i) is None,
    {
        PackageStore { packages: IndexMap::new() }
    }

    pub fn insert(&mut self, id: PackageId, package: Package)
        ensures
            final(self).packages.spec_get(id.idx()) == Some(package),
            forall|j: int|
                j != id.idx() ==> final(self).packages.spec_get(j) == old(
                    self,
                ).packages.spec_get(j),
    {
        self.packages.insert(id, package);
    }

    pub fn get(&self, id: PackageId) -> (r: Option<&Package>)
        ensures
            match r {
                Some(p) => self.packages.spec_get(id.idx()) == Some(*p),
                None => self.packages.spec_get(id.idx()) is None,
            },
    {
        self.packages.get(id)
    }
}

} // verus!
