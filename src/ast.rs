//! The part of a module's syntax tree that the rewrite reads and writes.
//! Each type has a view of the same shape, with character sequences in place
//! of strings; the rewrite's contracts are stated over those views.
use vstd::prelude::*;

verus! {

/// A string literal: its value and, when the source text is known, its raw
/// text with the quotes.
#[derive(Debug, PartialEq, Eq)]
pub struct StrLit {
    pub value: String,
    pub raw: Option<String>,
}

pub struct LitModel {
    pub value: Seq<char>,
    pub raw: Option<Seq<char>>,
}

pub open spec fn opt_str_view(o: Option<String>) -> Option<Seq<char>> {
    match o {
        Some(s) => Some(s@),
        None => None,
    }
}

impl View for StrLit {
    type V = LitModel;

    open spec fn view(&self) -> LitModel {
        LitModel { value: self.value@, raw: opt_str_view(self.raw) }
    }
}

/// One binding of an import declaration.
#[derive(Debug, PartialEq, Eq)]
pub enum ImportSpecifier {
    /// `{ imported as local }`, or `{ local }` when `imported` is absent.
    Named { local: String, imported: Option<String> },
    /// `local` in `import local from "..."`.
    Default { local: String },
    /// `* as local`.
    Namespace { local: String },
}

pub enum SpecifierModel {
    Named { local: Seq<char>, imported: Option<Seq<char>> },
    Default { local: Seq<char> },
    Namespace { local: Seq<char> },
}

impl View for ImportSpecifier {
    type V = SpecifierModel;

    open spec fn view(&self) -> SpecifierModel {
        match self {
            ImportSpecifier::Named { local, imported } => SpecifierModel::Named {
                local: local@,
                imported: opt_str_view(*imported),
            },
            ImportSpecifier::Default { local } => SpecifierModel::Default { local: local@ },
            ImportSpecifier::Namespace { local } => SpecifierModel::Namespace { local: local@ },
        }
    }
}

impl Clone for ImportSpecifier {
    fn clone(&self) -> (r: Self)
        ensures
            r == *self,
    {
        match self {
            ImportSpecifier::Named { local, imported } => {
                let imported = match imported {
                    Some(n) => Some(n.clone()),
                    None => None,
                };
                ImportSpecifier::Named { local: local.clone(), imported }
            },
            ImportSpecifier::Default { local } => ImportSpecifier::Default { local: local.clone() },
            ImportSpecifier::Namespace { local } => ImportSpecifier::Namespace {
                local: local.clone(),
            },
        }
    }
}

/// A static import declaration: `import <specifiers> from <src>`.
#[derive(Debug, PartialEq, Eq)]
pub struct ImportDecl {
    pub specifiers: Vec<ImportSpecifier>,
    pub src: StrLit,
}

pub struct ImportModel {
    pub specifiers: Seq<SpecifierModel>,
    pub src: LitModel,
}

pub open spec fn specifier_views(s: Seq<ImportSpecifier>) -> Seq<SpecifierModel> {
    s.map_values(|x: ImportSpecifier| x@)
}

impl View for ImportDecl {
    type V = ImportModel;

    open spec fn view(&self) -> ImportModel {
        ImportModel { specifiers: specifier_views(self.specifiers@), src: self.src@ }
    }
}

pub open spec fn import_views(s: Seq<ImportDecl>) -> Seq<ImportModel> {
    s.map_values(|x: ImportDecl| x@)
}

/// One property of an object destructuring pattern.
#[derive(Debug, PartialEq, Eq)]
pub enum PatProp {
    /// `key: value`, bound to the identifier `value`.
    KeyValue { key: String, value: String },
    /// `key`, bound to an identifier of the same name.
    Shorthand { key: String },
    /// Any other property (a nested pattern, a rest element), kept as its text.
    Other(String),
}

pub enum PropModel {
    KeyValue { key: Seq<char>, value: Seq<char> },
    Shorthand { key: Seq<char> },
    Other(Seq<char>),
}

impl View for PatProp {
    type V = PropModel;

    open spec fn view(&self) -> PropModel {
        match self {
            PatProp::KeyValue { key, value } => PropModel::KeyValue { key: key@, value: value@ },
            PatProp::Shorthand { key } => PropModel::Shorthand { key: key@ },
            PatProp::Other(t) => PropModel::Other(t@),
        }
    }
}

impl Clone for PatProp {
    fn clone(&self) -> (r: Self)
        ensures
            r == *self,
    {
        match self {
            PatProp::KeyValue { key, value } => PatProp::KeyValue {
                key: key.clone(),
                value: value.clone(),
            },
            PatProp::Shorthand { key } => PatProp::Shorthand { key: key.clone() },
            PatProp::Other(t) => PatProp::Other(t.clone()),
        }
    }
}

pub open spec fn prop_views(s: Seq<PatProp>) -> Seq<PropModel> {
    s.map_values(|x: PatProp| x@)
}

/// The binding side of a variable declarator.
#[derive(Debug, PartialEq, Eq)]
pub enum Pat {
    Ident(String),
    Object(Vec<PatProp>),
    /// Any other pattern, kept as its text.
    Other(String),
}

pub enum PatModel {
    Ident(Seq<char>),
    Object(Seq<PropModel>),
    Other(Seq<char>),
}

impl View for Pat {
    type V = PatModel;

    open spec fn view(&self) -> PatModel {
        match self {
            Pat::Ident(n) => PatModel::Ident(n@),
            Pat::Object(props) => PatModel::Object(prop_views(props@)),
            Pat::Other(t) => PatModel::Other(t@),
        }
    }
}

/// An argument of a call.
#[derive(Debug, PartialEq, Eq)]
pub enum Arg {
    Str(StrLit),
    /// Any other argument, kept as its text.
    Other(String),
}

pub enum ArgModel {
    Str(LitModel),
    Other(Seq<char>),
}

impl View for Arg {
    type V = ArgModel;

    open spec fn view(&self) -> ArgModel {
        match self {
            Arg::Str(l) => ArgModel::Str(l@),
            Arg::Other(t) => ArgModel::Other(t@),
        }
    }
}

pub open spec fn arg_views(s: Seq<Arg>) -> Seq<ArgModel> {
    s.map_values(|x: Arg| x@)
}

/// An expression: a call of a named function, or anything else.
#[derive(Debug, PartialEq, Eq)]
pub enum Expr {
    Call { callee: String, args: Vec<Arg> },
    /// Any other expression, kept as its text.
    Other(String),
}

pub enum ExprModel {
    Call { callee: Seq<char>, args: Seq<ArgModel> },
    Other(Seq<char>),
}

impl View for Expr {
    type V = ExprModel;

    open spec fn view(&self) -> ExprModel {
        match self {
            Expr::Call { callee, args } => ExprModel::Call { callee: callee@, args: arg_views(args@) },
            Expr::Other(t) => ExprModel::Other(t@),
        }
    }
}

/// `name = init` inside a variable declaration.
#[derive(Debug, PartialEq, Eq)]
pub struct VarDeclarator {
    pub name: Pat,
    pub init: Option<Expr>,
}

pub struct DeclaratorModel {
    pub name: PatModel,
    pub init: Option<ExprModel>,
}

impl View for VarDeclarator {
    type V = DeclaratorModel;

    open spec fn view(&self) -> DeclaratorModel {
        DeclaratorModel {
            name: self.name@,
            init: match self.init {
                Some(e) => Some(e@),
                None => None,
            },
        }
    }
}

pub open spec fn declarator_views(s: Seq<VarDeclarator>) -> Seq<DeclaratorModel> {
    s.map_values(|x: VarDeclarator| x@)
}

#[derive(Clone, Copy, Debug, PartialEq, Eq, Structural)]
pub enum VarKind {
    Var,
    Let,
    Const,
}

/// `var`, `let` or `const` with its declarators.
#[derive(Debug, PartialEq, Eq)]
pub struct VarDecl {
    pub kind: VarKind,
    pub decls: Vec<VarDeclarator>,
}

pub struct VarDeclModel {
    pub kind: VarKind,
    pub decls: Seq<DeclaratorModel>,
}

impl View for VarDecl {
    type V = VarDeclModel;

    open spec fn view(&self) -> VarDeclModel {
        VarDeclModel { kind: self.kind, decls: declarator_views(self.decls@) }
    }
}

/// A statement.
#[derive(Debug, PartialEq, Eq)]
pub enum Stmt {
    Var(VarDecl),
    Expr(Expr),
    /// A nested statement list: a block, or the body of a function.
    Block(Vec<Stmt>),
    Empty,
    /// Any other statement, kept as its text.
    Other(String),
}

pub enum StmtModel {
    Var(VarDeclModel),
    Expr(ExprModel),
    Block(Seq<StmtModel>),
    Empty,
    Other(Seq<char>),
}

impl View for Stmt {
    type V = StmtModel;

    open spec fn view(&self) -> StmtModel
        decreases self, 0nat,
    {
        match self {
            Stmt::Var(d) => StmtModel::Var(d@),
            Stmt::Expr(e) => StmtModel::Expr(e@),
            Stmt::Block(ss) => StmtModel::Block(stmt_views_upto(ss@, ss@.len())),
            Stmt::Empty => StmtModel::Empty,
            Stmt::Other(t) => StmtModel::Other(t@),
        }
    }
}

/// The views of the first `n` statements of `ss`.
pub open spec fn stmt_views_upto(ss: Seq<Stmt>, n: nat) -> Seq<StmtModel>
    decreases ss, n,
{
    if n == 0 || n > ss.len() {
        Seq::empty()
    } else {
        stmt_views_upto(ss, (n - 1) as nat).push(ss[n - 1].view())
    }
}

pub open spec fn stmt_views(s: Seq<Stmt>) -> Seq<StmtModel> {
    stmt_views_upto(s, s.len())
}

proof fn lemma_stmt_views_upto(ss: Seq<Stmt>, n: nat)
    requires
        n <= ss.len(),
    ensures
        stmt_views_upto(ss, n).len() == n,
        forall|i: int| 0 <= i < n ==> #[trigger] stmt_views_upto(ss, n)[i] == ss[i]@,
    decreases n,
{
    reveal_with_fuel(stmt_views_upto, 2);
    if n > 0 {
        lemma_stmt_views_upto(ss, (n - 1) as nat);
        assert(stmt_views_upto(ss, n) == stmt_views_upto(ss, (n - 1) as nat).push(ss[n - 1]@));
    } else {
        assert(stmt_views_upto(ss, n) == Seq::<StmtModel>::empty());
    }
}

/// The views of a statement list, position by position.
pub broadcast proof fn lemma_stmt_views(ss: Seq<Stmt>)
    ensures
        #[trigger] stmt_views(ss).len() == ss.len(),
        forall|i: int| 0 <= i < ss.len() ==> #[trigger] stmt_views(ss)[i] == ss[i]@,
{
    lemma_stmt_views_upto(ss, ss.len());
}

/// A top-level item of a module.
#[derive(Debug, PartialEq, Eq)]
pub enum ModuleItem {
    Import(ImportDecl),
    Stmt(Stmt),
}

pub enum ItemModel {
    Import(ImportModel),
    Stmt(StmtModel),
}

impl View for ModuleItem {
    type V = ItemModel;

    open spec fn view(&self) -> ItemModel {
        match self {
            ModuleItem::Import(d) => ItemModel::Import(d@),
            ModuleItem::Stmt(s) => ItemModel::Stmt(s@),
        }
    }
}

pub open spec fn item_views(s: Seq<ModuleItem>) -> Seq<ItemModel> {
    s.map_values(|x: ModuleItem| x@)
}

/// A module: its top-level items in order.
#[derive(Debug, PartialEq, Eq)]
pub struct Module {
    pub body: Vec<ModuleItem>,
}

impl View for Module {
    type V = Seq<ItemModel>;

    open spec fn view(&self) -> Seq<ItemModel> {
        item_views(self.body@)
    }
}

}
