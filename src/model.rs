//! What the rewrite produces, stated over the views of the syntax tree.
use vstd::prelude::*;
use crate::ast::{
    ArgModel, DeclaratorModel, ExprModel, ImportModel, ItemModel, LitModel, PatModel, PropModel,
    SpecifierModel, StmtModel, VarDeclModel, VarKind,
};
use crate::options::{Options, component_path, imports_style, style_source};

verus! {

pub open spec fn starts_with_double(s: Seq<char>) -> bool {
    s.len() > 0 && s[0] == '"'
}

/// The quote that synthesized literals copy from `lit`: double if its raw
/// text starts with one, single otherwise (also when the raw text is unknown).
pub open spec fn quote_of(lit: LitModel) -> char {
    match lit.raw {
        Some(r) => if starts_with_double(r) {
            '"'
        } else {
            '\''
        },
        None => '\'',
    }
}

pub open spec fn wrapped(s: Seq<char>, q: char) -> Seq<char> {
    seq![q] + s + seq![q]
}

/// A literal with value `s` written between `q` quotes.
pub open spec fn quoted_lit(s: Seq<char>, q: char) -> LitModel {
    LitModel { value: s, raw: Some(wrapped(s, q)) }
}

// ---- import declarations ----

/// The exported name that a named specifier refers to.
pub open spec fn imported_name(sp: SpecifierModel) -> Seq<char> {
    match sp {
        SpecifierModel::Named { local, imported } => match imported {
            Some(n) => n,
            None => local,
        },
        _ => Seq::empty(),
    }
}

/// The binding that a named specifier becomes in its component import.
pub open spec fn new_specifier(sp: SpecifierModel, o: Options) -> SpecifierModel {
    match sp {
        SpecifierModel::Named { local, imported } => if o.transform_to_default_import {
            SpecifierModel::Default { local }
        } else {
            sp
        },
        _ => sp,
    }
}

/// The import of one component, taking the quote of the barrel import `src`.
pub open spec fn component_import(sp: SpecifierModel, src: LitModel, o: Options) -> ImportModel {
    let path = component_path(imported_name(sp), o);
    ImportModel {
        specifiers: seq![new_specifier(sp, o)],
        src: LitModel {
            value: path,
            raw: if src.raw is Some {
                Some(wrapped(path, quote_of(src)))
            } else {
                None
            },
        },
    }
}

/// A side-effect-only import of `path`.
pub open spec fn style_import(path: Seq<char>, q: char) -> ImportModel {
    ImportModel { specifiers: Seq::empty(), src: quoted_lit(path, q) }
}

pub open spec fn specifiers_emitted(sps: Seq<SpecifierModel>, src: LitModel, o: Options) -> Seq<
    ImportModel,
>
    decreases sps.len(),
{
    if sps.len() == 0 {
        Seq::empty()
    } else {
        specifiers_emitted(sps.drop_last(), src, o) + if sps.last() is Named {
            seq![component_import(sps.last(), src, o)]
        } else {
            Seq::empty()
        }
    }
}

pub open spec fn specifiers_styles(sps: Seq<SpecifierModel>, src: LitModel, o: Options) -> Seq<
    ImportModel,
>
    decreases sps.len(),
{
    if sps.len() == 0 {
        Seq::empty()
    } else {
        specifiers_styles(sps.drop_last(), src, o) + if sps.last() is Named && imports_style(o) {
            seq![style_import(style_source(imported_name(sps.last()), o), quote_of(src))]
        } else {
            Seq::empty()
        }
    }
}

/// The specifiers that the rewrite leaves in place: all but the named ones.
pub open spec fn specifiers_left(sps: Seq<SpecifierModel>) -> Seq<SpecifierModel>
    decreases sps.len(),
{
    if sps.len() == 0 {
        Seq::empty()
    } else {
        specifiers_left(sps.drop_last()) + if sps.last() is Named {
            Seq::empty()
        } else {
            seq![sps.last()]
        }
    }
}

pub open spec fn from_library(d: ImportModel, o: Options) -> bool {
    d.src.value == o.library_name@
}

/// The component imports that replace the import `d`, in the order of its specifiers.
pub open spec fn import_emitted(d: ImportModel, o: Options) -> Seq<ImportModel> {
    if from_library(d, o) {
        specifiers_emitted(d.specifiers, d.src, o)
    } else {
        Seq::empty()
    }
}

/// The stylesheet imports that the import `d` queues.
pub open spec fn import_styles(d: ImportModel, o: Options) -> Seq<ImportModel> {
    if from_library(d, o) {
        specifiers_styles(d.specifiers, d.src, o)
    } else {
        Seq::empty()
    }
}

/// What is left of the import `d` after its named specifiers are taken out.
pub open spec fn import_left(d: ImportModel, o: Options) -> ImportModel {
    if from_library(d, o) {
        ImportModel { specifiers: specifiers_left(d.specifiers), src: d.src }
    } else {
        d
    }
}

// ---- `require` destructuring ----

pub open spec fn require_name() -> Seq<char> {
    seq!['r', 'e', 'q', 'u', 'i', 'r', 'e']
}

/// `callee(<path>)` with the path between `q` quotes.
pub open spec fn require_call(callee: Seq<char>, path: Seq<char>, q: char) -> ExprModel {
    ExprModel::Call { callee, args: seq![ArgModel::Str(quoted_lit(path, q))] }
}

/// `{ ... } = require("<library>")`.
pub open spec fn requires_library(d: DeclaratorModel, o: Options) -> bool {
    &&& d.name is Object
    &&& match d.init {
        Some(ExprModel::Call { callee, args }) => {
            &&& callee == require_name()
            &&& args.len() > 0
            &&& args[0] is Str
            &&& args[0]->Str_0.value == o.library_name@
        },
        _ => false,
    }
}

pub open spec fn init_callee(d: DeclaratorModel) -> Seq<char> {
    match d.init {
        Some(ExprModel::Call { callee, args }) => callee,
        _ => Seq::empty(),
    }
}

/// The quote of the first argument of the declarator's call.
pub open spec fn init_quote(d: DeclaratorModel) -> char {
    match d.init {
        Some(ExprModel::Call { callee, args }) => if args.len() > 0 && args[0] is Str {
            quote_of(args[0]->Str_0)
        } else {
            '\''
        },
        _ => '\'',
    }
}

pub open spec fn pattern_props(d: DeclaratorModel) -> Seq<PropModel> {
    match d.name {
        PatModel::Object(ps) => ps,
        _ => Seq::empty(),
    }
}

/// The statements that one destructured binding `p` (exported as `key`,
/// bound as `local`) becomes.
pub open spec fn binding_stmts(
    key: Seq<char>,
    local: PatModel,
    p: PropModel,
    callee: Seq<char>,
    q: char,
    kind: VarKind,
    o: Options,
) -> Seq<StmtModel> {
    let decl = StmtModel::Var(
        VarDeclModel {
            kind,
            decls: seq![
                DeclaratorModel {
                    name: if o.transform_to_default_import {
                        local
                    } else {
                        PatModel::Object(seq![p])
                    },
                    init: Some(require_call(callee, component_path(key, o), q)),
                },
            ],
        },
    );
    if imports_style(o) {
        seq![decl, StmtModel::Expr(require_call(callee, style_source(key, o), q))]
    } else {
        seq![decl]
    }
}

pub open spec fn prop_stmts(p: PropModel, callee: Seq<char>, q: char, kind: VarKind, o: Options) -> Seq<
    StmtModel,
> {
    match p {
        PropModel::KeyValue { key, value } => binding_stmts(
            key,
            PatModel::Ident(value),
            p,
            callee,
            q,
            kind,
            o,
        ),
        PropModel::Shorthand { key } => binding_stmts(key, PatModel::Ident(key), p, callee, q, kind, o),
        PropModel::Other(_) => Seq::empty(),
    }
}

pub open spec fn props_emitted(
    ps: Seq<PropModel>,
    callee: Seq<char>,
    q: char,
    kind: VarKind,
    o: Options,
) -> Seq<StmtModel>
    decreases ps.len(),
{
    if ps.len() == 0 {
        Seq::empty()
    } else {
        props_emitted(ps.drop_last(), callee, q, kind, o) + prop_stmts(ps.last(), callee, q, kind, o)
    }
}

/// The properties that the rewrite leaves in the pattern.
pub open spec fn props_left(ps: Seq<PropModel>) -> Seq<PropModel>
    decreases ps.len(),
{
    if ps.len() == 0 {
        Seq::empty()
    } else {
        props_left(ps.drop_last()) + if ps.last() is Other {
            seq![ps.last()]
        } else {
            Seq::empty()
        }
    }
}

pub open spec fn declarator_emitted(d: DeclaratorModel, kind: VarKind, o: Options) -> Seq<StmtModel> {
    if requires_library(d, o) {
        props_emitted(pattern_props(d), init_callee(d), init_quote(d), kind, o)
    } else {
        Seq::empty()
    }
}

pub open spec fn declarator_kept(d: DeclaratorModel, o: Options) -> bool {
    !requires_library(d, o) || props_left(pattern_props(d)).len() > 0
}

pub open spec fn declarator_left(d: DeclaratorModel, o: Options) -> DeclaratorModel {
    if requires_library(d, o) {
        DeclaratorModel { name: PatModel::Object(props_left(pattern_props(d))), init: d.init }
    } else {
        d
    }
}

pub open spec fn declarators_emitted(ds: Seq<DeclaratorModel>, kind: VarKind, o: Options) -> Seq<
    StmtModel,
>
    decreases ds.len(),
{
    if ds.len() == 0 {
        Seq::empty()
    } else {
        declarators_emitted(ds.drop_last(), kind, o) + declarator_emitted(ds.last(), kind, o)
    }
}

pub open spec fn declarators_left(ds: Seq<DeclaratorModel>, o: Options) -> Seq<DeclaratorModel>
    decreases ds.len(),
{
    if ds.len() == 0 {
        Seq::empty()
    } else {
        declarators_left(ds.drop_last(), o) + if declarator_kept(ds.last(), o) {
            seq![declarator_left(ds.last(), o)]
        } else {
            Seq::empty()
        }
    }
}

/// The statements synthesized from `s`, in the order of its declarators and properties.
pub open spec fn stmt_emitted(s: StmtModel, o: Options) -> Seq<StmtModel> {
    match s {
        StmtModel::Var(v) => declarators_emitted(v.decls, v.kind, o),
        _ => Seq::empty(),
    }
}

/// What is left of `s`: nothing when the rewrite took out all its
/// declarators; a nested statement list is rewritten in its turn.
pub open spec fn stmt_left(s: StmtModel, o: Options) -> Option<StmtModel>
    decreases s, 0nat,
{
    match s {
        StmtModel::Var(v) => if v.decls.len() > 0 && declarators_left(v.decls, o).len() == 0 {
            None
        } else {
            Some(StmtModel::Var(VarDeclModel { kind: v.kind, decls: declarators_left(v.decls, o) }))
        },
        StmtModel::Block(ss) => Some(StmtModel::Block(stmts_upto(ss, ss.len(), o))),
        _ => Some(s),
    }
}

pub open spec fn opt_seq<A>(o: Option<A>) -> Seq<A> {
    match o {
        Some(a) => seq![a],
        None => Seq::empty(),
    }
}

/// The first `n` statements of `ss` after the rewrite: each statement gives
/// way to what it synthesized, followed by what is left of it.
pub open spec fn stmts_upto(ss: Seq<StmtModel>, n: nat, o: Options) -> Seq<StmtModel>
    decreases ss, n,
{
    if n == 0 || n > ss.len() {
        Seq::empty()
    } else {
        stmts_upto(ss, (n - 1) as nat, o) + stmt_emitted(ss[n - 1], o) + opt_seq(
            stmt_left(ss[n - 1], o),
        )
    }
}

/// A statement list after the rewrite.
pub open spec fn stmts_rewritten(ss: Seq<StmtModel>, o: Options) -> Seq<StmtModel> {
    stmts_upto(ss, ss.len(), o)
}

// ---- modules ----

pub open spec fn imports_as_items(s: Seq<ImportModel>) -> Seq<ItemModel> {
    s.map_values(|d: ImportModel| ItemModel::Import(d))
}

pub open spec fn stmts_as_items(s: Seq<StmtModel>) -> Seq<ItemModel> {
    s.map_values(|x: StmtModel| ItemModel::Stmt(x))
}

pub open spec fn item_rewritten(it: ItemModel, o: Options) -> Seq<ItemModel> {
    match it {
        ItemModel::Import(d) => imports_as_items(import_emitted(d, o)) + seq![
            ItemModel::Import(import_left(d, o)),
        ],
        ItemModel::Stmt(s) => stmts_as_items(stmt_emitted(s, o) + opt_seq(stmt_left(s, o))),
    }
}

pub open spec fn items_rewritten(items: Seq<ItemModel>, o: Options) -> Seq<ItemModel>
    decreases items.len(),
{
    if items.len() == 0 {
        Seq::empty()
    } else {
        items_rewritten(items.drop_last(), o) + item_rewritten(items.last(), o)
    }
}

pub open spec fn item_styles(it: ItemModel, o: Options) -> Seq<ImportModel> {
    match it {
        ItemModel::Import(d) => import_styles(d, o),
        _ => Seq::empty(),
    }
}

pub open spec fn items_styles(items: Seq<ItemModel>, o: Options) -> Seq<ImportModel>
    decreases items.len(),
{
    if items.len() == 0 {
        Seq::empty()
    } else {
        items_styles(items.drop_last(), o) + item_styles(items.last(), o)
    }
}

/// An import of the library itself that binds nothing.
pub open spec fn is_spent_import(it: ItemModel, o: Options) -> bool {
    match it {
        ItemModel::Import(d) => from_library(d, o) && d.specifiers.len() == 0,
        _ => false,
    }
}

pub open spec fn without_spent(items: Seq<ItemModel>, o: Options) -> Seq<ItemModel>
    decreases items.len(),
{
    if items.len() == 0 {
        Seq::empty()
    } else {
        without_spent(items.drop_last(), o) + if is_spent_import(items.last(), o) {
            Seq::empty()
        } else {
            seq![items.last()]
        }
    }
}

/// The module after the rewrite: the queued stylesheet imports (those queued
/// before, then those of this module, in order), then the rewritten items
/// without the spent library imports.
pub open spec fn module_rewritten(items: Seq<ItemModel>, pending: Seq<ImportModel>, o: Options) -> Seq<
    ItemModel,
> {
    imports_as_items(pending + items_styles(items, o)) + without_spent(items_rewritten(items, o), o)
}

}
