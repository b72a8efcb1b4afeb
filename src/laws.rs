//! Properties of the rewrite, proved over the model.
use vstd::prelude::*;
use crate::ast::{
    DeclaratorModel, ExprModel, ImportModel, ItemModel, SpecifierModel, StmtModel,
    VarKind,
};
use crate::model::{
    declarator_emitted, declarators_emitted, declarators_left, from_library,
    import_emitted, import_left, import_styles, imports_as_items, init_quote, is_spent_import,
    item_rewritten, item_styles, items_rewritten, items_styles, module_rewritten, prop_stmts,
    props_emitted, quote_of, requires_library, specifiers_emitted, specifiers_left,
    specifiers_styles, stmt_emitted, stmt_left, stmts_rewritten, stmts_upto, without_spent,
    wrapped, opt_seq, pattern_props, init_callee,
};
use crate::naming::{dash_prefix, dash_piece, derive_name, is_lower, is_upper, to_lower};
use crate::options::{Options, StyleOption, imports_style};

verus! {

/// Without dash-casing, a name is kept as it is.
pub proof fn lemma_derive_keeps_name(x: Seq<char>)
    ensures
        derive_name(x, false) == x,
{
}

/// `x` is a run of capitalised words: `^[A-Z][a-z]+([A-Z][a-z]+)*$`.
pub open spec fn is_pascal_case(x: Seq<char>) -> bool {
    &&& x.len() > 0
    &&& is_upper(x[0])
    &&& is_lower(x.last())
    &&& forall|i: int| 0 <= i < x.len() ==> is_upper(#[trigger] x[i]) || is_lower(x[i])
    &&& forall|i: int| 0 < i < x.len() && is_upper(#[trigger] x[i]) ==> is_lower(x[i - 1])
}

/// `r` is lower-case words joined by single dashes.
pub open spec fn is_dash_words(r: Seq<char>) -> bool {
    &&& r.len() > 0
    &&& is_lower(r[0])
    &&& is_lower(r.last())
    &&& forall|i: int| 0 <= i < r.len() ==> is_lower(#[trigger] r[i]) || r[i] == '-'
    &&& forall|i: int|
        0 <= i < r.len() && #[trigger] r[i] == '-' ==> 0 < i < r.len() - 1 && is_lower(r[i - 1])
            && is_lower(r[i + 1])
}

proof fn lemma_lower_of_upper(c: char)
    requires
        is_upper(c),
    ensures
        is_lower(to_lower(c)),
{
}

proof fn lemma_dash_prefix_words(x: Seq<char>, n: nat)
    requires
        is_pascal_case(x),
        1 <= n <= x.len(),
    ensures
        is_dash_words(dash_prefix(x, n)),
    decreases n,
{
    let p = dash_prefix(x, n);
    let c = x[n - 1];
    assert(is_upper(c) || is_lower(c));
    if is_upper(c) {
        lemma_lower_of_upper(c);
    }
    if n == 1 {
        assert(dash_prefix(x, 0) =~= Seq::<char>::empty());
        assert(p =~= seq![to_lower(c)]);
    } else {
        lemma_dash_prefix_words(x, (n - 1) as nat);
        let q = dash_prefix(x, (n - 1) as nat);
        let piece = dash_piece(x, n - 1);
        assert(p == q + piece);
        if is_upper(c) {
            assert(is_lower(x[n - 2]));
            assert(piece == seq!['-', to_lower(c)]);
            assert forall|i: int| 0 <= i < p.len() && #[trigger] p[i] == '-' implies 0 < i < p.len()
                - 1 && is_lower(p[i - 1]) && is_lower(p[i + 1]) by {
                if i < q.len() {
                    assert(p[i] == q[i]);
                    assert(p[i + 1] == q[i + 1] || i + 1 == q.len());
                }
            }
        } else {
            assert(piece == seq![c]);
            assert forall|i: int| 0 <= i < p.len() && #[trigger] p[i] == '-' implies 0 < i < p.len()
                - 1 && is_lower(p[i - 1]) && is_lower(p[i + 1]) by {
                if i < q.len() {
                    assert(p[i] == q[i]);
                    assert(p[i + 1] == q[i + 1] || i + 1 == q.len());
                }
            }
        }
        assert forall|i: int| 0 <= i < p.len() implies is_lower(#[trigger] p[i]) || p[i] == '-' by {
            if i < q.len() {
                assert(p[i] == q[i]);
            }
        }
    }
}

/// A capitalised identifier dash-cases to lower-case words joined by single
/// dashes (`DatePicker` to `date-picker`).
pub proof fn lemma_pascal_case_to_dash_words(x: Seq<char>)
    requires
        is_pascal_case(x),
    ensures
        is_dash_words(derive_name(x, true)),
{
    lemma_dash_prefix_words(x, x.len());
}


proof fn lemma_specifiers_no_styles(sps: Seq<SpecifierModel>, src: crate::ast::LitModel, o: Options)
    requires
        !imports_style(o),
    ensures
        specifiers_styles(sps, src, o) == Seq::<ImportModel>::empty(),
    decreases sps.len(),
{
    if sps.len() > 0 {
        lemma_specifiers_no_styles(sps.drop_last(), src, o);
        assert(specifiers_styles(sps, src, o) =~= Seq::<ImportModel>::empty());
    }
}

proof fn lemma_items_no_styles(items: Seq<ItemModel>, o: Options)
    requires
        !imports_style(o),
    ensures
        items_styles(items, o) == Seq::<ImportModel>::empty(),
    decreases items.len(),
{
    if items.len() > 0 {
        lemma_items_no_styles(items.drop_last(), o);
        if let ItemModel::Import(d) = items.last() {
            lemma_specifiers_no_styles(d.specifiers, d.src, o);
        }
        assert(items_styles(items, o) =~= Seq::<ImportModel>::empty());
    }
}

/// With styles off and no style directory, a module gets no stylesheet
/// imports: only what was queued before comes in front of its items.
pub proof fn lemma_no_style_imports(items: Seq<ItemModel>, pending: Seq<ImportModel>, o: Options)
    requires
        o.style == StyleOption::Off,
        o.style_library_directory is None,
    ensures
        module_rewritten(items, pending, o) == imports_as_items(pending) + without_spent(
            items_rewritten(items, o),
            o,
        ),
{
    lemma_items_no_styles(items, o);
    assert(pending + items_styles(items, o) =~= pending);
}

proof fn lemma_props_only_declarations(
    ps: Seq<crate::ast::PropModel>,
    callee: Seq<char>,
    q: char,
    kind: VarKind,
    o: Options,
)
    requires
        !imports_style(o),
    ensures
        forall|i: int|
            0 <= i < props_emitted(ps, callee, q, kind, o).len() ==> (#[trigger] props_emitted(
                ps,
                callee,
                q,
                kind,
                o,
            )[i]) is Var,
    decreases ps.len(),
{
    if ps.len() > 0 {
        lemma_props_only_declarations(ps.drop_last(), callee, q, kind, o);
        let prev = props_emitted(ps.drop_last(), callee, q, kind, o);
        let piece = prop_stmts(ps.last(), callee, q, kind, o);
        assert forall|i: int| 0 <= i < piece.len() implies (#[trigger] piece[i]) is Var by {}
        assert forall|i: int| 0 <= i < (prev + piece).len() implies (#[trigger] (prev + piece)[i]) is Var by {
            if i < prev.len() {
                assert((prev + piece)[i] == prev[i]);
            } else {
                assert((prev + piece)[i] == piece[i - prev.len()]);
            }
        }
    }
}

proof fn lemma_declarators_only_declarations(
    ds: Seq<DeclaratorModel>,
    kind: VarKind,
    o: Options,
)
    requires
        !imports_style(o),
    ensures
        forall|i: int|
            0 <= i < declarators_emitted(ds, kind, o).len() ==> (#[trigger] declarators_emitted(
                ds,
                kind,
                o,
            )[i]) is Var,
    decreases ds.len(),
{
    if ds.len() > 0 {
        lemma_declarators_only_declarations(ds.drop_last(), kind, o);
        let d = ds.last();
        lemma_props_only_declarations(pattern_props(d), init_callee(d), init_quote(d), kind, o);
        let prev = declarators_emitted(ds.drop_last(), kind, o);
        let piece = declarator_emitted(d, kind, o);
        assert forall|i: int| 0 <= i < (prev + piece).len() implies (#[trigger] (prev + piece)[i]) is Var by {
            if i < prev.len() {
                assert((prev + piece)[i] == prev[i]);
            } else {
                assert((prev + piece)[i] == piece[i - prev.len()]);
            }
        }
    }
}

/// With styles off and no style directory, a rewritten `require`
/// destructuring yields declarations only: no bare stylesheet `require`.
pub proof fn lemma_no_style_requires(s: StmtModel, o: Options)
    requires
        o.style == StyleOption::Off,
        o.style_library_directory is None,
    ensures
        forall|i: int|
            0 <= i < stmt_emitted(s, o).len() ==> (#[trigger] stmt_emitted(s, o)[i]) is Var,
{
    if let StmtModel::Var(v) = s {
        lemma_declarators_only_declarations(v.decls, v.kind, o);
    }
}


/// The literal of a call is its only argument, written between `q` quotes.
pub open spec fn call_quoted(e: Option<ExprModel>, q: char) -> bool {
    match e {
        Some(ExprModel::Call { callee, args }) => {
            &&& args.len() == 1
            &&& args[0] is Str
            &&& args[0]->Str_0.raw == Some(wrapped(args[0]->Str_0.value, q))
        },
        _ => false,
    }
}

/// A synthesized statement whose path literal is written between `q` quotes.
pub open spec fn stmt_quoted(s: StmtModel, q: char) -> bool {
    match s {
        StmtModel::Var(v) => v.decls.len() == 1 && call_quoted(v.decls[0].init, q),
        StmtModel::Expr(e) => call_quoted(Some(e), q),
        _ => false,
    }
}

proof fn lemma_specifiers_quoted(sps: Seq<SpecifierModel>, src: crate::ast::LitModel, o: Options)
    ensures
        forall|i: int|
            0 <= i < specifiers_emitted(sps, src, o).len() ==> (#[trigger] specifiers_emitted(
                sps,
                src,
                o,
            )[i]).src.raw == if src.raw is Some {
                Some(wrapped(specifiers_emitted(sps, src, o)[i].src.value, quote_of(src)))
            } else {
                None
            },
        forall|i: int|
            0 <= i < specifiers_styles(sps, src, o).len() ==> (#[trigger] specifiers_styles(
                sps,
                src,
                o,
            )[i]).src.raw == Some(wrapped(specifiers_styles(sps, src, o)[i].src.value, quote_of(src))),
    decreases sps.len(),
{
    if sps.len() > 0 {
        lemma_specifiers_quoted(sps.drop_last(), src, o);
        let e0 = specifiers_emitted(sps.drop_last(), src, o);
        let e = specifiers_emitted(sps, src, o);
        let s0 = specifiers_styles(sps.drop_last(), src, o);
        let st = specifiers_styles(sps, src, o);
        assert forall|i: int| 0 <= i < e.len() implies (#[trigger] e[i]).src.raw == if src.raw is Some {
            Some(wrapped(e[i].src.value, quote_of(src)))
        } else {
            None
        } by {
            if i < e0.len() {
                assert(e[i] == e0[i]);
            }
        }
        assert forall|i: int| 0 <= i < st.len() implies (#[trigger] st[i]).src.raw == Some(
            wrapped(st[i].src.value, quote_of(src)),
        ) by {
            if i < s0.len() {
                assert(st[i] == s0[i]);
            }
        }
    }
}

/// Every import synthesized from the import `d`, component or stylesheet,
/// takes the quote of `d`'s own literal: double when its raw text starts with
/// one, single otherwise.
pub proof fn lemma_import_quotes_kept(d: ImportModel, o: Options)
    ensures
        forall|i: int|
            0 <= i < import_emitted(d, o).len() ==> (#[trigger] import_emitted(d, o)[i]).src.raw
                == if d.src.raw is Some {
                Some(wrapped(import_emitted(d, o)[i].src.value, quote_of(d.src)))
            } else {
                None
            },
        forall|i: int|
            0 <= i < import_styles(d, o).len() ==> (#[trigger] import_styles(d, o)[i]).src.raw
                == Some(wrapped(import_styles(d, o)[i].src.value, quote_of(d.src))),
{
    lemma_specifiers_quoted(d.specifiers, d.src, o);
}

proof fn lemma_props_quoted(
    ps: Seq<crate::ast::PropModel>,
    callee: Seq<char>,
    q: char,
    kind: VarKind,
    o: Options,
)
    ensures
        forall|i: int|
            0 <= i < props_emitted(ps, callee, q, kind, o).len() ==> stmt_quoted(
                #[trigger] props_emitted(ps, callee, q, kind, o)[i],
                q,
            ),
    decreases ps.len(),
{
    if ps.len() > 0 {
        lemma_props_quoted(ps.drop_last(), callee, q, kind, o);
        let prev = props_emitted(ps.drop_last(), callee, q, kind, o);
        let piece = prop_stmts(ps.last(), callee, q, kind, o);
        assert forall|i: int| 0 <= i < piece.len() implies stmt_quoted(#[trigger] piece[i], q) by {}
        assert forall|i: int| 0 <= i < (prev + piece).len() implies stmt_quoted(
            #[trigger] (prev + piece)[i],
            q,
        ) by {
            if i < prev.len() {
                assert((prev + piece)[i] == prev[i]);
            } else {
                assert((prev + piece)[i] == piece[i - prev.len()]);
            }
        }
    }
}

/// Every statement synthesized from a `require` of the library takes the
/// quote of the original `require` argument.
pub proof fn lemma_require_quotes_kept(d: DeclaratorModel, kind: VarKind, o: Options)
    ensures
        forall|i: int|
            0 <= i < declarator_emitted(d, kind, o).len() ==> stmt_quoted(
                #[trigger] declarator_emitted(d, kind, o)[i],
                init_quote(d),
            ),
{
    lemma_props_quoted(pattern_props(d), init_callee(d), init_quote(d), kind, o);
}


/// A statement that destructures no `require` of the library, nor holds
/// one nested that does.
pub open spec fn stmt_untouched(s: StmtModel, o: Options) -> bool
    decreases s, 0nat,
{
    match s {
        StmtModel::Var(v) => forall|j: int|
            0 <= j < v.decls.len() ==> !requires_library(#[trigger] v.decls[j], o),
        StmtModel::Block(ss) => stmts_untouched_upto(ss, ss.len(), o),
        _ => true,
    }
}

/// None of the first `n` statements of `ss` has anything to rewrite.
pub open spec fn stmts_untouched_upto(ss: Seq<StmtModel>, n: nat, o: Options) -> bool
    decreases ss, n,
{
    if n == 0 || n > ss.len() {
        true
    } else {
        stmts_untouched_upto(ss, (n - 1) as nat, o) && stmt_untouched(ss[n - 1], o)
    }
}

/// An item that the rewrite has nothing to do for: no named import of the
/// library, no bare import of it, and no `require` of it destructured.
pub open spec fn item_untouched(it: ItemModel, o: Options) -> bool {
    match it {
        ItemModel::Import(d) => from_library(d, o) ==> d.specifiers.len() > 0 && forall|j: int|
            0 <= j < d.specifiers.len() ==> !((#[trigger] d.specifiers[j]) is Named),
        ItemModel::Stmt(s) => stmt_untouched(s, o),
    }
}

proof fn lemma_declarators_untouched(ds: Seq<DeclaratorModel>, kind: VarKind, o: Options)
    requires
        forall|j: int| 0 <= j < ds.len() ==> !requires_library(#[trigger] ds[j], o),
    ensures
        declarators_emitted(ds, kind, o) == Seq::<StmtModel>::empty(),
        declarators_left(ds, o) == ds,
    decreases ds.len(),
{
    if ds.len() > 0 {
        assert(!requires_library(ds[ds.len() - 1], o));
        lemma_declarators_untouched(ds.drop_last(), kind, o);
        assert(declarators_emitted(ds, kind, o) =~= Seq::<StmtModel>::empty());
        assert(declarators_left(ds, o) =~= ds);
    }
}

proof fn lemma_stmt_untouched(s: StmtModel, o: Options)
    requires
        stmt_untouched(s, o),
    ensures
        stmt_emitted(s, o) == Seq::<StmtModel>::empty(),
        stmt_left(s, o) == Some(s),
    decreases s, 0nat,
{
    match s {
        StmtModel::Var(v) => {
            lemma_declarators_untouched(v.decls, v.kind, o);
        },
        StmtModel::Block(ss) => {
            lemma_stmts_upto_untouched(ss, ss.len(), o);
            assert(ss.subrange(0, ss.len() as int) =~= ss);
        },
        _ => {},
    }
}

proof fn lemma_stmts_upto_untouched(ss: Seq<StmtModel>, n: nat, o: Options)
    requires
        n <= ss.len(),
        stmts_untouched_upto(ss, n, o),
    ensures
        stmts_upto(ss, n, o) == ss.subrange(0, n as int),
    decreases ss, n,
{
    if n > 0 {
        vstd::seq::axiom_seq_index_decreases(ss, n - 1);
        lemma_stmt_untouched(ss[n - 1], o);
        lemma_stmts_upto_untouched(ss, (n - 1) as nat, o);
        assert(stmts_upto(ss, n, o) =~= ss.subrange(0, n as int));
    } else {
        assert(stmts_upto(ss, n, o) =~= ss.subrange(0, n as int));
    }
}

proof fn lemma_untouched_upto(ss: Seq<StmtModel>, n: nat, o: Options)
    requires
        n <= ss.len(),
        forall|i: int| 0 <= i < ss.len() ==> stmt_untouched(#[trigger] ss[i], o),
    ensures
        stmts_untouched_upto(ss, n, o),
    decreases n,
{
    if n > 0 {
        assert(stmt_untouched(ss[n - 1], o));
        lemma_untouched_upto(ss, (n - 1) as nat, o);
    }
}

/// A statement list with no `require` of the library destructured, at any
/// depth, is left as it is.
pub proof fn lemma_stmts_idempotent(ss: Seq<StmtModel>, o: Options)
    requires
        forall|i: int| 0 <= i < ss.len() ==> stmt_untouched(#[trigger] ss[i], o),
    ensures
        stmts_rewritten(ss, o) == ss,
{
    lemma_untouched_upto(ss, ss.len(), o);
    lemma_stmts_upto_untouched(ss, ss.len(), o);
    assert(ss.subrange(0, ss.len() as int) =~= ss);
}

proof fn lemma_specifiers_untouched(sps: Seq<SpecifierModel>, src: crate::ast::LitModel, o: Options)
    requires
        forall|j: int| 0 <= j < sps.len() ==> !((#[trigger] sps[j]) is Named),
    ensures
        specifiers_emitted(sps, src, o) == Seq::<ImportModel>::empty(),
        specifiers_styles(sps, src, o) == Seq::<ImportModel>::empty(),
        specifiers_left(sps) == sps,
    decreases sps.len(),
{
    if sps.len() > 0 {
        assert(!(sps[sps.len() - 1] is Named));
        lemma_specifiers_untouched(sps.drop_last(), src, o);
        assert(specifiers_emitted(sps, src, o) =~= Seq::<ImportModel>::empty());
        assert(specifiers_styles(sps, src, o) =~= Seq::<ImportModel>::empty());
        assert(specifiers_left(sps) =~= sps);
    }
}

proof fn lemma_item_untouched(it: ItemModel, o: Options)
    requires
        item_untouched(it, o),
    ensures
        item_rewritten(it, o) == seq![it],
        item_styles(it, o) == Seq::<ImportModel>::empty(),
        !is_spent_import(it, o),
{
    match it {
        ItemModel::Import(d) => {
            if from_library(d, o) {
                lemma_specifiers_untouched(d.specifiers, d.src, o);
                assert(import_left(d, o) =~= d);
            }
            assert(imports_as_items(import_emitted(d, o)) =~= Seq::<ItemModel>::empty());
            assert(item_rewritten(it, o) =~= seq![it]);
        },
        ItemModel::Stmt(s) => {
            lemma_stmt_untouched(s, o);
            assert(stmt_emitted(s, o) + opt_seq(stmt_left(s, o)) =~= seq![s]);
            assert(item_rewritten(it, o) =~= seq![it]);
        },
    }
}

proof fn lemma_items_untouched(items: Seq<ItemModel>, o: Options)
    requires
        forall|i: int| 0 <= i < items.len() ==> item_untouched(#[trigger] items[i], o),
    ensures
        items_rewritten(items, o) == items,
        items_styles(items, o) == Seq::<ImportModel>::empty(),
        without_spent(items, o) == items,
    decreases items.len(),
{
    if items.len() > 0 {
        assert(item_untouched(items[items.len() - 1], o));
        lemma_item_untouched(items.last(), o);
        lemma_items_untouched(items.drop_last(), o);
        assert(items_rewritten(items, o) =~= items);
        assert(items_styles(items, o) =~= Seq::<ImportModel>::empty());
        assert(without_spent(items, o) =~= items);
    }
}

/// A module that no longer imports or `require`s anything by name from the
/// library, and has no bare import of it, is left as it is.
pub proof fn lemma_module_idempotent(items: Seq<ItemModel>, o: Options)
    requires
        forall|i: int| 0 <= i < items.len() ==> item_untouched(#[trigger] items[i], o),
    ensures
        module_rewritten(items, Seq::empty(), o) == items,
{
    lemma_items_untouched(items, o);
    assert(imports_as_items(Seq::<ImportModel>::empty() + Seq::<ImportModel>::empty())
        =~= Seq::<ItemModel>::empty());
    assert(Seq::<ItemModel>::empty() + items =~= items);
}

}
