//! The rewrite engine: one visitor per module.
use vstd::prelude::*;
use crate::ast::{
    Arg, Expr, ImportDecl, ImportSpecifier, Module, ModuleItem, Pat, PatProp, Stmt, StrLit,
    VarDecl, VarDeclarator, VarKind, StmtModel, ItemModel, arg_views, declarator_views, import_views,
    item_views, prop_views, specifier_views, stmt_views,
};
use crate::model::{
    binding_stmts, component_import, declarator_emitted, declarator_kept, declarator_left,
    declarators_emitted, declarators_left, import_emitted, import_left, import_styles,
    imports_as_items, init_callee, init_quote, is_spent_import, item_rewritten, item_styles,
    items_rewritten, items_styles, module_rewritten, opt_seq, props_emitted,
    props_left, quote_of, quoted_lit, require_name, requires_library, specifiers_emitted,
    specifiers_left, specifiers_styles, starts_with_double, stmt_emitted, stmt_left,
    stmts_as_items, stmts_rewritten, stmts_upto, style_import, without_spent, wrapped, imported_name,
};
use crate::naming::push_char;
use crate::options::{Options, append_str, style_source};

verus! {

broadcast use crate::ast::lemma_stmt_views;

/// True when the raw text of a literal starts with a double quote; false
/// for an empty text.
pub fn is_double_quote(s: &str) -> (r: bool)
    ensures
        r == starts_with_double(s@),
{
    s.unicode_len() > 0 && s.get_char(0) == '"'
}

/// `s` between two `wrap_char`s.
pub fn wrap_str(s: &str, wrap_char: char) -> (r: String)
    ensures
        r@ == wrapped(s@, wrap_char),
{
    let mut out = String::new();
    push_char(&mut out, wrap_char);
    append_str(&mut out, s);
    push_char(&mut out, wrap_char);
    assert(out@ =~= wrapped(s@, wrap_char));
    out
}

fn str_equal(a: &str, b: &str) -> (r: bool)
    ensures
        r == (a@ == b@),
{
    let n = a.unicode_len();
    if n != b.unicode_len() {
        return false;
    }
    let mut i: usize = 0;
    while i < n
        invariant
            n == a@.len(),
            n == b@.len(),
            i <= n,
            forall|j: int| 0 <= j < i ==> a@[j] == b@[j],
        decreases n - i,
    {
        if a.get_char(i) != b.get_char(i) {
            return false;
        }
        i = i + 1;
    }
    assert(a@ =~= b@);
    true
}

fn quote_mark(lit: &StrLit) -> (r: char)
    ensures
        r == quote_of(lit@),
{
    match &lit.raw {
        Some(raw) => if is_double_quote(raw.as_str()) {
            '"'
        } else {
            '\''
        },
        None => '\'',
    }
}

fn quoted(path: &String, q: char) -> (r: StrLit)
    ensures
        r@ == quoted_lit(path@, q),
{
    StrLit { value: path.clone(), raw: Some(wrap_str(path.as_str(), q)) }
}

pub open spec fn opt_stmt_view(s: Option<Stmt>) -> Option<StmtModel> {
    match s {
        Some(x) => Some(x@),
        None => None,
    }
}

fn push_imports(out: &mut Vec<ModuleItem>, v: Vec<ImportDecl>)
    ensures
        item_views(final(out)@) == item_views(old(out)@) + imports_as_items(import_views(v@)),
{
    let mut v = v;
    let ghost v0 = v@;
    let ghost out0 = out@;
    let n = v.len();
    let mut i: usize = 0;
    while v.len() > 0
        invariant
            i + v@.len() == n,
            n == v0.len(),
            v@ == v0.subrange(i as int, n as int),
            item_views(out@) == item_views(out0) + imports_as_items(
                import_views(v0.subrange(0, i as int)),
            ),
        decreases v@.len(),
    {
        let d = v.remove(0);
        let ghost prev = out@;
        out.push(ModuleItem::Import(d));
        assert(item_views(out@) =~= item_views(prev).push(ItemModel::Import(d@)));
        assert(import_views(v0.subrange(0, i + 1)) =~= import_views(v0.subrange(0, i as int)).push(
            d@,
        ));
        assert(imports_as_items(import_views(v0.subrange(0, i + 1))) =~= imports_as_items(
            import_views(v0.subrange(0, i as int)),
        ).push(ItemModel::Import(d@)));
        assert(item_views(out@) =~= item_views(out0) + imports_as_items(
            import_views(v0.subrange(0, i + 1)),
        ));
        i = i + 1;
        assert(v@ =~= v0.subrange(i as int, n as int));
    }
    assert(v0.subrange(0, n as int) =~= v0);
}

fn push_stmts(out: &mut Vec<ModuleItem>, v: Vec<Stmt>)
    ensures
        item_views(final(out)@) == item_views(old(out)@) + stmts_as_items(stmt_views(v@)),
{
    let mut v = v;
    let ghost v0 = v@;
    let ghost out0 = out@;
    let n = v.len();
    let mut i: usize = 0;
    while v.len() > 0
        invariant
            i + v@.len() == n,
            n == v0.len(),
            v@ == v0.subrange(i as int, n as int),
            item_views(out@) == item_views(out0) + stmts_as_items(
                stmt_views(v0.subrange(0, i as int)),
            ),
        decreases v@.len(),
    {
        let s = v.remove(0);
        let ghost prev = out@;
        out.push(ModuleItem::Stmt(s));
        assert(item_views(out@) =~= item_views(prev).push(ItemModel::Stmt(s@)));
        assert(stmt_views(v0.subrange(0, i + 1)) =~= stmt_views(v0.subrange(0, i as int)).push(
            s@,
        ));
        assert(stmts_as_items(stmt_views(v0.subrange(0, i + 1))) =~= stmts_as_items(
            stmt_views(v0.subrange(0, i as int)),
        ).push(ItemModel::Stmt(s@)));
        assert(item_views(out@) =~= item_views(out0) + stmts_as_items(
            stmt_views(v0.subrange(0, i + 1)),
        ));
        i = i + 1;
        assert(v@ =~= v0.subrange(i as int, n as int));
    }
    assert(v0.subrange(0, n as int) =~= v0);
}

/// The rewrite of one module: the configuration, and the stylesheet imports
/// queued while the module's statements are visited.
pub struct TransformVisitor {
    pub options: Options,
    pub import_items: Vec<ImportDecl>,
}

impl TransformVisitor {
    pub fn new(options: Options) -> (r: TransformVisitor)
        ensures
            r.options == options,
            r.import_items@.len() == 0,
    {
        TransformVisitor { options, import_items: Vec::new() }
    }

    /// Rewrites an import of the library: each named specifier becomes an
    /// import of its own component (returned, in order), its stylesheet
    /// import is queued, and the specifier leaves `n`.
    pub fn visit_mut_import_decl(&mut self, n: &mut ImportDecl) -> (r: Vec<ImportDecl>)
        ensures
            final(self).options == old(self).options,
            import_views(r@) == import_emitted(old(n)@, old(self).options),
            final(n)@ == import_left(old(n)@, old(self).options),
            import_views(final(self).import_items@) == import_views(old(self).import_items@)
                + import_styles(old(n)@, old(self).options),
    {
        let mut out: Vec<ImportDecl> = Vec::new();
        if n.src.value != self.options.library_name {
            assert(import_views(out@) =~= Seq::empty());
            assert(import_views(self.import_items@) =~= import_views(self.import_items@) + Seq::empty());
            return out;
        }
        let ghost o = self.options;
        let ghost n0 = n@;
        let ghost sps = n@.specifiers;
        let ghost items0 = import_views(self.import_items@);
        let q = quote_mark(&n.src);
        let len = n.specifiers.len();
        let mut left: Vec<ImportSpecifier> = Vec::new();
        let mut i: usize = 0;
        while i < len
            invariant
                self.options == o,
                n@ == n0,
                sps == n0.specifiers,
                n0.src == n@.src,
                q == quote_of(n0.src),
                len == n.specifiers@.len(),
                i <= len,
                import_views(out@) == specifiers_emitted(sps.subrange(0, i as int), n0.src, o),
                specifier_views(left@) == specifiers_left(sps.subrange(0, i as int)),
                import_views(self.import_items@) == items0 + specifiers_styles(
                    sps.subrange(0, i as int),
                    n0.src,
                    o,
                ),
            decreases len - i,
        {
            let ghost pre = sps.subrange(0, i as int);
            assert(sps.subrange(0, i + 1).drop_last() =~= pre);
            assert(sps.subrange(0, i + 1).last() == n.specifiers@[i as int]@);
            let sp = &n.specifiers[i];
            match sp {
                ImportSpecifier::Named { local, imported } => {
                    let name: &String = match imported {
                        Some(x) => x,
                        None => local,
                    };
                    assert(name@ == imported_name(sp@));
                    let path = self.options.generate_component_path(name.as_str());
                    let new_sp = if self.options.transform_to_default_import {
                        ImportSpecifier::Default { local: local.clone() }
                    } else {
                        sp.clone()
                    };
                    let raw = if n.src.raw.is_some() {
                        Some(wrap_str(path.as_str(), q))
                    } else {
                        None
                    };
                    let mut sps_new: Vec<ImportSpecifier> = Vec::new();
                    sps_new.push(new_sp);
                    let decl = ImportDecl { specifiers: sps_new, src: StrLit { value: path, raw } };
                    assert(specifier_views(decl.specifiers@) =~= seq![decl.specifiers@[0]@]);
                    assert(decl@ == component_import(sp@, n0.src, o));
                    out.push(decl);
                    assert(import_views(out@) =~= specifiers_emitted(pre, n0.src, o) + seq![
                        component_import(sp@, n0.src, o),
                    ]);
                    if let Some(style) = self.options.generate_style_source(name.as_str()) {
                        let st = ImportDecl { specifiers: Vec::new(), src: quoted(&style, q) };
                        assert(specifier_views(st.specifiers@) =~= Seq::empty());
                        assert(st@ == style_import(style_source(imported_name(sp@), o), q));
                        self.import_items.push(st);
                        assert(import_views(self.import_items@) =~= items0 + specifiers_styles(
                            pre,
                            n0.src,
                            o,
                        ) + seq![st@]);
                    } else {
                        assert(import_views(self.import_items@) =~= items0 + specifiers_styles(
                            pre,
                            n0.src,
                            o,
                        ) + Seq::empty());
                    }
                    assert(specifier_views(left@) =~= specifiers_left(pre) + Seq::empty());
                },
                _ => {
                    left.push(sp.clone());
                    assert(specifier_views(left@) =~= specifiers_left(pre) + seq![sp@]);
                    assert(import_views(out@) =~= specifiers_emitted(pre, n0.src, o) + Seq::empty());
                    assert(import_views(self.import_items@) =~= items0 + specifiers_styles(
                        pre,
                        n0.src,
                        o,
                    ) + Seq::empty());
                },
            }
            i = i + 1;
        }
        assert(sps.subrange(0, len as int) =~= sps);
        n.specifiers = left;
        assert(n@.specifiers =~= specifiers_left(sps));
        out
    }
}


impl TransformVisitor {
    /// `callee(path)`, with the path between `q` quotes.
    fn require_call(callee: &String, path: &String, q: char) -> (r: Expr)
        ensures
            r@ == crate::model::require_call(callee@, path@, q),
    {
        let mut args: Vec<Arg> = Vec::new();
        args.push(Arg::Str(quoted(path, q)));
        assert(arg_views(args@) =~= seq![args@[0]@]);
        Expr::Call { callee: callee.clone(), args }
    }

    /// The statements that one destructured binding becomes.
    fn binding_stmts(
        &self,
        key: &String,
        local: Pat,
        p: &PatProp,
        callee: &String,
        q: char,
        kind: VarKind,
    ) -> (r: Vec<Stmt>)
        ensures
            stmt_views(r@) == binding_stmts(key@, local@, p@, callee@, q, kind, self.options),
    {
        let path = self.options.generate_component_path(key.as_str());
        let name = if self.options.transform_to_default_import {
            local
        } else {
            let mut ps: Vec<PatProp> = Vec::new();
            ps.push(p.clone());
            assert(prop_views(ps@) =~= seq![p@]);
            Pat::Object(ps)
        };
        let init = Self::require_call(callee, &path, q);
        let mut decls: Vec<VarDeclarator> = Vec::new();
        decls.push(VarDeclarator { name, init: Some(init) });
        assert(declarator_views(decls@) =~= seq![decls@[0]@]);
        let mut r: Vec<Stmt> = Vec::new();
        r.push(Stmt::Var(VarDecl { kind, decls }));
        if let Some(style) = self.options.generate_style_source(key.as_str()) {
            r.push(Stmt::Expr(Self::require_call(callee, &style, q)));
            assert(stmt_views(r@) =~= seq![r@[0]@, r@[1]@]);
        } else {
            assert(stmt_views(r@) =~= seq![r@[0]@]);
        }
        r
    }

    /// The statements synthesized from the properties of a destructuring
    /// pattern, in order, and the properties that stay in it.
    fn rewrite_props(&self, props: &Vec<PatProp>, callee: &String, q: char, kind: VarKind) -> (r: (
        Vec<Stmt>,
        Vec<PatProp>,
    ))
        ensures
            stmt_views(r.0@) == props_emitted(prop_views(props@), callee@, q, kind, self.options),
            prop_views(r.1@) == props_left(prop_views(props@)),
    {
        let ghost pv = prop_views(props@);
        let ghost o = self.options;
        let mut out: Vec<Stmt> = Vec::new();
        let mut left: Vec<PatProp> = Vec::new();
        let len = props.len();
        let mut i: usize = 0;
        while i < len
            invariant
                len == props@.len(),
                pv == prop_views(props@),
                o == self.options,
                i <= len,
                stmt_views(out@) == props_emitted(pv.subrange(0, i as int), callee@, q, kind, o),
                prop_views(left@) == props_left(pv.subrange(0, i as int)),
            decreases len - i,
        {
            let ghost pre = pv.subrange(0, i as int);
            assert(pv.subrange(0, i + 1).drop_last() =~= pre);
            let p = &props[i];
            assert(pv.subrange(0, i + 1).last() == p@);
            let ghost out0 = out@;
            match p {
                PatProp::KeyValue { key, value } => {
                    let mut stmts = self.binding_stmts(key, Pat::Ident(value.clone()), p, callee, q, kind);
                    assert(stmts@.len() > 0);
                    let ghost st = stmts@;
                    out.append(&mut stmts);
                    assert(stmt_views(out@) =~= stmt_views(out0) + stmt_views(st));
                    assert(prop_views(left@) =~= props_left(pre) + Seq::empty());
                },
                PatProp::Shorthand { key } => {
                    let mut stmts = self.binding_stmts(key, Pat::Ident(key.clone()), p, callee, q, kind);
                    let ghost st = stmts@;
                    out.append(&mut stmts);
                    assert(stmt_views(out@) =~= stmt_views(out0) + stmt_views(st));
                    assert(prop_views(left@) =~= props_left(pre) + Seq::empty());
                },
                PatProp::Other(_) => {
                    left.push(p.clone());
                    assert(prop_views(left@) =~= props_left(pre) + seq![p@]);
                    assert(stmt_views(out@) =~= props_emitted(pre, callee@, q, kind, o) + Seq::empty());
                },
            }
            i = i + 1;
        }
        assert(pv.subrange(0, len as int) =~= pv);
        (out, left)
    }

    /// The callee and the quote of `d`'s initializer when `d` destructures a
    /// `require` of the library.
    fn library_require(&self, d: &VarDeclarator) -> (r: Option<(String, char)>)
        ensures
            r is Some == requires_library(d@, self.options),
            r is Some ==> r->Some_0.0@ == init_callee(d@) && r->Some_0.1 == init_quote(d@),
    {
        match &d.name {
            Pat::Object(_) => {},
            _ => {
                return None;
            },
        }
        match &d.init {
            Some(Expr::Call { callee, args }) => {
                proof {
                    reveal_strlit("require");
                }
                assert("require"@ =~= require_name());
                if !str_equal(callee.as_str(), "require") {
                    return None;
                }
                if args.len() == 0 {
                    return None;
                }
                assert(arg_views(args@)[0] == args@[0]@);
                match &args[0] {
                    Arg::Str(lit) => if lit.value == self.options.library_name {
                        Some((callee.clone(), quote_mark(lit)))
                    } else {
                        None
                    },
                    _ => None,
                }
            },
            _ => None,
        }
    }

    /// The statements synthesized from one declarator, and what is left of it.
    fn rewrite_declarator(&self, d: VarDeclarator, kind: VarKind) -> (r: (
        Vec<Stmt>,
        Option<VarDeclarator>,
    ))
        ensures
            stmt_views(r.0@) == declarator_emitted(d@, kind, self.options),
            r.1 is Some == declarator_kept(d@, self.options),
            r.1 is Some ==> r.1->Some_0@ == declarator_left(d@, self.options),
    {
        match self.library_require(&d) {
            None => {
                let out: Vec<Stmt> = Vec::new();
                assert(stmt_views(out@) =~= Seq::empty());
                (out, Some(d))
            },
            Some((callee, q)) => {
                let ghost dv = d@;
                let VarDeclarator { name, init } = d;
                match name {
                    Pat::Object(props) => {
                        let (stmts, left) = self.rewrite_props(&props, &callee, q, kind);
                        if left.len() == 0 {
                            (stmts, None)
                        } else {
                            let nd = VarDeclarator { name: Pat::Object(left), init };
                            assert(nd@ == declarator_left(dv, self.options));
                            (stmts, Some(nd))
                        }
                    },
                    _ => (Vec::new(), None),
                }
            },
        }
    }

    /// Rewrites one statement: returns the statements it synthesized, in
    /// order, and what is left of it (nothing when every declarator went).
    pub fn visit_mut_stat(&self, s: Stmt) -> (r: (Vec<Stmt>, Option<Stmt>))
        ensures
            stmt_views(r.0@) == stmt_emitted(s@, self.options),
            opt_stmt_view(r.1) == stmt_left(s@, self.options),
        decreases s@, 0nat,
    {
        let ghost sv = s@;
        let ghost o = self.options;
        match s {
            Stmt::Var(v) => {
                let VarDecl { kind, decls } = v;
                let mut decls = decls;
                let ghost d0 = decls@;
                let ghost dv = declarator_views(d0);
                let n = decls.len();
                let mut out: Vec<Stmt> = Vec::new();
                let mut left: Vec<VarDeclarator> = Vec::new();
                let mut i: usize = 0;
                while decls.len() > 0
                    invariant
                        o == self.options,
                        i + decls@.len() == n,
                        n == d0.len(),
                        dv == declarator_views(d0),
                        decls@ == d0.subrange(i as int, n as int),
                        stmt_views(out@) == declarators_emitted(dv.subrange(0, i as int), kind, o),
                        declarator_views(left@) == declarators_left(dv.subrange(0, i as int), o),
                    decreases decls@.len(),
                {
                    let ghost pre = dv.subrange(0, i as int);
                    assert(dv.subrange(0, i + 1).drop_last() =~= pre);
                    let d = decls.remove(0);
                    assert(dv.subrange(0, i + 1).last() == d@);
                    let ghost out0 = out@;
                    let ghost left0 = left@;
                    let (mut stmts, kept) = self.rewrite_declarator(d, kind);
                    let ghost st = stmts@;
                    out.append(&mut stmts);
                    assert(stmt_views(out@) =~= stmt_views(out0) + stmt_views(st));
                    match kept {
                        Some(x) => {
                            left.push(x);
                            assert(declarator_views(left@) =~= declarator_views(left0) + seq![x@]);
                        },
                        None => {
                            assert(declarator_views(left@) =~= declarator_views(left0) + Seq::empty());
                        },
                    }
                    i = i + 1;
                    assert(decls@ =~= d0.subrange(i as int, n as int));
                }
                assert(dv.subrange(0, n as int) =~= dv);
                if n > 0 && left.len() == 0 {
                    (out, None)
                } else {
                    (out, Some(Stmt::Var(VarDecl { kind, decls: left })))
                }
            },
            Stmt::Block(ss) => {
                let out: Vec<Stmt> = Vec::new();
                assert(stmt_views(out@) =~= Seq::empty());
                let inner = self.rewrite_stmts(ss);
                (out, Some(Stmt::Block(inner)))
            },
            other => {
                let out: Vec<Stmt> = Vec::new();
                assert(stmt_views(out@) =~= Seq::empty());
                (out, Some(other))
            },
        }
    }

    /// Rewrites a statement list in place, nested lists included.
    pub fn visit_mut_stmts(&self, stmts: &mut Vec<Stmt>)
        ensures
            stmt_views(final(stmts)@) == stmts_rewritten(stmt_views(old(stmts)@), self.options),
    {
        let mut src: Vec<Stmt> = Vec::new();
        std::mem::swap(stmts, &mut src);
        *stmts = self.rewrite_stmts(src);
    }

    fn rewrite_stmts(&self, stmts: Vec<Stmt>) -> (r: Vec<Stmt>)
        ensures
            stmt_views(r@) == stmts_rewritten(stmt_views(stmts@), self.options),
        decreases stmt_views(stmts@), 1nat,
    {
        let ghost o = self.options;
        let mut src = stmts;
        let ghost s0 = src@;
        let ghost sv = stmt_views(s0);
        let n = src.len();
        let mut out: Vec<Stmt> = Vec::new();
        let mut i: usize = 0;
        while src.len() > 0
            invariant
                o == self.options,
                i + src@.len() == n,
                n == s0.len(),
                n == sv.len(),
                s0 == stmts@,
                sv == stmt_views(s0),
                src@ == s0.subrange(i as int, n as int),
                stmt_views(out@) == stmts_upto(sv, i as nat, o),
            decreases src@.len(),
        {
            let s = src.remove(0);
            assert(s == s0[i as int]);
            assert(s@ == sv[i as int]);
            proof {
                vstd::seq::axiom_seq_index_decreases(sv, i as int);
            }
            let ghost out0 = out@;
            let ghost si = s@;
            let (mut emitted, left) = self.visit_mut_stat(s);
            let ghost em = emitted@;
            out.append(&mut emitted);
            let ghost out1 = out@;
            assert(stmt_views(out1) =~= stmt_views(out0) + stmt_views(em));
            match left {
                Some(x) => {
                    out.push(x);
                    assert(stmt_left(si, o) == Some(x@));
                    assert(stmt_views(out@) =~= stmt_views(out1) + opt_seq(stmt_left(si, o)));
                },
                None => {
                    assert(stmt_views(out@) =~= stmt_views(out1) + opt_seq(stmt_left(si, o)));
                },
            }
            assert(stmts_upto(sv, (i + 1) as nat, o) == stmts_upto(sv, i as nat, o) + stmt_emitted(
                si,
                o,
            ) + opt_seq(stmt_left(si, o)));
            i = i + 1;
            assert(src@ =~= s0.subrange(i as int, n as int));
        }
        out
    }
}

impl TransformVisitor {
    /// Rewrites every top-level item, queueing the stylesheet imports.
    fn rewrite_items(&mut self, items: Vec<ModuleItem>) -> (r: Vec<ModuleItem>)
        ensures
            final(self).options == old(self).options,
            item_views(r@) == items_rewritten(item_views(items@), old(self).options),
            import_views(final(self).import_items@) == import_views(old(self).import_items@)
                + items_styles(item_views(items@), old(self).options),
    {
        let ghost o = self.options;
        let ghost q0 = import_views(self.import_items@);
        let mut src = items;
        let ghost s0 = src@;
        let ghost sv = item_views(s0);
        let n = src.len();
        let mut out: Vec<ModuleItem> = Vec::new();
        let mut i: usize = 0;
        while src.len() > 0
            invariant
                o == self.options,
                i + src@.len() == n,
                n == s0.len(),
                sv == item_views(s0),
                src@ == s0.subrange(i as int, n as int),
                item_views(out@) == items_rewritten(sv.subrange(0, i as int), o),
                import_views(self.import_items@) == q0 + items_styles(sv.subrange(0, i as int), o),
            decreases src@.len(),
        {
            let ghost pre = sv.subrange(0, i as int);
            assert(sv.subrange(0, i + 1).drop_last() =~= pre);
            let it = src.remove(0);
            assert(sv.subrange(0, i + 1).last() == it@);
            let ghost iv = it@;
            let ghost out0 = out@;
            let ghost q1 = import_views(self.import_items@);
            match it {
                ModuleItem::Import(d) => {
                    let mut d = d;
                    let emitted = self.visit_mut_import_decl(&mut d);
                    push_imports(&mut out, emitted);
                    let ghost out1 = out@;
                    out.push(ModuleItem::Import(d));
                    assert(item_views(out@) =~= item_views(out1).push(ItemModel::Import(d@)));
                    assert(item_views(out@) =~= item_views(out0) + item_rewritten(iv, o));
                    assert(import_views(self.import_items@) =~= q1 + item_styles(iv, o));
                },
                ModuleItem::Stmt(s) => {
                    let (emitted, left) = self.visit_mut_stat(s);
                    let ghost em = stmt_views(emitted@);
                    push_stmts(&mut out, emitted);
                    let ghost out1 = out@;
                    match left {
                        Some(x) => {
                            out.push(ModuleItem::Stmt(x));
                            assert(item_views(out@) =~= item_views(out1).push(ItemModel::Stmt(x@)));
                        },
                        None => {},
                    }
                    assert(stmts_as_items(em + opt_seq(stmt_left(iv->Stmt_0, o))) =~= stmts_as_items(em)
                        + stmts_as_items(opt_seq(stmt_left(iv->Stmt_0, o))));
                    assert(item_views(out@) =~= item_views(out0) + item_rewritten(iv, o));
                    assert(import_views(self.import_items@) =~= q1 + item_styles(iv, o));
                },
            }
            i = i + 1;
            assert(src@ =~= s0.subrange(i as int, n as int));
        }
        assert(sv.subrange(0, n as int) =~= sv);
        out
    }

    /// Drops the imports of the library that no longer bind anything.
    fn drop_spent(&self, items: Vec<ModuleItem>) -> (r: Vec<ModuleItem>)
        ensures
            item_views(r@) == without_spent(item_views(items@), self.options),
    {
        let ghost o = self.options;
        let mut src = items;
        let ghost s0 = src@;
        let ghost sv = item_views(s0);
        let n = src.len();
        let mut out: Vec<ModuleItem> = Vec::new();
        let mut i: usize = 0;
        while src.len() > 0
            invariant
                o == self.options,
                i + src@.len() == n,
                n == s0.len(),
                sv == item_views(s0),
                src@ == s0.subrange(i as int, n as int),
                item_views(out@) == without_spent(sv.subrange(0, i as int), o),
            decreases src@.len(),
        {
            let ghost pre = sv.subrange(0, i as int);
            assert(sv.subrange(0, i + 1).drop_last() =~= pre);
            let it = src.remove(0);
            assert(sv.subrange(0, i + 1).last() == it@);
            let ghost out0 = out@;
            let spent = match &it {
                ModuleItem::Import(d) => d.src.value == self.options.library_name
                    && d.specifiers.len() == 0,
                _ => false,
            };
            assert(spent == is_spent_import(it@, o));
            if spent {
                assert(item_views(out@) =~= item_views(out0) + Seq::empty());
            } else {
                let ghost iv = it@;
                out.push(it);
                assert(item_views(out@) =~= item_views(out0) + seq![iv]);
            }
            i = i + 1;
            assert(src@ =~= s0.subrange(i as int, n as int));
        }
        assert(sv.subrange(0, n as int) =~= sv);
        out
    }

    /// Rewrites a whole module: every item is rewritten, the spent imports of
    /// the library go, and the queued stylesheet imports are put at the front
    /// in the order they were queued. The queue is empty afterwards.
    pub fn visit_mut_module(&mut self, m: &mut Module)
        ensures
            final(self).options == old(self).options,
            final(self).import_items@.len() == 0,
            final(m)@ == module_rewritten(
                old(m)@,
                import_views(old(self).import_items@),
                old(self).options,
            ),
    {
        let ghost o = self.options;
        let ghost q0 = import_views(self.import_items@);
        let ghost m0 = m@;
        let mut items: Vec<ModuleItem> = Vec::new();
        std::mem::swap(&mut m.body, &mut items);
        let rewritten = self.rewrite_items(items);
        let kept = self.drop_spent(rewritten);
        let mut pending: Vec<ImportDecl> = Vec::new();
        std::mem::swap(&mut self.import_items, &mut pending);
        let mut body: Vec<ModuleItem> = Vec::new();
        assert(item_views(body@) =~= Seq::empty());
        push_imports(&mut body, pending);
        let ghost b1 = body@;
        let ghost kv = kept@;
        let mut kept = kept;
        body.append(&mut kept);
        assert(item_views(body@) =~= item_views(b1) + item_views(kv));
        m.body = body;
        assert(m@ =~= module_rewritten(m0, q0, o));
    }
}

/// Rewrites one module under `options`.
pub fn process_transform(module: Module, options: Options) -> (r: Module)
    ensures
        r@ == module_rewritten(module@, Seq::empty(), options),
{
    let mut visitor = TransformVisitor::new(options);
    let mut module = module;
    assert(import_views(visitor.import_items@) =~= Seq::empty());
    visitor.visit_mut_module(&mut module);
    module
}

}
