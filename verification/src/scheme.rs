//! The closure-converted high-level tree form and its canonical serializer.
//!
//! Every node kind has exactly one rendering rule; `scheme_text` states the
//! rule mathematically and `Scheme::render` is proved to produce exactly
//! that text. Binding lists and name lists are ordered vectors, so the
//! rendered text is a deterministic function of the tree.

use vstd::prelude::*;
use crate::text::{views_of, join_texts, wrap_form_text, dec_int, seqs_formatter, seqs_formatter2,
    int_text, paren_free, paren_balanced, paren_excess, paren_low, names_paren_free,
    lemma_paren_concat, lemma_paren_free_balanced, lemma_join_balanced, lemma_wrap_form_balanced,
    lemma_names_balanced, lemma_dec_int_free, lemma_paren_push};

verus! {

/// The high-level tree form, post closure conversion.
#[derive(Debug, PartialEq, Eq)]
pub enum Scheme {
    Letrec(Vec<(String, Scheme)>, Box<Scheme>),
    Locals(Vec<String>, Box<Scheme>),
    Let(Vec<(String, Scheme)>, Box<Scheme>),
    Assigned(Vec<String>, Box<Scheme>),
    Lambda(Vec<String>, Box<Scheme>),
    Free(Vec<String>, Box<Scheme>),
    Bindfree(Vec<String>, Box<Scheme>),
    Closures(Vec<(String, String, Vec<String>)>, Box<Scheme>),
    Begin(Vec<Scheme>),
    Prim1(String, Box<Scheme>),
    Prim2(String, Box<Scheme>, Box<Scheme>),
    Prim3(String, Box<Scheme>, Box<Scheme>, Box<Scheme>),
    If(Box<Scheme>, Box<Scheme>, Box<Scheme>),
    SetBang(Box<Scheme>, Box<Scheme>),
    Alloc(Box<Scheme>),
    Mref(Box<Scheme>, Box<Scheme>),
    Mset(Box<Scheme>, Box<Scheme>, Box<Scheme>),
    Funcall(Box<Scheme>, Vec<Scheme>),
    Symbol(String),
    Int64(i64),
    Bool(bool),
    Quote(Box<Scheme>),
    LiteralVector(Vec<Scheme>),
    LiteralList(Vec<Scheme>),
    EmptyList,
    Void,
    Nop,
}

/// The text of one `[name value]` binding entry.
pub open spec fn scheme_binding_text(p: (String, Scheme)) -> Seq<char>
    decreases p, 0int,
{
    "["@ + p.0@ + " "@ + scheme_text(p.1) + "]"@
}

/// The `[name value]` entries of a binding list, in order.
pub open spec fn scheme_binding_entries(bs: Seq<(String, Scheme)>) -> Seq<Seq<char>>
    decreases bs, bs.len(),
{
    if bs.len() == 0 {
        Seq::empty()
    } else {
        seq![scheme_binding_text(bs[0])] + scheme_binding_entries(bs.drop_first())
    }
}

/// The rendered texts of a list of trees, in order.
pub open spec fn scheme_texts(ts: Seq<Scheme>) -> Seq<Seq<char>>
    decreases ts, ts.len(),
{
    if ts.len() == 0 {
        Seq::empty()
    } else {
        seq![scheme_text(ts[0])] + scheme_texts(ts.drop_first())
    }
}

/// The text of one `[name label free-vars...]` closure record.
pub open spec fn closure_record_text(c: (String, String, Vec<String>)) -> Seq<char> {
    "["@ + c.0@ + " "@ + c.1@ + " "@ + join_texts(views_of(c.2@), " "@) + "]"@
}

/// The closure-record entries of a `closures` form, in order.
pub open spec fn closure_record_entries(cs: Seq<(String, String, Vec<String>)>) -> Seq<Seq<char>> {
    cs.map_values(|c: (String, String, Vec<String>)| closure_record_text(c))
}

/// Each rendered child of a `begin`, indented by two spaces.
pub open spec fn begin_entries(rs: Seq<Seq<char>>) -> Seq<Seq<char>> {
    rs.map_values(|r: Seq<char>| "  "@ + r)
}

/// The canonical text of a high-level tree.
pub open spec fn scheme_text(t: Scheme) -> Seq<char>
    decreases t, 1int,
{
    match t {
        Scheme::Letrec(bindings, body) => "(letrec ("@ + join_texts(
            scheme_binding_entries(bindings@),
            "\n"@,
        ) + ")\n "@ + scheme_text(*body) + ")"@,
        Scheme::Locals(uvars, tail) => wrap_form_text(
            "locals"@,
            join_texts(views_of(uvars@), " "@),
            scheme_text(*tail),
        ),
        Scheme::Let(bindings, tail) => "(let ("@ + join_texts(
            scheme_binding_entries(bindings@),
            " "@,
        ) + ")\n "@ + scheme_text(*tail) + ")"@,
        Scheme::Assigned(vars, body) => wrap_form_text(
            "assigned"@,
            join_texts(views_of(vars@), " "@),
            scheme_text(*body),
        ),
        Scheme::Lambda(args, body) => "(lambda ("@ + join_texts(views_of(args@), " "@) + ") "@
            + scheme_text(*body) + ")"@,
        Scheme::Free(fvars, tail) => wrap_form_text(
            "free"@,
            join_texts(views_of(fvars@), " "@),
            scheme_text(*tail),
        ),
        Scheme::Bindfree(fvars, tail) => wrap_form_text(
            "bind-free"@,
            join_texts(views_of(fvars@), " "@),
            scheme_text(*tail),
        ),
        Scheme::Closures(clos, tail) => "(closures ("@ + join_texts(
            closure_record_entries(clos@),
            " "@,
        ) + ")\n"@ + scheme_text(*tail) + ")"@,
        Scheme::Begin(exprs) => "(begin \n"@ + join_texts(begin_entries(scheme_texts(exprs@)), "\n"@)
            + ")"@,
        Scheme::Prim1(op, e) => "("@ + op@ + " "@ + scheme_text(*e) + ")"@,
        Scheme::Prim2(op, e1, e2) => "("@ + op@ + " "@ + scheme_text(*e1) + " "@ + scheme_text(*e2)
            + ")"@,
        Scheme::Prim3(op, e1, e2, e3) => "("@ + op@ + " "@ + scheme_text(*e1) + " "@ + scheme_text(
            *e2,
        ) + " "@ + scheme_text(*e3) + ")"@,
        Scheme::If(cond, b1, b2) => "(if "@ + scheme_text(*cond) + " "@ + scheme_text(*b1) + " "@
            + scheme_text(*b2) + ")"@,
        Scheme::SetBang(e1, e2) => "(set! "@ + scheme_text(*e1) + " "@ + scheme_text(*e2) + ")"@,
        Scheme::Alloc(e) => "(alloc "@ + scheme_text(*e) + ")"@,
        Scheme::Mref(base, offset) => "(mref "@ + scheme_text(*base) + " "@ + scheme_text(*offset)
            + ")"@,
        Scheme::Mset(base, offset, value) => "(mset! "@ + scheme_text(*base) + " "@ + scheme_text(
            *offset,
        ) + " "@ + scheme_text(*value) + ")"@,
        Scheme::Funcall(name, args) => "("@ + scheme_text(*name) + " "@ + join_texts(
            scheme_texts(args@),
            " "@,
        ) + ")"@,
        Scheme::Symbol(s) => s@,
        Scheme::Int64(i) => dec_int(i as int),
        Scheme::Bool(b) => if b {
            "(true)"@
        } else {
            "(false)"@
        },
        Scheme::Quote(imm) => match *imm {
            Scheme::Bool(b) => if b {
                "'#t"@
            } else {
                "'#f"@
            },
            _ => "'"@ + scheme_text(*imm),
        },
        Scheme::LiteralList(list) => "("@ + join_texts(scheme_texts(list@), " "@) + ")"@,
        Scheme::LiteralVector(vector) => "#("@ + join_texts(scheme_texts(vector@), " "@) + ")"@,
        Scheme::EmptyList => "()"@,
        Scheme::Void => "(void)"@,
        Scheme::Nop => "(nop)"@,
    }
}

/// `scheme_texts` is the pointwise rendering of the list.
pub proof fn lemma_scheme_texts(ts: Seq<Scheme>)
    ensures
        scheme_texts(ts).len() == ts.len(),
        forall|j: int| 0 <= j < ts.len() ==> scheme_texts(ts)[j] == scheme_text(ts[j]),
    decreases ts.len(),
{
    if ts.len() > 0 {
        lemma_scheme_texts(ts.drop_first());
        assert forall|j: int| 0 <= j < ts.len() implies scheme_texts(ts)[j] == scheme_text(
            ts[j],
        ) by {
            if j > 0 {
                assert(scheme_texts(ts)[j] == scheme_texts(ts.drop_first())[j - 1]);
                assert(ts.drop_first()[j - 1] == ts[j]);
            }
        }
    }
}

/// `scheme_binding_entries` is the pointwise rendering of the binding list.
pub proof fn lemma_scheme_binding_entries(bs: Seq<(String, Scheme)>)
    ensures
        scheme_binding_entries(bs).len() == bs.len(),
        forall|j: int|
            0 <= j < bs.len() ==> scheme_binding_entries(bs)[j] == scheme_binding_text(bs[j]),
    decreases bs.len(),
{
    if bs.len() > 0 {
        lemma_scheme_binding_entries(bs.drop_first());
        assert forall|j: int| 0 <= j < bs.len() implies scheme_binding_entries(bs)[j]
            == scheme_binding_text(bs[j]) by {
            if j > 0 {
                assert(scheme_binding_entries(bs)[j] == scheme_binding_entries(bs.drop_first())[j
                    - 1]);
                assert(bs.drop_first()[j - 1] == bs[j]);
            }
        }
    }
}

/// Renders each tree of the list, in order.
fn render_scheme_parts(ts: &Vec<Scheme>) -> (r: Vec<String>)
    ensures
        views_of(r@) == scheme_texts(ts@),
    decreases ts@, 0int,
{
    let mut parts: Vec<String> = Vec::new();
    let mut i: usize = 0;
    while i < ts.len()
        invariant
            0 <= i <= ts@.len(),
            parts@.len() == i,
            forall|j: int| 0 <= j < i ==> parts@[j]@ == scheme_text(ts@[j]),
        decreases ts@.len() - i,
    {
        let s = ts[i].render();
        parts.push(s);
        i += 1;
    }
    proof {
        lemma_scheme_texts(ts@);
        assert(views_of(parts@) =~= scheme_texts(ts@));
    }
    parts
}

/// Renders each `[name value]` binding of the list, in order.
fn render_scheme_bindings(bs: &Vec<(String, Scheme)>) -> (r: Vec<String>)
    ensures
        views_of(r@) == scheme_binding_entries(bs@),
    decreases bs@, 0int,
{
    let mut parts: Vec<String> = Vec::new();
    let mut i: usize = 0;
    while i < bs.len()
        invariant
            0 <= i <= bs@.len(),
            parts@.len() == i,
            forall|j: int| 0 <= j < i ==> parts@[j]@ == scheme_binding_text(bs@[j]),
        decreases bs@.len() - i,
    {
        let pair = &bs[i];
        let mut e = String::from_str("[");
        e.append(pair.0.as_str());
        e.append(" ");
        let v = pair.1.render();
        e.append(v.as_str());
        e.append("]");
        parts.push(e);
        i += 1;
    }
    proof {
        lemma_scheme_binding_entries(bs@);
        assert(views_of(parts@) =~= scheme_binding_entries(bs@));
    }
    parts
}

impl Scheme {
    /// Renders the tree into its canonical text.
    pub fn render(&self) -> (r: String)
        ensures
            r@ == scheme_text(*self),
        decreases self, 1int,
    {
        match self {
            Scheme::Letrec(bindings, body) => {
                let parts = render_scheme_bindings(bindings);
                let inner = seqs_formatter2(&parts, "\n");
                let mut r = String::from_str("(letrec (");
                r.append(inner.as_str());
                r.append(")\n ");
                let b = body.render();
                r.append(b.as_str());
                r.append(")");
                r
            },
            Scheme::Locals(uvars, tail) => {
                let t = tail.render();
                seqs_formatter("locals", uvars, " ", t.as_str())
            },
            Scheme::Let(bindings, tail) => {
                let parts = render_scheme_bindings(bindings);
                let inner = seqs_formatter2(&parts, " ");
                let mut r = String::from_str("(let (");
                r.append(inner.as_str());
                r.append(")\n ");
                let b = tail.render();
                r.append(b.as_str());
                r.append(")");
                r
            },
            Scheme::Assigned(vars, body) => {
                let t = body.render();
                seqs_formatter("assigned", vars, " ", t.as_str())
            },
            Scheme::Lambda(args, body) => {
                let inner = seqs_formatter2(args, " ");
                let mut r = String::from_str("(lambda (");
                r.append(inner.as_str());
                r.append(") ");
                let b = body.render();
                r.append(b.as_str());
                r.append(")");
                r
            },
            Scheme::Free(fvars, tail) => {
                let t = tail.render();
                seqs_formatter("free", fvars, " ", t.as_str())
            },
            Scheme::Bindfree(fvars, tail) => {
                let t = tail.render();
                seqs_formatter("bind-free", fvars, " ", t.as_str())
            },
            Scheme::Closures(clos, tail) => {
                let mut parts: Vec<String> = Vec::new();
                let mut i: usize = 0;
                while i < clos.len()
                    invariant
                        0 <= i <= clos@.len(),
                        parts@.len() == i,
                        forall|j: int| 0 <= j < i ==> parts@[j]@ == closure_record_text(clos@[j]),
                    decreases clos@.len() - i,
                {
                    let rec = &clos[i];
                    let mut e = String::from_str("[");
                    e.append(rec.0.as_str());
                    e.append(" ");
                    e.append(rec.1.as_str());
                    e.append(" ");
                    let fvs = seqs_formatter2(&rec.2, " ");
                    e.append(fvs.as_str());
                    e.append("]");
                    parts.push(e);
                    i += 1;
                }
                proof {
                    assert(views_of(parts@) =~= closure_record_entries(clos@));
                }
                let inner = seqs_formatter2(&parts, " ");
                let mut r = String::from_str("(closures (");
                r.append(inner.as_str());
                r.append(")\n");
                let b = tail.render();
                r.append(b.as_str());
                r.append(")");
                r
            },
            Scheme::Begin(exprs) => {
                let parts = render_scheme_parts(exprs);
                let mut indented: Vec<String> = Vec::new();
                let mut i: usize = 0;
                while i < parts.len()
                    invariant
                        0 <= i <= parts@.len(),
                        indented@.len() == i,
                        views_of(parts@) == scheme_texts(exprs@),
                        forall|j: int|
                            0 <= j < i ==> indented@[j]@ == "  "@ + scheme_texts(exprs@)[j],
                    decreases parts@.len() - i,
                {
                    let mut e = String::from_str("  ");
                    e.append(parts[i].as_str());
                    proof {
                        assert(parts@[i as int]@ == views_of(parts@)[i as int]);
                    }
                    indented.push(e);
                    i += 1;
                }
                proof {
                    assert(parts@.len() == views_of(parts@).len());
                    assert(views_of(indented@) =~= begin_entries(scheme_texts(exprs@)));
                }
                let inner = seqs_formatter2(&indented, "\n");
                let mut r = String::from_str("(begin \n");
                r.append(inner.as_str());
                r.append(")");
                r
            },
            Scheme::Prim1(op, e) => {
                let mut r = String::from_str("(");
                r.append(op.as_str());
                r.append(" ");
                let v = e.render();
                r.append(v.as_str());
                r.append(")");
                r
            },
            Scheme::Prim2(op, e1, e2) => {
                let mut r = String::from_str("(");
                r.append(op.as_str());
                r.append(" ");
                let v1 = e1.render();
                r.append(v1.as_str());
                r.append(" ");
                let v2 = e2.render();
                r.append(v2.as_str());
                r.append(")");
                r
            },
            Scheme::Prim3(op, e1, e2, e3) => {
                let mut r = String::from_str("(");
                r.append(op.as_str());
                r.append(" ");
                let v1 = e1.render();
                r.append(v1.as_str());
                r.append(" ");
                let v2 = e2.render();
                r.append(v2.as_str());
                r.append(" ");
                let v3 = e3.render();
                r.append(v3.as_str());
                r.append(")");
                r
            },
            Scheme::If(cond, b1, b2) => {
                let mut r = String::from_str("(if ");
                let c = cond.render();
                r.append(c.as_str());
                r.append(" ");
                let v1 = b1.render();
                r.append(v1.as_str());
                r.append(" ");
                let v2 = b2.render();
                r.append(v2.as_str());
                r.append(")");
                r
            },
            Scheme::SetBang(e1, e2) => {
                let mut r = String::from_str("(set! ");
                let v1 = e1.render();
                r.append(v1.as_str());
                r.append(" ");
                let v2 = e2.render();
                r.append(v2.as_str());
                r.append(")");
                r
            },
            Scheme::Alloc(e) => {
                let mut r = String::from_str("(alloc ");
                let v = e.render();
                r.append(v.as_str());
                r.append(")");
                r
            },
            Scheme::Mref(base, offset) => {
                let mut r = String::from_str("(mref ");
                let v1 = base.render();
                r.append(v1.as_str());
                r.append(" ");
                let v2 = offset.render();
                r.append(v2.as_str());
                r.append(")");
                r
            },
            Scheme::Mset(base, offset, value) => {
                let mut r = String::from_str("(mset! ");
                let v1 = base.render();
                r.append(v1.as_str());
                r.append(" ");
                let v2 = offset.render();
                r.append(v2.as_str());
                r.append(" ");
                let v3 = value.render();
                r.append(v3.as_str());
                r.append(")");
                r
            },
            Scheme::Funcall(name, args) => {
                let mut r = String::from_str("(");
                let n = name.render();
                r.append(n.as_str());
                r.append(" ");
                let parts = render_scheme_parts(args);
                let inner = seqs_formatter2(&parts, " ");
                r.append(inner.as_str());
                r.append(")");
                r
            },
            Scheme::Symbol(s) => String::from_str(s.as_str()),
            Scheme::Int64(i) => int_text(*i),
            Scheme::Bool(b) => {
                if *b {
                    String::from_str("(true)")
                } else {
                    String::from_str("(false)")
                }
            },
            Scheme::Quote(imm) => {
                match &**imm {
                    Scheme::Bool(b) => {
                        if *b {
                            String::from_str("'#t")
                        } else {
                            String::from_str("'#f")
                        }
                    },
                    _ => {
                        let mut r = String::from_str("'");
                        let v = imm.render();
                        r.append(v.as_str());
                        r
                    },
                }
            },
            Scheme::LiteralList(list) => {
                let parts = render_scheme_parts(list);
                let inner = seqs_formatter2(&parts, " ");
                let mut r = String::from_str("(");
                r.append(inner.as_str());
                r.append(")");
                r
            },
            Scheme::LiteralVector(vector) => {
                let parts = render_scheme_parts(vector);
                let inner = seqs_formatter2(&parts, " ");
                let mut r = String::from_str("#(");
                r.append(inner.as_str());
                r.append(")");
                r
            },
            Scheme::EmptyList => String::from_str("()"),
            Scheme::Void => String::from_str("(void)"),
            Scheme::Nop => String::from_str("(nop)"),
        }
    }
}

/// The parenthesis profile of some literal pieces of the serializer.
proof fn scheme_lit_facts_1()
    ensures
        paren_excess("(letrec ("@) == 2,
        paren_low("(letrec ("@) == 0,
        paren_excess(")\n "@) == -1,
        paren_low(")\n "@) == -1,
        paren_excess(")"@) == -1,
        paren_low(")"@) == -1,
        paren_excess("(let ("@) == 2,
        paren_low("(let ("@) == 0,
        paren_excess("(lambda ("@) == 2,
        paren_low("(lambda ("@) == 0,
        paren_excess(") "@) == -1,
        paren_low(") "@) == -1,
        paren_excess("(closures ("@) == 2,
        paren_low("(closures ("@) == 0,
        paren_excess(")\n"@) == -1,
        paren_low(")\n"@) == -1,
        paren_excess("(begin \n"@) == 1,
        paren_low("(begin \n"@) == 0,
        paren_excess("("@) == 1,
        paren_low("("@) == 0,
{
    assert(paren_excess("(letrec ("@) == 2 && paren_low("(letrec ("@) == 0) by {
        reveal_strlit("(letrec (");
        let s0 = Seq::<char>::empty();
        lemma_paren_push(s0, '(');
        let s1 = s0.push('(');
        lemma_paren_push(s1, 'l');
        let s2 = s1.push('l');
        lemma_paren_push(s2, 'e');
        let s3 = s2.push('e');
        lemma_paren_push(s3, 't');
        let s4 = s3.push('t');
        lemma_paren_push(s4, 'r');
        let s5 = s4.push('r');
        lemma_paren_push(s5, 'e');
        let s6 = s5.push('e');
        lemma_paren_push(s6, 'c');
        let s7 = s6.push('c');
        lemma_paren_push(s7, ' ');
        let s8 = s7.push(' ');
        lemma_paren_push(s8, '(');
        let s9 = s8.push('(');
        assert(paren_excess(s9) == 2);
        assert(paren_low(s9) == 0);
        assert("(letrec ("@ =~= s9);
    }
    assert(paren_excess(")\n "@) == -1 && paren_low(")\n "@) == -1) by {
        reveal_strlit(")\n ");
        let s0 = Seq::<char>::empty();
        lemma_paren_push(s0, ')');
        let s1 = s0.push(')');
        lemma_paren_push(s1, '\n');
        let s2 = s1.push('\n');
        lemma_paren_push(s2, ' ');
        let s3 = s2.push(' ');
        assert(paren_excess(s3) == -1);
        assert(paren_low(s3) == -1);
        assert(")\n "@ =~= s3);
    }
    assert(paren_excess(")"@) == -1 && paren_low(")"@) == -1) by {
        reveal_strlit(")");
        let s0 = Seq::<char>::empty();
        lemma_paren_push(s0, ')');
        let s1 = s0.push(')');
        assert(paren_excess(s1) == -1);
        assert(paren_low(s1) == -1);
        assert(")"@ =~= s1);
    }
    assert(paren_excess("(let ("@) == 2 && paren_low("(let ("@) == 0) by {
        reveal_strlit("(let (");
        let s0 = Seq::<char>::empty();
        lemma_paren_push(s0, '(');
        let s1 = s0.push('(');
        lemma_paren_push(s1, 'l');
        let s2 = s1.push('l');
        lemma_paren_push(s2, 'e');
        let s3 = s2.push('e');
        lemma_paren_push(s3, 't');
        let s4 = s3.push('t');
        lemma_paren_push(s4, ' ');
        let s5 = s4.push(' ');
        lemma_paren_push(s5, '(');
        let s6 = s5.push('(');
        assert(paren_excess(s6) == 2);
        assert(paren_low(s6) == 0);
        assert("(let ("@ =~= s6);
    }
    assert(paren_excess("(lambda ("@) == 2 && paren_low("(lambda ("@) == 0) by {
        reveal_strlit("(lambda (");
        let s0 = Seq::<char>::empty();
        lemma_paren_push(s0, '(');
        let s1 = s0.push('(');
        lemma_paren_push(s1, 'l');
        let s2 = s1.push('l');
        lemma_paren_push(s2, 'a');
        let s3 = s2.push('a');
        lemma_paren_push(s3, 'm');
        let s4 = s3.push('m');
        lemma_paren_push(s4, 'b');
        let s5 = s4.push('b');
        lemma_paren_push(s5, 'd');
        let s6 = s5.push('d');
        lemma_paren_push(s6, 'a');
        let s7 = s6.push('a');
        lemma_paren_push(s7, ' ');
        let s8 = s7.push(' ');
        lemma_paren_push(s8, '(');
        let s9 = s8.push('(');
        assert(paren_excess(s9) == 2);
        assert(paren_low(s9) == 0);
        assert("(lambda ("@ =~= s9);
    }
    assert(paren_excess(") "@) == -1 && paren_low(") "@) == -1) by {
        reveal_strlit(") ");
        let s0 = Seq::<char>::empty();
        lemma_paren_push(s0, ')');
        let s1 = s0.push(')');
        lemma_paren_push(s1, ' ');
        let s2 = s1.push(' ');
        assert(paren_excess(s2) == -1);
        assert(paren_low(s2) == -1);
        assert(") "@ =~= s2);
    }
    assert(paren_excess("(closures ("@) == 2 && paren_low("(closures ("@) == 0) by {
        reveal_strlit("(closures (");
        let s0 = Seq::<char>::empty();
        lemma_paren_push(s0, '(');
        let s1 = s0.push('(');
        lemma_paren_push(s1, 'c');
        let s2 = s1.push('c');
        lemma_paren_push(s2, 'l');
        let s3 = s2.push('l');
        lemma_paren_push(s3, 'o');
        let s4 = s3.push('o');
        lemma_paren_push(s4, 's');
        let s5 = s4.push('s');
        lemma_paren_push(s5, 'u');
        let s6 = s5.push('u');
        lemma_paren_push(s6, 'r');
        let s7 = s6.push('r');
        lemma_paren_push(s7, 'e');
        let s8 = s7.push('e');
        lemma_paren_push(s8, 's');
        let s9 = s8.push('s');
        lemma_paren_push(s9, ' ');
        let s10 = s9.push(' ');
        lemma_paren_push(s10, '(');
        let s11 = s10.push('(');
        assert(paren_excess(s11) == 2);
        assert(paren_low(s11) == 0);
        assert("(closures ("@ =~= s11);
    }
    assert(paren_excess(")\n"@) == -1 && paren_low(")\n"@) == -1) by {
        reveal_strlit(")\n");
        let s0 = Seq::<char>::empty();
        lemma_paren_push(s0, ')');
        let s1 = s0.push(')');
        lemma_paren_push(s1, '\n');
        let s2 = s1.push('\n');
        assert(paren_excess(s2) == -1);
        assert(paren_low(s2) == -1);
        assert(")\n"@ =~= s2);
    }
    assert(paren_excess("(begin \n"@) == 1 && paren_low("(begin \n"@) == 0) by {
        reveal_strlit("(begin \n");
        let s0 = Seq::<char>::empty();
        lemma_paren_push(s0, '(');
        let s1 = s0.push('(');
        lemma_paren_push(s1, 'b');
        let s2 = s1.push('b');
        lemma_paren_push(s2, 'e');
        let s3 = s2.push('e');
        lemma_paren_push(s3, 'g');
        let s4 = s3.push('g');
        lemma_paren_push(s4, 'i');
        let s5 = s4.push('i');
        lemma_paren_push(s5, 'n');
        let s6 = s5.push('n');
        lemma_paren_push(s6, ' ');
        let s7 = s6.push(' ');
        lemma_paren_push(s7, '\n');
        let s8 = s7.push('\n');
        assert(paren_excess(s8) == 1);
        assert(paren_low(s8) == 0);
        assert("(begin \n"@ =~= s8);
    }
    assert(paren_excess("("@) == 1 && paren_low("("@) == 0) by {
        reveal_strlit("(");
        let s0 = Seq::<char>::empty();
        lemma_paren_push(s0, '(');
        let s1 = s0.push('(');
        assert(paren_excess(s1) == 1);
        assert(paren_low(s1) == 0);
        assert("("@ =~= s1);
    }
}

/// The parenthesis profile of some literal pieces of the serializer.
proof fn scheme_lit_facts_2()
    ensures
        paren_excess("(if "@) == 1,
        paren_low("(if "@) == 0,
        paren_excess("(set! "@) == 1,
        paren_low("(set! "@) == 0,
        paren_excess("(alloc "@) == 1,
        paren_low("(alloc "@) == 0,
        paren_excess("(mref "@) == 1,
        paren_low("(mref "@) == 0,
        paren_excess("(mset! "@) == 1,
        paren_low("(mset! "@) == 0,
        paren_excess("#("@) == 1,
        paren_low("#("@) == 0,
        paren_excess("(true)"@) == 0,
        paren_low("(true)"@) == 0,
        paren_excess("(false)"@) == 0,
        paren_low("(false)"@) == 0,
        paren_excess("()"@) == 0,
        paren_low("()"@) == 0,
        paren_excess("(void)"@) == 0,
        paren_low("(void)"@) == 0,
{
    assert(paren_excess("(if "@) == 1 && paren_low("(if "@) == 0) by {
        reveal_strlit("(if ");
        let s0 = Seq::<char>::empty();
        lemma_paren_push(s0, '(');
        let s1 = s0.push('(');
        lemma_paren_push(s1, 'i');
        let s2 = s1.push('i');
        lemma_paren_push(s2, 'f');
        let s3 = s2.push('f');
        lemma_paren_push(s3, ' ');
        let s4 = s3.push(' ');
        assert(paren_excess(s4) == 1);
        assert(paren_low(s4) == 0);
        assert("(if "@ =~= s4);
    }
    assert(paren_excess("(set! "@) == 1 && paren_low("(set! "@) == 0) by {
        reveal_strlit("(set! ");
        let s0 = Seq::<char>::empty();
        lemma_paren_push(s0, '(');
        let s1 = s0.push('(');
        lemma_paren_push(s1, 's');
        let s2 = s1.push('s');
        lemma_paren_push(s2, 'e');
        let s3 = s2.push('e');
        lemma_paren_push(s3, 't');
        let s4 = s3.push('t');
        lemma_paren_push(s4, '!');
        let s5 = s4.push('!');
        lemma_paren_push(s5, ' ');
        let s6 = s5.push(' ');
        assert(paren_excess(s6) == 1);
        assert(paren_low(s6) == 0);
        assert("(set! "@ =~= s6);
    }
    assert(paren_excess("(alloc "@) == 1 && paren_low("(alloc "@) == 0) by {
        reveal_strlit("(alloc ");
        let s0 = Seq::<char>::empty();
        lemma_paren_push(s0, '(');
        let s1 = s0.push('(');
        lemma_paren_push(s1, 'a');
        let s2 = s1.push('a');
        lemma_paren_push(s2, 'l');
        let s3 = s2.push('l');
        lemma_paren_push(s3, 'l');
        let s4 = s3.push('l');
        lemma_paren_push(s4, 'o');
        let s5 = s4.push('o');
        lemma_paren_push(s5, 'c');
        let s6 = s5.push('c');
        lemma_paren_push(s6, ' ');
        let s7 = s6.push(' ');
        assert(paren_excess(s7) == 1);
        assert(paren_low(s7) == 0);
        assert("(alloc "@ =~= s7);
    }
    assert(paren_excess("(mref "@) == 1 && paren_low("(mref "@) == 0) by {
        reveal_strlit("(mref ");
        let s0 = Seq::<char>::empty();
        lemma_paren_push(s0, '(');
        let s1 = s0.push('(');
        lemma_paren_push(s1, 'm');
        let s2 = s1.push('m');
        lemma_paren_push(s2, 'r');
        let s3 = s2.push('r');
        lemma_paren_push(s3, 'e');
        let s4 = s3.push('e');
        lemma_paren_push(s4, 'f');
        let s5 = s4.push('f');
        lemma_paren_push(s5, ' ');
        let s6 = s5.push(' ');
        assert(paren_excess(s6) == 1);
        assert(paren_low(s6) == 0);
        assert("(mref "@ =~= s6);
    }
    assert(paren_excess("(mset! "@) == 1 && paren_low("(mset! "@) == 0) by {
        reveal_strlit("(mset! ");
        let s0 = Seq::<char>::empty();
        lemma_paren_push(s0, '(');
        let s1 = s0.push('(');
        lemma_paren_push(s1, 'm');
        let s2 = s1.push('m');
        lemma_paren_push(s2, 's');
        let s3 = s2.push('s');
        lemma_paren_push(s3, 'e');
        let s4 = s3.push('e');
        lemma_paren_push(s4, 't');
        let s5 = s4.push('t');
        lemma_paren_push(s5, '!');
        let s6 = s5.push('!');
        lemma_paren_push(s6, ' ');
        let s7 = s6.push(' ');
        assert(paren_excess(s7) == 1);
        assert(paren_low(s7) == 0);
        assert("(mset! "@ =~= s7);
    }
    assert(paren_excess("#("@) == 1 && paren_low("#("@) == 0) by {
        reveal_strlit("#(");
        let s0 = Seq::<char>::empty();
        lemma_paren_push(s0, '#');
        let s1 = s0.push('#');
        lemma_paren_push(s1, '(');
        let s2 = s1.push('(');
        assert(paren_excess(s2) == 1);
        assert(paren_low(s2) == 0);
        assert("#("@ =~= s2);
    }
    assert(paren_excess("(true)"@) == 0 && paren_low("(true)"@) == 0) by {
        reveal_strlit("(true)");
        let s0 = Seq::<char>::empty();
        lemma_paren_push(s0, '(');
        let s1 = s0.push('(');
        lemma_paren_push(s1, 't');
        let s2 = s1.push('t');
        lemma_paren_push(s2, 'r');
        let s3 = s2.push('r');
        lemma_paren_push(s3, 'u');
        let s4 = s3.push('u');
        lemma_paren_push(s4, 'e');
        let s5 = s4.push('e');
        lemma_paren_push(s5, ')');
        let s6 = s5.push(')');
        assert(paren_excess(s6) == 0);
        assert(paren_low(s6) == 0);
        assert("(true)"@ =~= s6);
    }
    assert(paren_excess("(false)"@) == 0 && paren_low("(false)"@) == 0) by {
        reveal_strlit("(false)");
        let s0 = Seq::<char>::empty();
        lemma_paren_push(s0, '(');
        let s1 = s0.push('(');
        lemma_paren_push(s1, 'f');
        let s2 = s1.push('f');
        lemma_paren_push(s2, 'a');
        let s3 = s2.push('a');
        lemma_paren_push(s3, 'l');
        let s4 = s3.push('l');
        lemma_paren_push(s4, 's');
        let s5 = s4.push('s');
        lemma_paren_push(s5, 'e');
        let s6 = s5.push('e');
        lemma_paren_push(s6, ')');
        let s7 = s6.push(')');
        assert(paren_excess(s7) == 0);
        assert(paren_low(s7) == 0);
        assert("(false)"@ =~= s7);
    }
    assert(paren_excess("()"@) == 0 && paren_low("()"@) == 0) by {
        reveal_strlit("()");
        let s0 = Seq::<char>::empty();
        lemma_paren_push(s0, '(');
        let s1 = s0.push('(');
        lemma_paren_push(s1, ')');
        let s2 = s1.push(')');
        assert(paren_excess(s2) == 0);
        assert(paren_low(s2) == 0);
        assert("()"@ =~= s2);
    }
    assert(paren_excess("(void)"@) == 0 && paren_low("(void)"@) == 0) by {
        reveal_strlit("(void)");
        let s0 = Seq::<char>::empty();
        lemma_paren_push(s0, '(');
        let s1 = s0.push('(');
        lemma_paren_push(s1, 'v');
        let s2 = s1.push('v');
        lemma_paren_push(s2, 'o');
        let s3 = s2.push('o');
        lemma_paren_push(s3, 'i');
        let s4 = s3.push('i');
        lemma_paren_push(s4, 'd');
        let s5 = s4.push('d');
        lemma_paren_push(s5, ')');
        let s6 = s5.push(')');
        assert(paren_excess(s6) == 0);
        assert(paren_low(s6) == 0);
        assert("(void)"@ =~= s6);
    }
}

/// The parenthesis profile of some literal pieces of the serializer.
proof fn scheme_lit_facts_3()
    ensures
        paren_excess("(nop)"@) == 0,
        paren_low("(nop)"@) == 0,
        paren_excess("'#t"@) == 0,
        paren_low("'#t"@) == 0,
        paren_excess("'#f"@) == 0,
        paren_low("'#f"@) == 0,
        paren_excess("'"@) == 0,
        paren_low("'"@) == 0,
        paren_excess("\n"@) == 0,
        paren_low("\n"@) == 0,
        paren_excess(" "@) == 0,
        paren_low(" "@) == 0,
        paren_excess("["@) == 0,
        paren_low("["@) == 0,
        paren_excess("]"@) == 0,
        paren_low("]"@) == 0,
        paren_excess("  "@) == 0,
        paren_low("  "@) == 0,
{
    assert(paren_excess("(nop)"@) == 0 && paren_low("(nop)"@) == 0) by {
        reveal_strlit("(nop)");
        let s0 = Seq::<char>::empty();
        lemma_paren_push(s0, '(');
        let s1 = s0.push('(');
        lemma_paren_push(s1, 'n');
        let s2 = s1.push('n');
        lemma_paren_push(s2, 'o');
        let s3 = s2.push('o');
        lemma_paren_push(s3, 'p');
        let s4 = s3.push('p');
        lemma_paren_push(s4, ')');
        let s5 = s4.push(')');
        assert(paren_excess(s5) == 0);
        assert(paren_low(s5) == 0);
        assert("(nop)"@ =~= s5);
    }
    assert(paren_excess("'#t"@) == 0 && paren_low("'#t"@) == 0) by {
        reveal_strlit("'#t");
        let s0 = Seq::<char>::empty();
        lemma_paren_push(s0, '\'');
        let s1 = s0.push('\'');
        lemma_paren_push(s1, '#');
        let s2 = s1.push('#');
        lemma_paren_push(s2, 't');
        let s3 = s2.push('t');
        assert(paren_excess(s3) == 0);
        assert(paren_low(s3) == 0);
        assert("'#t"@ =~= s3);
    }
    assert(paren_excess("'#f"@) == 0 && paren_low("'#f"@) == 0) by {
        reveal_strlit("'#f");
        let s0 = Seq::<char>::empty();
        lemma_paren_push(s0, '\'');
        let s1 = s0.push('\'');
        lemma_paren_push(s1, '#');
        let s2 = s1.push('#');
        lemma_paren_push(s2, 'f');
        let s3 = s2.push('f');
        assert(paren_excess(s3) == 0);
        assert(paren_low(s3) == 0);
        assert("'#f"@ =~= s3);
    }
    assert(paren_excess("'"@) == 0 && paren_low("'"@) == 0) by {
        reveal_strlit("'");
        let s0 = Seq::<char>::empty();
        lemma_paren_push(s0, '\'');
        let s1 = s0.push('\'');
        assert(paren_excess(s1) == 0);
        assert(paren_low(s1) == 0);
        assert("'"@ =~= s1);
    }
    assert(paren_excess("\n"@) == 0 && paren_low("\n"@) == 0) by {
        reveal_strlit("\n");
        let s0 = Seq::<char>::empty();
        lemma_paren_push(s0, '\n');
        let s1 = s0.push('\n');
        assert(paren_excess(s1) == 0);
        assert(paren_low(s1) == 0);
        assert("\n"@ =~= s1);
    }
    assert(paren_excess(" "@) == 0 && paren_low(" "@) == 0) by {
        reveal_strlit(" ");
        let s0 = Seq::<char>::empty();
        lemma_paren_push(s0, ' ');
        let s1 = s0.push(' ');
        assert(paren_excess(s1) == 0);
        assert(paren_low(s1) == 0);
        assert(" "@ =~= s1);
    }
    assert(paren_excess("["@) == 0 && paren_low("["@) == 0) by {
        reveal_strlit("[");
        let s0 = Seq::<char>::empty();
        lemma_paren_push(s0, '[');
        let s1 = s0.push('[');
        assert(paren_excess(s1) == 0);
        assert(paren_low(s1) == 0);
        assert("["@ =~= s1);
    }
    assert(paren_excess("]"@) == 0 && paren_low("]"@) == 0) by {
        reveal_strlit("]");
        let s0 = Seq::<char>::empty();
        lemma_paren_push(s0, ']');
        let s1 = s0.push(']');
        assert(paren_excess(s1) == 0);
        assert(paren_low(s1) == 0);
        assert("]"@ =~= s1);
    }
    assert(paren_excess("  "@) == 0 && paren_low("  "@) == 0) by {
        reveal_strlit("  ");
        let s0 = Seq::<char>::empty();
        lemma_paren_push(s0, ' ');
        let s1 = s0.push(' ');
        lemma_paren_push(s1, ' ');
        let s2 = s1.push(' ');
        assert(paren_excess(s2) == 0);
        assert(paren_low(s2) == 0);
        assert("  "@ =~= s2);
    }
}

/// The annotation form names hold no parenthesis.
proof fn scheme_lit_facts_names()
    ensures
        paren_free("locals"@),
        paren_free("assigned"@),
        paren_free("free"@),
        paren_free("bind-free"@),
{
    assert(paren_free("locals"@)) by {
        reveal_strlit("locals");
    }
    assert(paren_free("assigned"@)) by {
        reveal_strlit("assigned");
    }
    assert(paren_free("free"@)) by {
        reveal_strlit("free");
    }
    assert(paren_free("bind-free"@)) by {
        reveal_strlit("bind-free");
    }
}

/// The parenthesis profile of each literal piece of the serializer.
proof fn scheme_lit_facts()
    ensures
        paren_excess("(letrec ("@) == 2,
        paren_low("(letrec ("@) == 0,
        paren_excess(")\n "@) == -1,
        paren_low(")\n "@) == -1,
        paren_excess(")"@) == -1,
        paren_low(")"@) == -1,
        paren_excess("(let ("@) == 2,
        paren_low("(let ("@) == 0,
        paren_excess("(lambda ("@) == 2,
        paren_low("(lambda ("@) == 0,
        paren_excess(") "@) == -1,
        paren_low(") "@) == -1,
        paren_excess("(closures ("@) == 2,
        paren_low("(closures ("@) == 0,
        paren_excess(")\n"@) == -1,
        paren_low(")\n"@) == -1,
        paren_excess("(begin \n"@) == 1,
        paren_low("(begin \n"@) == 0,
        paren_excess("("@) == 1,
        paren_low("("@) == 0,
        paren_excess("(if "@) == 1,
        paren_low("(if "@) == 0,
        paren_excess("(set! "@) == 1,
        paren_low("(set! "@) == 0,
        paren_excess("(alloc "@) == 1,
        paren_low("(alloc "@) == 0,
        paren_excess("(mref "@) == 1,
        paren_low("(mref "@) == 0,
        paren_excess("(mset! "@) == 1,
        paren_low("(mset! "@) == 0,
        paren_excess("#("@) == 1,
        paren_low("#("@) == 0,
        paren_excess("(true)"@) == 0,
        paren_low("(true)"@) == 0,
        paren_excess("(false)"@) == 0,
        paren_low("(false)"@) == 0,
        paren_excess("()"@) == 0,
        paren_low("()"@) == 0,
        paren_excess("(void)"@) == 0,
        paren_low("(void)"@) == 0,
        paren_excess("(nop)"@) == 0,
        paren_low("(nop)"@) == 0,
        paren_excess("'#t"@) == 0,
        paren_low("'#t"@) == 0,
        paren_excess("'#f"@) == 0,
        paren_low("'#f"@) == 0,
        paren_excess("'"@) == 0,
        paren_low("'"@) == 0,
        paren_excess("\n"@) == 0,
        paren_low("\n"@) == 0,
        paren_excess(" "@) == 0,
        paren_low(" "@) == 0,
        paren_excess("["@) == 0,
        paren_low("["@) == 0,
        paren_excess("]"@) == 0,
        paren_low("]"@) == 0,
        paren_excess("  "@) == 0,
        paren_low("  "@) == 0,
        paren_free("locals"@),
        paren_free("assigned"@),
        paren_free("free"@),
        paren_free("bind-free"@),
{
    scheme_lit_facts_1();
    scheme_lit_facts_2();
    scheme_lit_facts_3();
    scheme_lit_facts_names();
}

// ---------------------------------------------------------------------------
// Balanced parentheses
// ---------------------------------------------------------------------------

/// No identifier embedded in the list of trees holds a parenthesis.
pub open spec fn scheme_all_clean(ts: Seq<Scheme>) -> bool
    decreases ts, 0int,
{
    forall|j: int| 0 <= j < ts.len() ==> scheme_clean(#[trigger] ts[j])
}

/// No identifier embedded in the binding list holds a parenthesis.
pub open spec fn scheme_bindings_clean(bs: Seq<(String, Scheme)>) -> bool
    decreases bs, 0int,
{
    forall|j: int|
        0 <= j < bs.len() ==> paren_free((#[trigger] bs[j]).0@) && scheme_clean(bs[j].1)
}

/// No name, label or free variable of the closure records holds a
/// parenthesis.
pub open spec fn closure_records_clean(cs: Seq<(String, String, Vec<String>)>) -> bool {
    forall|j: int|
        0 <= j < cs.len() ==> paren_free((#[trigger] cs[j]).0@) && paren_free(cs[j].1@)
            && names_paren_free(cs[j].2@)
}

/// No identifier embedded in the tree (symbol, primitive name, binding
/// name, closure name or free variable) holds a parenthesis.
pub open spec fn scheme_clean(t: Scheme) -> bool
    decreases t, 1int,
{
    match t {
        Scheme::Letrec(bindings, body) => scheme_bindings_clean(bindings@) && scheme_clean(*body),
        Scheme::Locals(uvars, tail) => names_paren_free(uvars@) && scheme_clean(*tail),
        Scheme::Let(bindings, tail) => scheme_bindings_clean(bindings@) && scheme_clean(*tail),
        Scheme::Assigned(vars, body) => names_paren_free(vars@) && scheme_clean(*body),
        Scheme::Lambda(args, body) => names_paren_free(args@) && scheme_clean(*body),
        Scheme::Free(fvars, tail) => names_paren_free(fvars@) && scheme_clean(*tail),
        Scheme::Bindfree(fvars, tail) => names_paren_free(fvars@) && scheme_clean(*tail),
        Scheme::Closures(clos, tail) => closure_records_clean(clos@) && scheme_clean(*tail),
        Scheme::Begin(exprs) => scheme_all_clean(exprs@),
        Scheme::Prim1(op, e) => paren_free(op@) && scheme_clean(*e),
        Scheme::Prim2(op, e1, e2) => paren_free(op@) && scheme_clean(*e1) && scheme_clean(*e2),
        Scheme::Prim3(op, e1, e2, e3) => paren_free(op@) && scheme_clean(*e1) && scheme_clean(*e2)
            && scheme_clean(*e3),
        Scheme::If(cond, b1, b2) => scheme_clean(*cond) && scheme_clean(*b1) && scheme_clean(*b2),
        Scheme::SetBang(e1, e2) => scheme_clean(*e1) && scheme_clean(*e2),
        Scheme::Alloc(e) => scheme_clean(*e),
        Scheme::Mref(base, offset) => scheme_clean(*base) && scheme_clean(*offset),
        Scheme::Mset(base, offset, value) => scheme_clean(*base) && scheme_clean(*offset)
            && scheme_clean(*value),
        Scheme::Funcall(name, args) => scheme_clean(*name) && scheme_all_clean(args@),
        Scheme::Symbol(s) => paren_free(s@),
        Scheme::Int64(_) => true,
        Scheme::Bool(_) => true,
        Scheme::Quote(imm) => scheme_clean(*imm),
        Scheme::LiteralList(list) => scheme_all_clean(list@),
        Scheme::LiteralVector(vector) => scheme_all_clean(vector@),
        Scheme::EmptyList => true,
        Scheme::Void => true,
        Scheme::Nop => true,
    }
}

/// Every rendered tree of a clean list is balanced.
proof fn lemma_scheme_texts_balanced(ts: Seq<Scheme>)
    requires
        scheme_all_clean(ts),
    ensures
        scheme_texts(ts).len() == ts.len(),
        forall|j: int|
            0 <= j < ts.len() ==> paren_balanced(#[trigger] scheme_texts(ts)[j]),
    decreases ts, 0int,
{
    lemma_scheme_texts(ts);
    assert forall|j: int| 0 <= j < ts.len() implies paren_balanced(
        #[trigger] scheme_texts(ts)[j],
    ) by {
        lemma_scheme_text_balanced(ts[j]);
    }
}

/// Every rendered `[name value]` entry of a clean binding list is balanced.
proof fn lemma_scheme_bindings_balanced(bs: Seq<(String, Scheme)>)
    requires
        scheme_bindings_clean(bs),
    ensures
        scheme_binding_entries(bs).len() == bs.len(),
        forall|j: int|
            0 <= j < bs.len() ==> paren_balanced(#[trigger] scheme_binding_entries(bs)[j]),
    decreases bs, 0int,
{
    lemma_scheme_binding_entries(bs);
    scheme_lit_facts();
    assert forall|j: int| 0 <= j < bs.len() implies paren_balanced(
        #[trigger] scheme_binding_entries(bs)[j],
    ) by {
        lemma_scheme_text_balanced(bs[j].1);
        lemma_paren_free_balanced(bs[j].0@);
        lemma_paren_concat("["@, bs[j].0@);
        lemma_paren_concat("["@ + bs[j].0@, " "@);
        lemma_paren_concat("["@ + bs[j].0@ + " "@, scheme_text(bs[j].1));
        lemma_paren_concat("["@ + bs[j].0@ + " "@ + scheme_text(bs[j].1), "]"@);
    }
}

/// Every rendered closure record of a clean record list is balanced.
proof fn lemma_closure_records_balanced(cs: Seq<(String, String, Vec<String>)>)
    requires
        closure_records_clean(cs),
    ensures
        closure_record_entries(cs).len() == cs.len(),
        forall|j: int|
            0 <= j < cs.len() ==> paren_balanced(#[trigger] closure_record_entries(cs)[j]),
    decreases cs.len(),
{
    scheme_lit_facts();
    assert forall|j: int| 0 <= j < cs.len() implies paren_balanced(
        #[trigger] closure_record_entries(cs)[j],
    ) by {
        let c = cs[j];
        assert(closure_record_entries(cs)[j] == closure_record_text(c));
        lemma_paren_free_balanced(c.0@);
        lemma_paren_free_balanced(c.1@);
        lemma_names_balanced(c.2@);
        let fvs = join_texts(views_of(c.2@), " "@);
        lemma_join_balanced(views_of(c.2@), " "@);
        lemma_paren_concat("["@, c.0@);
        lemma_paren_concat("["@ + c.0@, " "@);
        lemma_paren_concat("["@ + c.0@ + " "@, c.1@);
        lemma_paren_concat("["@ + c.0@ + " "@ + c.1@, " "@);
        lemma_paren_concat("["@ + c.0@ + " "@ + c.1@ + " "@, fvs);
        lemma_paren_concat("["@ + c.0@ + " "@ + c.1@ + " "@ + fvs, "]"@);
    }
}

/// Every indented `begin` entry over balanced child texts is balanced.
proof fn lemma_begin_entries_balanced(rs: Seq<Seq<char>>)
    requires
        forall|j: int| 0 <= j < rs.len() ==> paren_balanced(#[trigger] rs[j]),
    ensures
        begin_entries(rs).len() == rs.len(),
        forall|j: int| 0 <= j < rs.len() ==> paren_balanced(#[trigger] begin_entries(rs)[j]),
{
    scheme_lit_facts();
    assert forall|j: int| 0 <= j < rs.len() implies paren_balanced(
        #[trigger] begin_entries(rs)[j],
    ) by {
        assert(begin_entries(rs)[j] == "  "@ + rs[j]);
        lemma_paren_concat("  "@, rs[j]);
    }
}

/// For any tree whose embedded identifiers hold no parenthesis, the
/// rendered text has balanced parentheses: as many close as open, and no
/// prefix closes more than it has opened. Rendering a tree holding an
/// identifier such as `Symbol(")")` copies that identifier into the
/// output, which is why cleanliness is asked.
pub proof fn lemma_scheme_text_balanced(t: Scheme)
    requires
        scheme_clean(t),
    ensures
        paren_balanced(scheme_text(t)),
    decreases t, 1int,
{
    scheme_lit_facts();
    match t {
        Scheme::Letrec(bindings, body) => {
            lemma_scheme_bindings_balanced(bindings@);
            let j1 = join_texts(scheme_binding_entries(bindings@), "\n"@);
            lemma_join_balanced(scheme_binding_entries(bindings@), "\n"@);
            lemma_scheme_text_balanced(*body);
            lemma_paren_concat("(letrec ("@, j1);
            lemma_paren_concat("(letrec ("@ + j1, ")\n "@);
            lemma_paren_concat("(letrec ("@ + j1 + ")\n "@, scheme_text(*body));
            lemma_paren_concat("(letrec ("@ + j1 + ")\n "@ + scheme_text(*body), ")"@);
        },
        Scheme::Locals(uvars, tail) => {
            lemma_names_balanced(uvars@);
            lemma_join_balanced(views_of(uvars@), " "@);
            lemma_scheme_text_balanced(*tail);
            lemma_wrap_form_balanced(
                "locals"@,
                join_texts(views_of(uvars@), " "@),
                scheme_text(*tail),
            );
        },
        Scheme::Let(bindings, tail) => {
            lemma_scheme_bindings_balanced(bindings@);
            let j1 = join_texts(scheme_binding_entries(bindings@), " "@);
            lemma_join_balanced(scheme_binding_entries(bindings@), " "@);
            lemma_scheme_text_balanced(*tail);
            lemma_paren_concat("(let ("@, j1);
            lemma_paren_concat("(let ("@ + j1, ")\n "@);
            lemma_paren_concat("(let ("@ + j1 + ")\n "@, scheme_text(*tail));
            lemma_paren_concat("(let ("@ + j1 + ")\n "@ + scheme_text(*tail), ")"@);
        },
        Scheme::Assigned(vars, body) => {
            lemma_names_balanced(vars@);
            lemma_join_balanced(views_of(vars@), " "@);
            lemma_scheme_text_balanced(*body);
            lemma_wrap_form_balanced(
                "assigned"@,
                join_texts(views_of(vars@), " "@),
                scheme_text(*body),
            );
        },
        Scheme::Lambda(args, body) => {
            lemma_names_balanced(args@);
            let j1 = join_texts(views_of(args@), " "@);
            lemma_join_balanced(views_of(args@), " "@);
            lemma_scheme_text_balanced(*body);
            lemma_paren_concat("(lambda ("@, j1);
            lemma_paren_concat("(lambda ("@ + j1, ") "@);
            lemma_paren_concat("(lambda ("@ + j1 + ") "@, scheme_text(*body));
            lemma_paren_concat("(lambda ("@ + j1 + ") "@ + scheme_text(*body), ")"@);
        },
        Scheme::Free(fvars, tail) => {
            lemma_names_balanced(fvars@);
            lemma_join_balanced(views_of(fvars@), " "@);
            lemma_scheme_text_balanced(*tail);
            lemma_wrap_form_balanced(
                "free"@,
                join_texts(views_of(fvars@), " "@),
                scheme_text(*tail),
            );
        },
        Scheme::Bindfree(fvars, tail) => {
            lemma_names_balanced(fvars@);
            lemma_join_balanced(views_of(fvars@), " "@);
            lemma_scheme_text_balanced(*tail);
            lemma_wrap_form_balanced(
                "bind-free"@,
                join_texts(views_of(fvars@), " "@),
                scheme_text(*tail),
            );
        },
        Scheme::Closures(clos, tail) => {
            lemma_closure_records_balanced(clos@);
            let j1 = join_texts(closure_record_entries(clos@), " "@);
            lemma_join_balanced(closure_record_entries(clos@), " "@);
            lemma_scheme_text_balanced(*tail);
            lemma_paren_concat("(closures ("@, j1);
            lemma_paren_concat("(closures ("@ + j1, ")\n"@);
            lemma_paren_concat("(closures ("@ + j1 + ")\n"@, scheme_text(*tail));
            lemma_paren_concat("(closures ("@ + j1 + ")\n"@ + scheme_text(*tail), ")"@);
        },
        Scheme::Begin(exprs) => {
            lemma_scheme_texts_balanced(exprs@);
            lemma_begin_entries_balanced(scheme_texts(exprs@));
            let j1 = join_texts(begin_entries(scheme_texts(exprs@)), "\n"@);
            lemma_join_balanced(begin_entries(scheme_texts(exprs@)), "\n"@);
            lemma_paren_concat("(begin \n"@, j1);
            lemma_paren_concat("(begin \n"@ + j1, ")"@);
        },
        Scheme::Prim1(op, e) => {
            lemma_paren_free_balanced(op@);
            lemma_scheme_text_balanced(*e);
            lemma_paren_concat("("@, op@);
            lemma_paren_concat("("@ + op@, " "@);
            lemma_paren_concat("("@ + op@ + " "@, scheme_text(*e));
            lemma_paren_concat("("@ + op@ + " "@ + scheme_text(*e), ")"@);
        },
        Scheme::Prim2(op, e1, e2) => {
            lemma_paren_free_balanced(op@);
            lemma_scheme_text_balanced(*e1);
            lemma_scheme_text_balanced(*e2);
            let x1 = scheme_text(*e1);
            let x2 = scheme_text(*e2);
            lemma_paren_concat("("@, op@);
            lemma_paren_concat("("@ + op@, " "@);
            lemma_paren_concat("("@ + op@ + " "@, x1);
            lemma_paren_concat("("@ + op@ + " "@ + x1, " "@);
            lemma_paren_concat("("@ + op@ + " "@ + x1 + " "@, x2);
            lemma_paren_concat("("@ + op@ + " "@ + x1 + " "@ + x2, ")"@);
        },
        Scheme::Prim3(op, e1, e2, e3) => {
            lemma_paren_free_balanced(op@);
            lemma_scheme_text_balanced(*e1);
            lemma_scheme_text_balanced(*e2);
            lemma_scheme_text_balanced(*e3);
            let x1 = scheme_text(*e1);
            let x2 = scheme_text(*e2);
            let x3 = scheme_text(*e3);
            lemma_paren_concat("("@, op@);
            lemma_paren_concat("("@ + op@, " "@);
            lemma_paren_concat("("@ + op@ + " "@, x1);
            lemma_paren_concat("("@ + op@ + " "@ + x1, " "@);
            lemma_paren_concat("("@ + op@ + " "@ + x1 + " "@, x2);
            lemma_paren_concat("("@ + op@ + " "@ + x1 + " "@ + x2, " "@);
            lemma_paren_concat("("@ + op@ + " "@ + x1 + " "@ + x2 + " "@, x3);
            lemma_paren_concat("("@ + op@ + " "@ + x1 + " "@ + x2 + " "@ + x3, ")"@);
        },
        Scheme::If(cond, b1, b2) => {
            lemma_scheme_text_balanced(*cond);
            lemma_scheme_text_balanced(*b1);
            lemma_scheme_text_balanced(*b2);
            let x1 = scheme_text(*cond);
            let x2 = scheme_text(*b1);
            let x3 = scheme_text(*b2);
            lemma_paren_concat("(if "@, x1);
            lemma_paren_concat("(if "@ + x1, " "@);
            lemma_paren_concat("(if "@ + x1 + " "@, x2);
            lemma_paren_concat("(if "@ + x1 + " "@ + x2, " "@);
            lemma_paren_concat("(if "@ + x1 + " "@ + x2 + " "@, x3);
            lemma_paren_concat("(if "@ + x1 + " "@ + x2 + " "@ + x3, ")"@);
        },
        Scheme::SetBang(e1, e2) => {
            lemma_scheme_text_balanced(*e1);
            lemma_scheme_text_balanced(*e2);
            let x1 = scheme_text(*e1);
            let x2 = scheme_text(*e2);
            lemma_paren_concat("(set! "@, x1);
            lemma_paren_concat("(set! "@ + x1, " "@);
            lemma_paren_concat("(set! "@ + x1 + " "@, x2);
            lemma_paren_concat("(set! "@ + x1 + " "@ + x2, ")"@);
        },
        Scheme::Alloc(e) => {
            lemma_scheme_text_balanced(*e);
            lemma_paren_concat("(alloc "@, scheme_text(*e));
            lemma_paren_concat("(alloc "@ + scheme_text(*e), ")"@);
        },
        Scheme::Mref(base, offset) => {
            lemma_scheme_text_balanced(*base);
            lemma_scheme_text_balanced(*offset);
            let x1 = scheme_text(*base);
            let x2 = scheme_text(*offset);
            lemma_paren_concat("(mref "@, x1);
            lemma_paren_concat("(mref "@ + x1, " "@);
            lemma_paren_concat("(mref "@ + x1 + " "@, x2);
            lemma_paren_concat("(mref "@ + x1 + " "@ + x2, ")"@);
        },
        Scheme::Mset(base, offset, value) => {
            lemma_scheme_text_balanced(*base);
            lemma_scheme_text_balanced(*offset);
            lemma_scheme_text_balanced(*value);
            let x1 = scheme_text(*base);
            let x2 = scheme_text(*offset);
            let x3 = scheme_text(*value);
            lemma_paren_concat("(mset! "@, x1);
            lemma_paren_concat("(mset! "@ + x1, " "@);
            lemma_paren_concat("(mset! "@ + x1 + " "@, x2);
            lemma_paren_concat("(mset! "@ + x1 + " "@ + x2, " "@);
            lemma_paren_concat("(mset! "@ + x1 + " "@ + x2 + " "@, x3);
            lemma_paren_concat("(mset! "@ + x1 + " "@ + x2 + " "@ + x3, ")"@);
        },
        Scheme::Funcall(name, args) => {
            lemma_scheme_text_balanced(*name);
            lemma_scheme_texts_balanced(args@);
            let x1 = scheme_text(*name);
            let j1 = join_texts(scheme_texts(args@), " "@);
            lemma_join_balanced(scheme_texts(args@), " "@);
            lemma_paren_concat("("@, x1);
            lemma_paren_concat("("@ + x1, " "@);
            lemma_paren_concat("("@ + x1 + " "@, j1);
            lemma_paren_concat("("@ + x1 + " "@ + j1, ")"@);
        },
        Scheme::Symbol(s) => {
            lemma_paren_free_balanced(s@);
        },
        Scheme::Int64(i) => {
            lemma_dec_int_free(i as int);
            lemma_paren_free_balanced(dec_int(i as int));
        },
        Scheme::Bool(_) => {},
        Scheme::Quote(imm) => {
            match *imm {
                Scheme::Bool(_) => {},
                _ => {
                    lemma_scheme_text_balanced(*imm);
                    lemma_paren_concat("'"@, scheme_text(*imm));
                },
            }
        },
        Scheme::LiteralList(list) => {
            lemma_scheme_texts_balanced(list@);
            let j1 = join_texts(scheme_texts(list@), " "@);
            lemma_join_balanced(scheme_texts(list@), " "@);
            lemma_paren_concat("("@, j1);
            lemma_paren_concat("("@ + j1, ")"@);
        },
        Scheme::LiteralVector(vector) => {
            lemma_scheme_texts_balanced(vector@);
            let j1 = join_texts(scheme_texts(vector@), " "@);
            lemma_join_balanced(scheme_texts(vector@), " "@);
            lemma_paren_concat("#("@, j1);
            lemma_paren_concat("#("@ + j1, ")"@);
        },
        Scheme::EmptyList => {},
        Scheme::Void => {},
        Scheme::Nop => {},
    }
}

/// Rendering is deterministic: the text is a function of the tree alone,
/// so rendering one tree value twice yields byte-identical output.
pub proof fn lemma_scheme_text_deterministic(t1: Scheme, t2: Scheme)
    requires
        t1 == t2,
    ensures
        scheme_text(t1) == scheme_text(t2),
{
}

} // verus!
