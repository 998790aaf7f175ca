//! The register-allocation tree form and its canonical serializer.
//!
//! This form adds allocation metadata around the shared node kinds:
//! unassigned/unspillable/spilled locals, variable locations, register and
//! frame conflict graphs, new stack frames, call-live sets and return
//! points. `expr_text` states each rendering rule mathematically and
//! `Expr::render` is proved to produce exactly that text.

use vstd::prelude::*;
use crate::text::{views_of, join_texts, wrap_form_text, dec_int, seqs_formatter, seqs_formatter2,
    int_text, paren_free, paren_balanced, paren_excess, paren_low, names_paren_free,
    lemma_paren_concat, lemma_paren_push, lemma_paren_free_balanced, lemma_join_balanced,
    lemma_wrap_form_balanced, lemma_names_balanced, lemma_dec_int_free};

verus! {

/// A variable paired with the variables that must not share its location.
/// The entry order is the canonical output order.
pub type ConflictGraph = Vec<(String, Vec<String>)>;

/// A set of candidate stack-frame layouts, each an ordered run of variable
/// names.
pub type Frame = Vec<Vec<String>>;

/// The register-allocation tree form.
#[derive(Debug)]
pub enum Expr {
    Letrec(Vec<Expr>, Box<Expr>),
    Locals(Vec<String>, Box<Expr>),
    Ulocals(Vec<String>, Box<Expr>),
    Spills(Vec<String>, Box<Expr>),
    Locate(Vec<(String, String)>, Box<Expr>),
    Lambda(String, Vec<String>, Box<Expr>),
    RegisterConflict(ConflictGraph, Box<Expr>),
    FrameConflict(ConflictGraph, Box<Expr>),
    NewFrames(Frame, Box<Expr>),
    CallLive(Vec<String>, Box<Expr>),
    ReturnPoint(String, Box<Expr>),
    Begin(Vec<Expr>),
    Prim1(String, Box<Expr>),
    Prim2(String, Box<Expr>, Box<Expr>),
    If(Box<Expr>, Box<Expr>, Box<Expr>),
    If1(Box<Expr>, Box<Expr>),
    SetBang(Box<Expr>, Box<Expr>),
    Alloc(Box<Expr>),
    Mref(Box<Expr>, Box<Expr>),
    Mset(Box<Expr>, Box<Expr>, Box<Expr>),
    Symbol(String),
    Funcall(Box<Expr>, Vec<Expr>),
    Int64(i64),
    Bool(bool),
    Nop,
}

/// The text of one `(variable {conflicts...})` conflict-graph entry.
pub open spec fn conflict_entry_text(p: (String, Vec<String>)) -> Seq<char> {
    "("@ + p.0@ + " {"@ + join_texts(views_of(p.1@), " "@) + "})"@
}

/// The conflict-graph entries, in the graph's own order.
pub open spec fn conflict_entries(g: Seq<(String, Vec<String>)>) -> Seq<Seq<char>> {
    g.map_values(|p: (String, Vec<String>)| conflict_entry_text(p))
}

/// A conflict graph rendered under a heading, wrapped around a tail.
pub open spec fn conflict_graph_text(
    form: Seq<char>,
    g: Seq<(String, Vec<String>)>,
    tail: Seq<char>,
) -> Seq<char> {
    wrap_form_text(form, join_texts(conflict_entries(g), " "@), tail)
}

/// The text of one `[name location]` entry of a `locate` form.
pub open spec fn locate_entry_text(p: (String, String)) -> Seq<char> {
    "["@ + p.0@ + " "@ + p.1@ + "]"@
}

/// The `[name location]` entries of a `locate` form, in order.
pub open spec fn locate_entries(bs: Seq<(String, String)>) -> Seq<Seq<char>> {
    bs.map_values(|p: (String, String)| locate_entry_text(p))
}

/// The text of one frame layout: its variable names in parentheses.
pub open spec fn frame_entry_text(ns: Vec<String>) -> Seq<char> {
    "("@ + join_texts(views_of(ns@), " "@) + ")"@
}

/// The frame layouts of a `new-frames` form, in order.
pub open spec fn frame_entries(fs: Seq<Vec<String>>) -> Seq<Seq<char>> {
    fs.map_values(|ns: Vec<String>| frame_entry_text(ns))
}

/// Each rendered child of a `begin`, indented by two spaces.
pub open spec fn expr_begin_entries(rs: Seq<Seq<char>>) -> Seq<Seq<char>> {
    rs.map_values(|r: Seq<char>| "  "@ + r)
}

/// The canonical text of a register-allocation tree.
pub open spec fn expr_text(t: Expr) -> Seq<char>
    decreases t, 1int,
{
    match t {
        Expr::Letrec(lambdas, body) => "(letrec "@ + join_texts(expr_texts(lambdas@), "\n"@)
            + "\n "@ + expr_text(*body) + ")"@,
        Expr::Locals(uvars, tail) => wrap_form_text(
            "locals"@,
            join_texts(views_of(uvars@), " "@),
            expr_text(*tail),
        ),
        Expr::Ulocals(unspills, tail) => wrap_form_text(
            "ulocals"@,
            join_texts(views_of(unspills@), " "@),
            expr_text(*tail),
        ),
        Expr::Spills(spills, tail) => wrap_form_text(
            "spills"@,
            join_texts(views_of(spills@), " "@),
            expr_text(*tail),
        ),
        Expr::Locate(bindings, tail) => "(locate ("@ + join_texts(locate_entries(bindings@), " "@)
            + ")\n "@ + expr_text(*tail) + ")"@,
        Expr::Lambda(label, args, body) => "("@ + label@ + " (lambda ("@ + join_texts(
            views_of(args@),
            " "@,
        ) + ") "@ + expr_text(*body) + "))"@,
        Expr::RegisterConflict(graph, tail) => conflict_graph_text(
            "register-conflict"@,
            graph@,
            expr_text(*tail),
        ),
        Expr::FrameConflict(graph, tail) => conflict_graph_text(
            "frame-conflict"@,
            graph@,
            expr_text(*tail),
        ),
        Expr::NewFrames(frames, tail) => "(new-frames ("@ + join_texts(frame_entries(frames@), " "@)
            + ") "@ + expr_text(*tail) + ")"@,
        Expr::CallLive(live, tail) => wrap_form_text(
            "call-live"@,
            join_texts(views_of(live@), " "@),
            expr_text(*tail),
        ),
        Expr::ReturnPoint(rp, e) => "(return-point "@ + rp@ + " "@ + expr_text(*e) + ")"@,
        Expr::Begin(exprs) => "(begin \n"@ + join_texts(
            expr_begin_entries(expr_texts(exprs@)),
            "\n"@,
        ) + ")"@,
        Expr::Prim1(op, e) => "("@ + op@ + " "@ + expr_text(*e) + ")"@,
        Expr::Prim2(op, e1, e2) => "("@ + op@ + " "@ + expr_text(*e1) + " "@ + expr_text(*e2)
            + ")"@,
        Expr::If(cond, b1, b2) => "(if "@ + expr_text(*cond) + " "@ + expr_text(*b1) + " "@
            + expr_text(*b2) + ")"@,
        Expr::If1(cond, b) => "(if "@ + expr_text(*cond) + " "@ + expr_text(*b) + ")"@,
        Expr::SetBang(e1, e2) => "(set! "@ + expr_text(*e1) + " "@ + expr_text(*e2) + ")"@,
        Expr::Alloc(e) => "(alloc "@ + expr_text(*e) + ")"@,
        Expr::Mref(base, offset) => "(mref "@ + expr_text(*base) + " "@ + expr_text(*offset) + ")"@,
        Expr::Mset(base, offset, value) => "(mset! "@ + expr_text(*base) + " "@ + expr_text(*offset)
            + " "@ + expr_text(*value) + ")"@,
        Expr::Symbol(s) => s@,
        Expr::Funcall(name, args) => "("@ + expr_text(*name) + " "@ + join_texts(
            expr_texts(args@),
            " "@,
        ) + ")"@,
        Expr::Int64(i) => dec_int(i as int),
        Expr::Bool(b) => if b {
            "(true)"@
        } else {
            "(false)"@
        },
        Expr::Nop => "(nop)"@,
    }
}

/// The rendered texts of a list of trees, in order.
pub open spec fn expr_texts(ts: Seq<Expr>) -> Seq<Seq<char>>
    decreases ts, ts.len(),
{
    if ts.len() == 0 {
        Seq::empty()
    } else {
        seq![expr_text(ts[0])] + expr_texts(ts.drop_first())
    }
}

/// `expr_texts` is the pointwise rendering of the list.
pub proof fn lemma_expr_texts(ts: Seq<Expr>)
    ensures
        expr_texts(ts).len() == ts.len(),
        forall|j: int| 0 <= j < ts.len() ==> expr_texts(ts)[j] == expr_text(ts[j]),
    decreases ts.len(),
{
    if ts.len() > 0 {
        lemma_expr_texts(ts.drop_first());
        assert forall|j: int| 0 <= j < ts.len() implies expr_texts(ts)[j] == expr_text(ts[j]) by {
            if j > 0 {
                assert(expr_texts(ts)[j] == expr_texts(ts.drop_first())[j - 1]);
                assert(ts.drop_first()[j - 1] == ts[j]);
            }
        }
    }
}

/// Renders each tree of the list, in order.
fn render_expr_parts(ts: &Vec<Expr>) -> (r: Vec<String>)
    ensures
        views_of(r@) == expr_texts(ts@),
    decreases ts@, 0int,
{
    let mut parts: Vec<String> = Vec::new();
    let mut i: usize = 0;
    while i < ts.len()
        invariant
            0 <= i <= ts@.len(),
            parts@.len() == i,
            forall|j: int| 0 <= j < i ==> parts@[j]@ == expr_text(ts@[j]),
        decreases ts@.len() - i,
    {
        let s = ts[i].render();
        parts.push(s);
        i += 1;
    }
    proof {
        lemma_expr_texts(ts@);
        assert(views_of(parts@) =~= expr_texts(ts@));
    }
    parts
}

/// Renders the `(variable {conflicts...})` entries of a conflict graph, in
/// the graph's own order.
fn render_conflict_entries(g: &ConflictGraph) -> (r: Vec<String>)
    ensures
        views_of(r@) == conflict_entries(g@),
{
    let mut parts: Vec<String> = Vec::new();
    let mut i: usize = 0;
    while i < g.len()
        invariant
            0 <= i <= g@.len(),
            parts@.len() == i,
            forall|j: int| 0 <= j < i ==> parts@[j]@ == conflict_entry_text(g@[j]),
        decreases g@.len() - i,
    {
        let entry = &g[i];
        let mut e = String::from_str("(");
        e.append(entry.0.as_str());
        e.append(" {");
        let cs = seqs_formatter2(&entry.1, " ");
        e.append(cs.as_str());
        e.append("})");
        parts.push(e);
        i += 1;
    }
    proof {
        assert(views_of(parts@) =~= conflict_entries(g@));
    }
    parts
}

/// Renders a variable-to-conflicts mapping as association entries nested
/// inside the named form, wrapped around the rendered tail:
/// `(form ((v1 {c...}) (v2 {c...}))\n  tail)`.
pub fn conflict_graph_formatter(form: &str, conflict_graph: &ConflictGraph, tail: &Expr) -> (r:
    String)
    ensures
        r@ == conflict_graph_text(form@, conflict_graph@, expr_text(*tail)),
{
    let parts = render_conflict_entries(conflict_graph);
    let t = tail.render();
    seqs_formatter(form, &parts, " ", t.as_str())
}

impl Expr {
    /// Renders the tree into its canonical text.
    pub fn render(&self) -> (r: String)
        ensures
            r@ == expr_text(*self),
        decreases self, 1int,
    {
        match self {
            Expr::Letrec(lambdas, body) => {
                let parts = render_expr_parts(lambdas);
                let inner = seqs_formatter2(&parts, "\n");
                let mut r = String::from_str("(letrec ");
                r.append(inner.as_str());
                r.append("\n ");
                let b = body.render();
                r.append(b.as_str());
                r.append(")");
                r
            },
            Expr::Locals(uvars, tail) => {
                let t = tail.render();
                seqs_formatter("locals", uvars, " ", t.as_str())
            },
            Expr::Ulocals(unspills, tail) => {
                let t = tail.render();
                seqs_formatter("ulocals", unspills, " ", t.as_str())
            },
            Expr::Spills(spills, tail) => {
                let t = tail.render();
                seqs_formatter("spills", spills, " ", t.as_str())
            },
            Expr::Locate(bindings, tail) => {
                let mut parts: Vec<String> = Vec::new();
                let mut i: usize = 0;
                while i < bindings.len()
                    invariant
                        0 <= i <= bindings@.len(),
                        parts@.len() == i,
                        forall|j: int| 0 <= j < i ==> parts@[j]@ == locate_entry_text(bindings@[j]),
                    decreases bindings@.len() - i,
                {
                    let pair = &bindings[i];
                    let mut e = String::from_str("[");
                    e.append(pair.0.as_str());
                    e.append(" ");
                    e.append(pair.1.as_str());
                    e.append("]");
                    parts.push(e);
                    i += 1;
                }
                proof {
                    assert(views_of(parts@) =~= locate_entries(bindings@));
                }
                let inner = seqs_formatter2(&parts, " ");
                let mut r = String::from_str("(locate (");
                r.append(inner.as_str());
                r.append(")\n ");
                let b = tail.render();
                r.append(b.as_str());
                r.append(")");
                r
            },
            Expr::Lambda(label, args, body) => {
                let mut r = String::from_str("(");
                r.append(label.as_str());
                r.append(" (lambda (");
                let inner = seqs_formatter2(args, " ");
                r.append(inner.as_str());
                r.append(") ");
                let b = body.render();
                r.append(b.as_str());
                r.append("))");
                r
            },
            Expr::RegisterConflict(graph, tail) => {
                let parts = render_conflict_entries(graph);
                let t = tail.render();
                seqs_formatter("register-conflict", &parts, " ", t.as_str())
            },
            Expr::FrameConflict(graph, tail) => {
                let parts = render_conflict_entries(graph);
                let t = tail.render();
                seqs_formatter("frame-conflict", &parts, " ", t.as_str())
            },
            Expr::NewFrames(frames, tail) => {
                let mut parts: Vec<String> = Vec::new();
                let mut i: usize = 0;
                while i < frames.len()
                    invariant
                        0 <= i <= frames@.len(),
                        parts@.len() == i,
                        forall|j: int| 0 <= j < i ==> parts@[j]@ == frame_entry_text(frames@[j]),
                    decreases frames@.len() - i,
                {
                    let mut e = String::from_str("(");
                    let ns = seqs_formatter2(&frames[i], " ");
                    e.append(ns.as_str());
                    e.append(")");
                    parts.push(e);
                    i += 1;
                }
                proof {
                    assert(views_of(parts@) =~= frame_entries(frames@));
                }
                let inner = seqs_formatter2(&parts, " ");
                let mut r = String::from_str("(new-frames (");
                r.append(inner.as_str());
                r.append(") ");
                let b = tail.render();
                r.append(b.as_str());
                r.append(")");
                r
            },
            Expr::CallLive(live, tail) => {
                let t = tail.render();
                seqs_formatter("call-live", live, " ", t.as_str())
            },
            Expr::ReturnPoint(rp, e) => {
                let mut r = String::from_str("(return-point ");
                r.append(rp.as_str());
                r.append(" ");
                let v = e.render();
                r.append(v.as_str());
                r.append(")");
                r
            },
            Expr::Begin(exprs) => {
                let parts = render_expr_parts(exprs);
                let mut indented: Vec<String> = Vec::new();
                let mut i: usize = 0;
                while i < parts.len()
                    invariant
                        0 <= i <= parts@.len(),
                        indented@.len() == i,
                        views_of(parts@) == expr_texts(exprs@),
                        forall|j: int| 0 <= j < i ==> indented@[j]@ == "  "@ + expr_texts(exprs@)[j],
                    decreases parts@.len() - i,
                {
                    let mut e = String::from_str("  ");
                    e.append(parts[i].as_str());
                    proof {
                        assert(parts@[i as int]@ == views_of(parts@)[i as int]);
                    }
                    indented.push(e);
                    i += 1;
                }
                proof {
                    assert(parts@.len() == views_of(parts@).len());
                    assert(views_of(indented@) =~= expr_begin_entries(expr_texts(exprs@)));
                }
                let inner = seqs_formatter2(&indented, "\n");
                let mut r = String::from_str("(begin \n");
                r.append(inner.as_str());
                r.append(")");
                r
            },
            Expr::Prim1(op, e) => {
                let mut r = String::from_str("(");
                r.append(op.as_str());
                r.append(" ");
                let v = e.render();
                r.append(v.as_str());
                r.append(")");
                r
            },
            Expr::Prim2(op, e1, e2) => {
                let mut r = String::from_str("(");
                r.append(op.as_str());
                r.append(" ");
                let v1 = e1.render();
                r.append(v1.as_str());
                r.append(" ");
                let v2 = e2.render();
                r.append(v2.as_str());
                r.append(")");
                r
            },
            Expr::If(cond, b1, b2) => {
                let mut r = String::from_str("(if ");
                let c = cond.render();
                r.append(c.as_str());
                r.append(" ");
                let v1 = b1.render();
                r.append(v1.as_str());
                r.append(" ");
                let v2 = b2.render();
                r.append(v2.as_str());
                r.append(")");
                r
            },
            Expr::If1(cond, b) => {
                let mut r = String::from_str("(if ");
                let c = cond.render();
                r.append(c.as_str());
                r.append(" ");
                let v = b.render();
                r.append(v.as_str());
                r.append(")");
                r
            },
            Expr::SetBang(e1, e2) => {
                let mut r = String::from_str("(set! ");
                let v1 = e1.render();
                r.append(v1.as_str());
                r.append(" ");
                let v2 = e2.render();
                r.append(v2.as_str());
                r.append(")");
                r
            },
            Expr::Alloc(e) => {
                let mut r = String::from_str("(alloc ");
                let v = e.render();
                r.append(v.as_str());
                r.append(")");
                r
            },
            Expr::Mref(base, offset) => {
                let mut r = String::from_str("(mref ");
                let v1 = base.render();
                r.append(v1.as_str());
                r.append(" ");
                let v2 = offset.render();
                r.append(v2.as_str());
                r.append(")");
                r
            },
            Expr::Mset(base, offset, value) => {
                let mut r = String::from_str("(mset! ");
                let v1 = base.render();
                r.append(v1.as_str());
                r.append(" ");
                let v2 = offset.render();
                r.append(v2.as_str());
                r.append(" ");
                let v3 = value.render();
                r.append(v3.as_str());
                r.append(")");
                r
            },
            Expr::Symbol(s) => String::from_str(s.as_str()),
            Expr::Funcall(name, args) => {
                let mut r = String::from_str("(");
                let n = name.render();
                r.append(n.as_str());
                r.append(" ");
                let parts = render_expr_parts(args);
                let inner = seqs_formatter2(&parts, " ");
                r.append(inner.as_str());
                r.append(")");
                r
            },
            Expr::Int64(i) => int_text(*i),
            Expr::Bool(b) => {
                if *b {
                    String::from_str("(true)")
                } else {
                    String::from_str("(false)")
                }
            },
            Expr::Nop => String::from_str("(nop)"),
        }
    }
}

/// The parenthesis profile of some literal pieces of the serializer.
proof fn expr_lit_facts_1()
    ensures
        paren_excess("(locate ("@) == 2,
        paren_low("(locate ("@) == 0,
        paren_excess(")\n "@) == -1,
        paren_low(")\n "@) == -1,
        paren_excess(")"@) == -1,
        paren_low(")"@) == -1,
        paren_excess("("@) == 1,
        paren_low("("@) == 0,
        paren_excess(" (lambda ("@) == 2,
        paren_low(" (lambda ("@) == 0,
        paren_excess(") "@) == -1,
        paren_low(") "@) == -1,
        paren_excess("))"@) == -2,
        paren_low("))"@) == -2,
        paren_excess("(new-frames ("@) == 2,
        paren_low("(new-frames ("@) == 0,
{
    assert(paren_excess("(locate ("@) == 2 && paren_low("(locate ("@) == 0) by {
        reveal_strlit("(locate (");
        let s0 = Seq::<char>::empty();
        lemma_paren_push(s0, '(');
        let s1 = s0.push('(');
        lemma_paren_push(s1, 'l');
        let s2 = s1.push('l');
        lemma_paren_push(s2, 'o');
        let s3 = s2.push('o');
        lemma_paren_push(s3, 'c');
        let s4 = s3.push('c');
        lemma_paren_push(s4, 'a');
        let s5 = s4.push('a');
        lemma_paren_push(s5, 't');
        let s6 = s5.push('t');
        lemma_paren_push(s6, 'e');
        let s7 = s6.push('e');
        lemma_paren_push(s7, ' ');
        let s8 = s7.push(' ');
        lemma_paren_push(s8, '(');
        let s9 = s8.push('(');
        assert(paren_excess(s9) == 2);
        assert(paren_low(s9) == 0);
        assert("(locate ("@ =~= s9);
    }
    assert(paren_excess(")\n "@) == -1 && paren_low(")\n "@) == -1) by {
        reveal_strlit(")\n ");
        let s0 = Seq::<char>::empty();
        lemma_paren_push(s0, ')');
        let s1 = s0.push(')');
        lemma_paren_push(s1, '\n');
        let s2 = s1.push('\n');
        lemma_paren_push(s2, ' ');
        let s3 = s2.push(' ');
        assert(paren_excess(s3) == -1);
        assert(paren_low(s3) == -1);
        assert(")\n "@ =~= s3);
    }
    assert(paren_excess(")"@) == -1 && paren_low(")"@) == -1) by {
        reveal_strlit(")");
        let s0 = Seq::<char>::empty();
        lemma_paren_push(s0, ')');
        let s1 = s0.push(')');
        assert(paren_excess(s1) == -1);
        assert(paren_low(s1) == -1);
        assert(")"@ =~= s1);
    }
    assert(paren_excess("("@) == 1 && paren_low("("@) == 0) by {
        reveal_strlit("(");
        let s0 = Seq::<char>::empty();
        lemma_paren_push(s0, '(');
        let s1 = s0.push('(');
        assert(paren_excess(s1) == 1);
        assert(paren_low(s1) == 0);
        assert("("@ =~= s1);
    }
    assert(paren_excess(" (lambda ("@) == 2 && paren_low(" (lambda ("@) == 0) by {
        reveal_strlit(" (lambda (");
        let s0 = Seq::<char>::empty();
        lemma_paren_push(s0, ' ');
        let s1 = s0.push(' ');
        lemma_paren_push(s1, '(');
        let s2 = s1.push('(');
        lemma_paren_push(s2, 'l');
        let s3 = s2.push('l');
        lemma_paren_push(s3, 'a');
        let s4 = s3.push('a');
        lemma_paren_push(s4, 'm');
        let s5 = s4.push('m');
        lemma_paren_push(s5, 'b');
        let s6 = s5.push('b');
        lemma_paren_push(s6, 'd');
        let s7 = s6.push('d');
        lemma_paren_push(s7, 'a');
        let s8 = s7.push('a');
        lemma_paren_push(s8, ' ');
        let s9 = s8.push(' ');
        lemma_paren_push(s9, '(');
        let s10 = s9.push('(');
        assert(paren_excess(s10) == 2);
        assert(paren_low(s10) == 0);
        assert(" (lambda ("@ =~= s10);
    }
    assert(paren_excess(") "@) == -1 && paren_low(") "@) == -1) by {
        reveal_strlit(") ");
        let s0 = Seq::<char>::empty();
        lemma_paren_push(s0, ')');
        let s1 = s0.push(')');
        lemma_paren_push(s1, ' ');
        let s2 = s1.push(' ');
        assert(paren_excess(s2) == -1);
        assert(paren_low(s2) == -1);
        assert(") "@ =~= s2);
    }
    assert(paren_excess("))"@) == -2 && paren_low("))"@) == -2) by {
        reveal_strlit("))");
        let s0 = Seq::<char>::empty();
        lemma_paren_push(s0, ')');
        let s1 = s0.push(')');
        lemma_paren_push(s1, ')');
        let s2 = s1.push(')');
        assert(paren_excess(s2) == -2);
        assert(paren_low(s2) == -2);
        assert("))"@ =~= s2);
    }
    assert(paren_excess("(new-frames ("@) == 2 && paren_low("(new-frames ("@) == 0) by {
        reveal_strlit("(new-frames (");
        let s0 = Seq::<char>::empty();
        lemma_paren_push(s0, '(');
        let s1 = s0.push('(');
        lemma_paren_push(s1, 'n');
        let s2 = s1.push('n');
        lemma_paren_push(s2, 'e');
        let s3 = s2.push('e');
        lemma_paren_push(s3, 'w');
        let s4 = s3.push('w');
        lemma_paren_push(s4, '-');
        let s5 = s4.push('-');
        lemma_paren_push(s5, 'f');
        let s6 = s5.push('f');
        lemma_paren_push(s6, 'r');
        let s7 = s6.push('r');
        lemma_paren_push(s7, 'a');
        let s8 = s7.push('a');
        lemma_paren_push(s8, 'm');
        let s9 = s8.push('m');
        lemma_paren_push(s9, 'e');
        let s10 = s9.push('e');
        lemma_paren_push(s10, 's');
        let s11 = s10.push('s');
        lemma_paren_push(s11, ' ');
        let s12 = s11.push(' ');
        lemma_paren_push(s12, '(');
        let s13 = s12.push('(');
        assert(paren_excess(s13) == 2);
        assert(paren_low(s13) == 0);
        assert("(new-frames ("@ =~= s13);
    }
}

/// The parenthesis profile of some literal pieces of the serializer.
proof fn expr_lit_facts_2()
    ensures
        paren_excess("(return-point "@) == 1,
        paren_low("(return-point "@) == 0,
        paren_excess("(begin \n"@) == 1,
        paren_low("(begin \n"@) == 0,
        paren_excess("(if "@) == 1,
        paren_low("(if "@) == 0,
        paren_excess("(set! "@) == 1,
        paren_low("(set! "@) == 0,
        paren_excess("(alloc "@) == 1,
        paren_low("(alloc "@) == 0,
        paren_excess("(mref "@) == 1,
        paren_low("(mref "@) == 0,
        paren_excess("(mset! "@) == 1,
        paren_low("(mset! "@) == 0,
        paren_excess("(true)"@) == 0,
        paren_low("(true)"@) == 0,
{
    assert(paren_excess("(return-point "@) == 1 && paren_low("(return-point "@) == 0) by {
        reveal_strlit("(return-point ");
        let s0 = Seq::<char>::empty();
        lemma_paren_push(s0, '(');
        let s1 = s0.push('(');
        lemma_paren_push(s1, 'r');
        let s2 = s1.push('r');
        lemma_paren_push(s2, 'e');
        let s3 = s2.push('e');
        lemma_paren_push(s3, 't');
        let s4 = s3.push('t');
        lemma_paren_push(s4, 'u');
        let s5 = s4.push('u');
        lemma_paren_push(s5, 'r');
        let s6 = s5.push('r');
        lemma_paren_push(s6, 'n');
        let s7 = s6.push('n');
        lemma_paren_push(s7, '-');
        let s8 = s7.push('-');
        lemma_paren_push(s8, 'p');
        let s9 = s8.push('p');
        lemma_paren_push(s9, 'o');
        let s10 = s9.push('o');
        lemma_paren_push(s10, 'i');
        let s11 = s10.push('i');
        lemma_paren_push(s11, 'n');
        let s12 = s11.push('n');
        lemma_paren_push(s12, 't');
        let s13 = s12.push('t');
        lemma_paren_push(s13, ' ');
        let s14 = s13.push(' ');
        assert(paren_excess(s14) == 1);
        assert(paren_low(s14) == 0);
        assert("(return-point "@ =~= s14);
    }
    assert(paren_excess("(begin \n"@) == 1 && paren_low("(begin \n"@) == 0) by {
        reveal_strlit("(begin \n");
        let s0 = Seq::<char>::empty();
        lemma_paren_push(s0, '(');
        let s1 = s0.push('(');
        lemma_paren_push(s1, 'b');
        let s2 = s1.push('b');
        lemma_paren_push(s2, 'e');
        let s3 = s2.push('e');
        lemma_paren_push(s3, 'g');
        let s4 = s3.push('g');
        lemma_paren_push(s4, 'i');
        let s5 = s4.push('i');
        lemma_paren_push(s5, 'n');
        let s6 = s5.push('n');
        lemma_paren_push(s6, ' ');
        let s7 = s6.push(' ');
        lemma_paren_push(s7, '\n');
        let s8 = s7.push('\n');
        assert(paren_excess(s8) == 1);
        assert(paren_low(s8) == 0);
        assert("(begin \n"@ =~= s8);
    }
    assert(paren_excess("(if "@) == 1 && paren_low("(if "@) == 0) by {
        reveal_strlit("(if ");
        let s0 = Seq::<char>::empty();
        lemma_paren_push(s0, '(');
        let s1 = s0.push('(');
        lemma_paren_push(s1, 'i');
        let s2 = s1.push('i');
        lemma_paren_push(s2, 'f');
        let s3 = s2.push('f');
        lemma_paren_push(s3, ' ');
        let s4 = s3.push(' ');
        assert(paren_excess(s4) == 1);
        assert(paren_low(s4) == 0);
        assert("(if "@ =~= s4);
    }
    assert(paren_excess("(set! "@) == 1 && paren_low("(set! "@) == 0) by {
        reveal_strlit("(set! ");
        let s0 = Seq::<char>::empty();
        lemma_paren_push(s0, '(');
        let s1 = s0.push('(');
        lemma_paren_push(s1, 's');
        let s2 = s1.push('s');
        lemma_paren_push(s2, 'e');
        let s3 = s2.push('e');
        lemma_paren_push(s3, 't');
        let s4 = s3.push('t');
        lemma_paren_push(s4, '!');
        let s5 = s4.push('!');
        lemma_paren_push(s5, ' ');
        let s6 = s5.push(' ');
        assert(paren_excess(s6) == 1);
        assert(paren_low(s6) == 0);
        assert("(set! "@ =~= s6);
    }
    assert(paren_excess("(alloc "@) == 1 && paren_low("(alloc "@) == 0) by {
        reveal_strlit("(alloc ");
        let s0 = Seq::<char>::empty();
        lemma_paren_push(s0, '(');
        let s1 = s0.push('(');
        lemma_paren_push(s1, 'a');
        let s2 = s1.push('a');
        lemma_paren_push(s2, 'l');
        let s3 = s2.push('l');
        lemma_paren_push(s3, 'l');
        let s4 = s3.push('l');
        lemma_paren_push(s4, 'o');
        let s5 = s4.push('o');
        lemma_paren_push(s5, 'c');
        let s6 = s5.push('c');
        lemma_paren_push(s6, ' ');
        let s7 = s6.push(' ');
        assert(paren_excess(s7) == 1);
        assert(paren_low(s7) == 0);
        assert("(alloc "@ =~= s7);
    }
    assert(paren_excess("(mref "@) == 1 && paren_low("(mref "@) == 0) by {
        reveal_strlit("(mref ");
        let s0 = Seq::<char>::empty();
        lemma_paren_push(s0, '(');
        let s1 = s0.push('(');
        lemma_paren_push(s1, 'm');
        let s2 = s1.push('m');
        lemma_paren_push(s2, 'r');
        let s3 = s2.push('r');
        lemma_paren_push(s3, 'e');
        let s4 = s3.push('e');
        lemma_paren_push(s4, 'f');
        let s5 = s4.push('f');
        lemma_paren_push(s5, ' ');
        let s6 = s5.push(' ');
        assert(paren_excess(s6) == 1);
        assert(paren_low(s6) == 0);
        assert("(mref "@ =~= s6);
    }
    assert(paren_excess("(mset! "@) == 1 && paren_low("(mset! "@) == 0) by {
        reveal_strlit("(mset! ");
        let s0 = Seq::<char>::empty();
        lemma_paren_push(s0, '(');
        let s1 = s0.push('(');
        lemma_paren_push(s1, 'm');
        let s2 = s1.push('m');
        lemma_paren_push(s2, 's');
        let s3 = s2.push('s');
        lemma_paren_push(s3, 'e');
        let s4 = s3.push('e');
        lemma_paren_push(s4, 't');
        let s5 = s4.push('t');
        lemma_paren_push(s5, '!');
        let s6 = s5.push('!');
        lemma_paren_push(s6, ' ');
        let s7 = s6.push(' ');
        assert(paren_excess(s7) == 1);
        assert(paren_low(s7) == 0);
        assert("(mset! "@ =~= s7);
    }
    assert(paren_excess("(true)"@) == 0 && paren_low("(true)"@) == 0) by {
        reveal_strlit("(true)");
        let s0 = Seq::<char>::empty();
        lemma_paren_push(s0, '(');
        let s1 = s0.push('(');
        lemma_paren_push(s1, 't');
        let s2 = s1.push('t');
        lemma_paren_push(s2, 'r');
        let s3 = s2.push('r');
        lemma_paren_push(s3, 'u');
        let s4 = s3.push('u');
        lemma_paren_push(s4, 'e');
        let s5 = s4.push('e');
        lemma_paren_push(s5, ')');
        let s6 = s5.push(')');
        assert(paren_excess(s6) == 0);
        assert(paren_low(s6) == 0);
        assert("(true)"@ =~= s6);
    }
}

/// The parenthesis profile of some literal pieces of the serializer.
proof fn expr_lit_facts_3()
    ensures
        paren_excess("(false)"@) == 0,
        paren_low("(false)"@) == 0,
        paren_excess("(nop)"@) == 0,
        paren_low("(nop)"@) == 0,
        paren_excess(" "@) == 0,
        paren_low(" "@) == 0,
        paren_excess("\n"@) == 0,
        paren_low("\n"@) == 0,
        paren_excess("  "@) == 0,
        paren_low("  "@) == 0,
        paren_excess(" {"@) == 0,
        paren_low(" {"@) == 0,
        paren_excess("})"@) == -1,
        paren_low("})"@) == -1,
{
    assert(paren_excess("(false)"@) == 0 && paren_low("(false)"@) == 0) by {
        reveal_strlit("(false)");
        let s0 = Seq::<char>::empty();
        lemma_paren_push(s0, '(');
        let s1 = s0.push('(');
        lemma_paren_push(s1, 'f');
        let s2 = s1.push('f');
        lemma_paren_push(s2, 'a');
        let s3 = s2.push('a');
        lemma_paren_push(s3, 'l');
        let s4 = s3.push('l');
        lemma_paren_push(s4, 's');
        let s5 = s4.push('s');
        lemma_paren_push(s5, 'e');
        let s6 = s5.push('e');
        lemma_paren_push(s6, ')');
        let s7 = s6.push(')');
        assert(paren_excess(s7) == 0);
        assert(paren_low(s7) == 0);
        assert("(false)"@ =~= s7);
    }
    assert(paren_excess("(nop)"@) == 0 && paren_low("(nop)"@) == 0) by {
        reveal_strlit("(nop)");
        let s0 = Seq::<char>::empty();
        lemma_paren_push(s0, '(');
        let s1 = s0.push('(');
        lemma_paren_push(s1, 'n');
        let s2 = s1.push('n');
        lemma_paren_push(s2, 'o');
        let s3 = s2.push('o');
        lemma_paren_push(s3, 'p');
        let s4 = s3.push('p');
        lemma_paren_push(s4, ')');
        let s5 = s4.push(')');
        assert(paren_excess(s5) == 0);
        assert(paren_low(s5) == 0);
        assert("(nop)"@ =~= s5);
    }
    assert(paren_excess(" "@) == 0 && paren_low(" "@) == 0) by {
        reveal_strlit(" ");
        let s0 = Seq::<char>::empty();
        lemma_paren_push(s0, ' ');
        let s1 = s0.push(' ');
        assert(paren_excess(s1) == 0);
        assert(paren_low(s1) == 0);
        assert(" "@ =~= s1);
    }
    assert(paren_excess("\n"@) == 0 && paren_low("\n"@) == 0) by {
        reveal_strlit("\n");
        let s0 = Seq::<char>::empty();
        lemma_paren_push(s0, '\n');
        let s1 = s0.push('\n');
        assert(paren_excess(s1) == 0);
        assert(paren_low(s1) == 0);
        assert("\n"@ =~= s1);
    }
    assert(paren_excess("  "@) == 0 && paren_low("  "@) == 0) by {
        reveal_strlit("  ");
        let s0 = Seq::<char>::empty();
        lemma_paren_push(s0, ' ');
        let s1 = s0.push(' ');
        lemma_paren_push(s1, ' ');
        let s2 = s1.push(' ');
        assert(paren_excess(s2) == 0);
        assert(paren_low(s2) == 0);
        assert("  "@ =~= s2);
    }
    assert(paren_excess(" {"@) == 0 && paren_low(" {"@) == 0) by {
        reveal_strlit(" {");
        let s0 = Seq::<char>::empty();
        lemma_paren_push(s0, ' ');
        let s1 = s0.push(' ');
        lemma_paren_push(s1, '{');
        let s2 = s1.push('{');
        assert(paren_excess(s2) == 0);
        assert(paren_low(s2) == 0);
        assert(" {"@ =~= s2);
    }
    assert(paren_excess("})"@) == -1 && paren_low("})"@) == -1) by {
        reveal_strlit("})");
        let s0 = Seq::<char>::empty();
        lemma_paren_push(s0, '}');
        let s1 = s0.push('}');
        lemma_paren_push(s1, ')');
        let s2 = s1.push(')');
        assert(paren_excess(s2) == -1);
        assert(paren_low(s2) == -1);
        assert("})"@ =~= s2);
    }
}

/// The parenthesis profile of some literal pieces of the serializer.
proof fn expr_lit_facts_4()
    ensures
        paren_excess("(letrec "@) == 1,
        paren_low("(letrec "@) == 0,
        paren_excess("\n "@) == 0,
        paren_low("\n "@) == 0,
        paren_excess("["@) == 0,
        paren_low("["@) == 0,
        paren_excess("]"@) == 0,
        paren_low("]"@) == 0,
{
    assert(paren_excess("(letrec "@) == 1 && paren_low("(letrec "@) == 0) by {
        reveal_strlit("(letrec ");
        let s0 = Seq::<char>::empty();
        lemma_paren_push(s0, '(');
        let s1 = s0.push('(');
        lemma_paren_push(s1, 'l');
        let s2 = s1.push('l');
        lemma_paren_push(s2, 'e');
        let s3 = s2.push('e');
        lemma_paren_push(s3, 't');
        let s4 = s3.push('t');
        lemma_paren_push(s4, 'r');
        let s5 = s4.push('r');
        lemma_paren_push(s5, 'e');
        let s6 = s5.push('e');
        lemma_paren_push(s6, 'c');
        let s7 = s6.push('c');
        lemma_paren_push(s7, ' ');
        let s8 = s7.push(' ');
        assert(paren_excess(s8) == 1);
        assert(paren_low(s8) == 0);
        assert("(letrec "@ =~= s8);
    }
    assert(paren_excess("\n "@) == 0 && paren_low("\n "@) == 0) by {
        reveal_strlit("\n ");
        let s0 = Seq::<char>::empty();
        lemma_paren_push(s0, '\n');
        let s1 = s0.push('\n');
        lemma_paren_push(s1, ' ');
        let s2 = s1.push(' ');
        assert(paren_excess(s2) == 0);
        assert(paren_low(s2) == 0);
        assert("\n "@ =~= s2);
    }
    assert(paren_excess("["@) == 0 && paren_low("["@) == 0) by {
        reveal_strlit("[");
        let s0 = Seq::<char>::empty();
        lemma_paren_push(s0, '[');
        let s1 = s0.push('[');
        assert(paren_excess(s1) == 0);
        assert(paren_low(s1) == 0);
        assert("["@ =~= s1);
    }
    assert(paren_excess("]"@) == 0 && paren_low("]"@) == 0) by {
        reveal_strlit("]");
        let s0 = Seq::<char>::empty();
        lemma_paren_push(s0, ']');
        let s1 = s0.push(']');
        assert(paren_excess(s1) == 0);
        assert(paren_low(s1) == 0);
        assert("]"@ =~= s1);
    }
}

/// The annotation form names hold no parenthesis.
proof fn expr_lit_facts_names()
    ensures
        paren_free("locals"@),
        paren_free("ulocals"@),
        paren_free("spills"@),
        paren_free("register-conflict"@),
        paren_free("frame-conflict"@),
        paren_free("call-live"@),
{
    assert(paren_free("locals"@)) by {
        reveal_strlit("locals");
    }
    assert(paren_free("ulocals"@)) by {
        reveal_strlit("ulocals");
    }
    assert(paren_free("spills"@)) by {
        reveal_strlit("spills");
    }
    assert(paren_free("register-conflict"@)) by {
        reveal_strlit("register-conflict");
    }
    assert(paren_free("frame-conflict"@)) by {
        reveal_strlit("frame-conflict");
    }
    assert(paren_free("call-live"@)) by {
        reveal_strlit("call-live");
    }
}

/// The parenthesis profile of each literal piece of the serializer.
proof fn expr_lit_facts()
    ensures
        paren_excess("(locate ("@) == 2,
        paren_low("(locate ("@) == 0,
        paren_excess(")\n "@) == -1,
        paren_low(")\n "@) == -1,
        paren_excess(")"@) == -1,
        paren_low(")"@) == -1,
        paren_excess("("@) == 1,
        paren_low("("@) == 0,
        paren_excess(" (lambda ("@) == 2,
        paren_low(" (lambda ("@) == 0,
        paren_excess(") "@) == -1,
        paren_low(") "@) == -1,
        paren_excess("))"@) == -2,
        paren_low("))"@) == -2,
        paren_excess("(new-frames ("@) == 2,
        paren_low("(new-frames ("@) == 0,
        paren_excess("(return-point "@) == 1,
        paren_low("(return-point "@) == 0,
        paren_excess("(begin \n"@) == 1,
        paren_low("(begin \n"@) == 0,
        paren_excess("(if "@) == 1,
        paren_low("(if "@) == 0,
        paren_excess("(set! "@) == 1,
        paren_low("(set! "@) == 0,
        paren_excess("(alloc "@) == 1,
        paren_low("(alloc "@) == 0,
        paren_excess("(mref "@) == 1,
        paren_low("(mref "@) == 0,
        paren_excess("(mset! "@) == 1,
        paren_low("(mset! "@) == 0,
        paren_excess("(true)"@) == 0,
        paren_low("(true)"@) == 0,
        paren_excess("(false)"@) == 0,
        paren_low("(false)"@) == 0,
        paren_excess("(nop)"@) == 0,
        paren_low("(nop)"@) == 0,
        paren_excess(" "@) == 0,
        paren_low(" "@) == 0,
        paren_excess("\n"@) == 0,
        paren_low("\n"@) == 0,
        paren_excess("  "@) == 0,
        paren_low("  "@) == 0,
        paren_excess(" {"@) == 0,
        paren_low(" {"@) == 0,
        paren_excess("})"@) == -1,
        paren_low("})"@) == -1,
        paren_excess("(letrec "@) == 1,
        paren_low("(letrec "@) == 0,
        paren_excess("\n "@) == 0,
        paren_low("\n "@) == 0,
        paren_excess("["@) == 0,
        paren_low("["@) == 0,
        paren_excess("]"@) == 0,
        paren_low("]"@) == 0,
        paren_free("locals"@),
        paren_free("ulocals"@),
        paren_free("spills"@),
        paren_free("register-conflict"@),
        paren_free("frame-conflict"@),
        paren_free("call-live"@),
{
    expr_lit_facts_1();
    expr_lit_facts_2();
    expr_lit_facts_3();
    expr_lit_facts_4();
    expr_lit_facts_names();
}

// ---------------------------------------------------------------------------
// Balanced parentheses
// ---------------------------------------------------------------------------

/// No identifier embedded in the list of trees holds a parenthesis.
pub open spec fn expr_all_clean(ts: Seq<Expr>) -> bool
    decreases ts, 0int,
{
    forall|j: int| 0 <= j < ts.len() ==> expr_clean(#[trigger] ts[j])
}

/// No variable name of the conflict graph, on either side, holds a
/// parenthesis.
pub open spec fn conflict_graph_clean(g: Seq<(String, Vec<String>)>) -> bool {
    forall|j: int|
        0 <= j < g.len() ==> paren_free((#[trigger] g[j]).0@) && names_paren_free(g[j].1@)
}

/// No name or location of the `locate` bindings holds a parenthesis.
pub open spec fn locate_bindings_clean(bs: Seq<(String, String)>) -> bool {
    forall|j: int|
        0 <= j < bs.len() ==> paren_free((#[trigger] bs[j]).0@) && paren_free(bs[j].1@)
}

/// No variable name of any frame layout holds a parenthesis.
pub open spec fn frames_clean(fs: Seq<Vec<String>>) -> bool {
    forall|j: int| 0 <= j < fs.len() ==> names_paren_free((#[trigger] fs[j])@)
}

/// No identifier embedded in the tree (symbol, primitive name, label,
/// variable name or location) holds a parenthesis.
pub open spec fn expr_clean(t: Expr) -> bool
    decreases t, 1int,
{
    match t {
        Expr::Letrec(lambdas, body) => expr_all_clean(lambdas@) && expr_clean(*body),
        Expr::Locals(uvars, tail) => names_paren_free(uvars@) && expr_clean(*tail),
        Expr::Ulocals(unspills, tail) => names_paren_free(unspills@) && expr_clean(*tail),
        Expr::Spills(spills, tail) => names_paren_free(spills@) && expr_clean(*tail),
        Expr::Locate(bindings, tail) => locate_bindings_clean(bindings@) && expr_clean(*tail),
        Expr::Lambda(label, args, body) => paren_free(label@) && names_paren_free(args@)
            && expr_clean(*body),
        Expr::RegisterConflict(graph, tail) => conflict_graph_clean(graph@) && expr_clean(*tail),
        Expr::FrameConflict(graph, tail) => conflict_graph_clean(graph@) && expr_clean(*tail),
        Expr::NewFrames(frames, tail) => frames_clean(frames@) && expr_clean(*tail),
        Expr::CallLive(live, tail) => names_paren_free(live@) && expr_clean(*tail),
        Expr::ReturnPoint(rp, e) => paren_free(rp@) && expr_clean(*e),
        Expr::Begin(exprs) => expr_all_clean(exprs@),
        Expr::Prim1(op, e) => paren_free(op@) && expr_clean(*e),
        Expr::Prim2(op, e1, e2) => paren_free(op@) && expr_clean(*e1) && expr_clean(*e2),
        Expr::If(cond, b1, b2) => expr_clean(*cond) && expr_clean(*b1) && expr_clean(*b2),
        Expr::If1(cond, b) => expr_clean(*cond) && expr_clean(*b),
        Expr::SetBang(e1, e2) => expr_clean(*e1) && expr_clean(*e2),
        Expr::Alloc(e) => expr_clean(*e),
        Expr::Mref(base, offset) => expr_clean(*base) && expr_clean(*offset),
        Expr::Mset(base, offset, value) => expr_clean(*base) && expr_clean(*offset) && expr_clean(
            *value,
        ),
        Expr::Symbol(s) => paren_free(s@),
        Expr::Funcall(name, args) => expr_clean(*name) && expr_all_clean(args@),
        Expr::Int64(_) => true,
        Expr::Bool(_) => true,
        Expr::Nop => true,
    }
}

/// Every rendered tree of a clean list is balanced.
proof fn lemma_expr_texts_balanced(ts: Seq<Expr>)
    requires
        expr_all_clean(ts),
    ensures
        expr_texts(ts).len() == ts.len(),
        forall|j: int| 0 <= j < ts.len() ==> paren_balanced(#[trigger] expr_texts(ts)[j]),
    decreases ts, 0int,
{
    lemma_expr_texts(ts);
    assert forall|j: int| 0 <= j < ts.len() implies paren_balanced(
        #[trigger] expr_texts(ts)[j],
    ) by {
        lemma_expr_text_balanced(ts[j]);
    }
}

/// Every rendered conflict-graph entry of a clean graph is balanced.
proof fn lemma_conflict_entries_balanced(g: Seq<(String, Vec<String>)>)
    requires
        conflict_graph_clean(g),
    ensures
        conflict_entries(g).len() == g.len(),
        forall|j: int| 0 <= j < g.len() ==> paren_balanced(#[trigger] conflict_entries(g)[j]),
{
    expr_lit_facts();
    assert forall|j: int| 0 <= j < g.len() implies paren_balanced(
        #[trigger] conflict_entries(g)[j],
    ) by {
        let p = g[j];
        assert(conflict_entries(g)[j] == conflict_entry_text(p));
        lemma_paren_free_balanced(p.0@);
        lemma_names_balanced(p.1@);
        let fvs = join_texts(views_of(p.1@), " "@);
        lemma_join_balanced(views_of(p.1@), " "@);
        lemma_paren_concat("("@, p.0@);
        lemma_paren_concat("("@ + p.0@, " {"@);
        lemma_paren_concat("("@ + p.0@ + " {"@, fvs);
        lemma_paren_concat("("@ + p.0@ + " {"@ + fvs, "})"@);
    }
}

/// Every rendered `[name location]` entry of a clean binding list is
/// balanced.
proof fn lemma_locate_entries_balanced(bs: Seq<(String, String)>)
    requires
        locate_bindings_clean(bs),
    ensures
        locate_entries(bs).len() == bs.len(),
        forall|j: int| 0 <= j < bs.len() ==> paren_balanced(#[trigger] locate_entries(bs)[j]),
{
    expr_lit_facts();
    assert forall|j: int| 0 <= j < bs.len() implies paren_balanced(
        #[trigger] locate_entries(bs)[j],
    ) by {
        let p = bs[j];
        assert(locate_entries(bs)[j] == locate_entry_text(p));
        lemma_paren_free_balanced(p.0@);
        lemma_paren_free_balanced(p.1@);
        lemma_paren_concat("["@, p.0@);
        lemma_paren_concat("["@ + p.0@, " "@);
        lemma_paren_concat("["@ + p.0@ + " "@, p.1@);
        lemma_paren_concat("["@ + p.0@ + " "@ + p.1@, "]"@);
    }
}

/// Every rendered frame layout of a clean frame set is balanced.
proof fn lemma_frame_entries_balanced(fs: Seq<Vec<String>>)
    requires
        frames_clean(fs),
    ensures
        frame_entries(fs).len() == fs.len(),
        forall|j: int| 0 <= j < fs.len() ==> paren_balanced(#[trigger] frame_entries(fs)[j]),
{
    expr_lit_facts();
    assert forall|j: int| 0 <= j < fs.len() implies paren_balanced(
        #[trigger] frame_entries(fs)[j],
    ) by {
        let ns = fs[j];
        assert(frame_entries(fs)[j] == frame_entry_text(ns));
        lemma_names_balanced(ns@);
        let vs = join_texts(views_of(ns@), " "@);
        lemma_join_balanced(views_of(ns@), " "@);
        lemma_paren_concat("("@, vs);
        lemma_paren_concat("("@ + vs, ")"@);
    }
}

/// Every indented `begin` entry over balanced child texts is balanced.
proof fn lemma_expr_begin_entries_balanced(rs: Seq<Seq<char>>)
    requires
        forall|j: int| 0 <= j < rs.len() ==> paren_balanced(#[trigger] rs[j]),
    ensures
        expr_begin_entries(rs).len() == rs.len(),
        forall|j: int| 0 <= j < rs.len() ==> paren_balanced(#[trigger] expr_begin_entries(rs)[j]),
{
    expr_lit_facts();
    assert forall|j: int| 0 <= j < rs.len() implies paren_balanced(
        #[trigger] expr_begin_entries(rs)[j],
    ) by {
        assert(expr_begin_entries(rs)[j] == "  "@ + rs[j]);
        lemma_paren_concat("  "@, rs[j]);
    }
}

/// For any tree whose embedded identifiers hold no parenthesis, the
/// rendered text has balanced parentheses: as many close as open, and no
/// prefix closes more than it has opened.
pub proof fn lemma_expr_text_balanced(t: Expr)
    requires
        expr_clean(t),
    ensures
        paren_balanced(expr_text(t)),
    decreases t, 1int,
{
    expr_lit_facts();
    match t {
        Expr::Letrec(lambdas, body) => {
            lemma_expr_texts_balanced(lambdas@);
            let j1 = join_texts(expr_texts(lambdas@), "\n"@);
            lemma_join_balanced(expr_texts(lambdas@), "\n"@);
            lemma_expr_text_balanced(*body);
            lemma_paren_concat("(letrec "@, j1);
            lemma_paren_concat("(letrec "@ + j1, "\n "@);
            lemma_paren_concat("(letrec "@ + j1 + "\n "@, expr_text(*body));
            lemma_paren_concat("(letrec "@ + j1 + "\n "@ + expr_text(*body), ")"@);
        },
        Expr::Locals(uvars, tail) => {
            lemma_names_balanced(uvars@);
            lemma_join_balanced(views_of(uvars@), " "@);
            lemma_expr_text_balanced(*tail);
            lemma_wrap_form_balanced(
                "locals"@,
                join_texts(views_of(uvars@), " "@),
                expr_text(*tail),
            );
        },
        Expr::Ulocals(unspills, tail) => {
            lemma_names_balanced(unspills@);
            lemma_join_balanced(views_of(unspills@), " "@);
            lemma_expr_text_balanced(*tail);
            lemma_wrap_form_balanced(
                "ulocals"@,
                join_texts(views_of(unspills@), " "@),
                expr_text(*tail),
            );
        },
        Expr::Spills(spills, tail) => {
            lemma_names_balanced(spills@);
            lemma_join_balanced(views_of(spills@), " "@);
            lemma_expr_text_balanced(*tail);
            lemma_wrap_form_balanced(
                "spills"@,
                join_texts(views_of(spills@), " "@),
                expr_text(*tail),
            );
        },
        Expr::Locate(bindings, tail) => {
            lemma_locate_entries_balanced(bindings@);
            let j1 = join_texts(locate_entries(bindings@), " "@);
            lemma_join_balanced(locate_entries(bindings@), " "@);
            lemma_expr_text_balanced(*tail);
            lemma_paren_concat("(locate ("@, j1);
            lemma_paren_concat("(locate ("@ + j1, ")\n "@);
            lemma_paren_concat("(locate ("@ + j1 + ")\n "@, expr_text(*tail));
            lemma_paren_concat("(locate ("@ + j1 + ")\n "@ + expr_text(*tail), ")"@);
        },
        Expr::Lambda(label, args, body) => {
            lemma_paren_free_balanced(label@);
            lemma_names_balanced(args@);
            let j1 = join_texts(views_of(args@), " "@);
            lemma_join_balanced(views_of(args@), " "@);
            lemma_expr_text_balanced(*body);
            lemma_paren_concat("("@, label@);
            lemma_paren_concat("("@ + label@, " (lambda ("@);
            lemma_paren_concat("("@ + label@ + " (lambda ("@, j1);
            lemma_paren_concat("("@ + label@ + " (lambda ("@ + j1, ") "@);
            lemma_paren_concat("("@ + label@ + " (lambda ("@ + j1 + ") "@, expr_text(*body));
            lemma_paren_concat(
                "("@ + label@ + " (lambda ("@ + j1 + ") "@ + expr_text(*body),
                "))"@,
            );
        },
        Expr::RegisterConflict(graph, tail) => {
            lemma_conflict_entries_balanced(graph@);
            lemma_join_balanced(conflict_entries(graph@), " "@);
            lemma_expr_text_balanced(*tail);
            lemma_wrap_form_balanced(
                "register-conflict"@,
                join_texts(conflict_entries(graph@), " "@),
                expr_text(*tail),
            );
        },
        Expr::FrameConflict(graph, tail) => {
            lemma_conflict_entries_balanced(graph@);
            lemma_join_balanced(conflict_entries(graph@), " "@);
            lemma_expr_text_balanced(*tail);
            lemma_wrap_form_balanced(
                "frame-conflict"@,
                join_texts(conflict_entries(graph@), " "@),
                expr_text(*tail),
            );
        },
        Expr::NewFrames(frames, tail) => {
            lemma_frame_entries_balanced(frames@);
            let j1 = join_texts(frame_entries(frames@), " "@);
            lemma_join_balanced(frame_entries(frames@), " "@);
            lemma_expr_text_balanced(*tail);
            lemma_paren_concat("(new-frames ("@, j1);
            lemma_paren_concat("(new-frames ("@ + j1, ") "@);
            lemma_paren_concat("(new-frames ("@ + j1 + ") "@, expr_text(*tail));
            lemma_paren_concat("(new-frames ("@ + j1 + ") "@ + expr_text(*tail), ")"@);
        },
        Expr::CallLive(live, tail) => {
            lemma_names_balanced(live@);
            lemma_join_balanced(views_of(live@), " "@);
            lemma_expr_text_balanced(*tail);
            lemma_wrap_form_balanced(
                "call-live"@,
                join_texts(views_of(live@), " "@),
                expr_text(*tail),
            );
        },
        Expr::ReturnPoint(rp, e) => {
            lemma_paren_free_balanced(rp@);
            lemma_expr_text_balanced(*e);
            lemma_paren_concat("(return-point "@, rp@);
            lemma_paren_concat("(return-point "@ + rp@, " "@);
            lemma_paren_concat("(return-point "@ + rp@ + " "@, expr_text(*e));
            lemma_paren_concat("(return-point "@ + rp@ + " "@ + expr_text(*e), ")"@);
        },
        Expr::Begin(exprs) => {
            lemma_expr_texts_balanced(exprs@);
            lemma_expr_begin_entries_balanced(expr_texts(exprs@));
            let j1 = join_texts(expr_begin_entries(expr_texts(exprs@)), "\n"@);
            lemma_join_balanced(expr_begin_entries(expr_texts(exprs@)), "\n"@);
            lemma_paren_concat("(begin \n"@, j1);
            lemma_paren_concat("(begin \n"@ + j1, ")"@);
        },
        Expr::Prim1(op, e) => {
            lemma_paren_free_balanced(op@);
            lemma_expr_text_balanced(*e);
            lemma_paren_concat("("@, op@);
            lemma_paren_concat("("@ + op@, " "@);
            lemma_paren_concat("("@ + op@ + " "@, expr_text(*e));
            lemma_paren_concat("("@ + op@ + " "@ + expr_text(*e), ")"@);
        },
        Expr::Prim2(op, e1, e2) => {
            lemma_paren_free_balanced(op@);
            lemma_expr_text_balanced(*e1);
            lemma_expr_text_balanced(*e2);
            let x1 = expr_text(*e1);
            let x2 = expr_text(*e2);
            lemma_paren_concat("("@, op@);
            lemma_paren_concat("("@ + op@, " "@);
            lemma_paren_concat("("@ + op@ + " "@, x1);
            lemma_paren_concat("("@ + op@ + " "@ + x1, " "@);
            lemma_paren_concat("("@ + op@ + " "@ + x1 + " "@, x2);
            lemma_paren_concat("("@ + op@ + " "@ + x1 + " "@ + x2, ")"@);
        },
        Expr::If(cond, b1, b2) => {
            lemma_expr_text_balanced(*cond);
            lemma_expr_text_balanced(*b1);
            lemma_expr_text_balanced(*b2);
            let x1 = expr_text(*cond);
            let x2 = expr_text(*b1);
            let x3 = expr_text(*b2);
            lemma_paren_concat("(if "@, x1);
            lemma_paren_concat("(if "@ + x1, " "@);
            lemma_paren_concat("(if "@ + x1 + " "@, x2);
            lemma_paren_concat("(if "@ + x1 + " "@ + x2, " "@);
            lemma_paren_concat("(if "@ + x1 + " "@ + x2 + " "@, x3);
            lemma_paren_concat("(if "@ + x1 + " "@ + x2 + " "@ + x3, ")"@);
        },
        Expr::If1(cond, b) => {
            lemma_expr_text_balanced(*cond);
            lemma_expr_text_balanced(*b);
            let x1 = expr_text(*cond);
            let x2 = expr_text(*b);
            lemma_paren_concat("(if "@, x1);
            lemma_paren_concat("(if "@ + x1, " "@);
            lemma_paren_concat("(if "@ + x1 + " "@, x2);
            lemma_paren_concat("(if "@ + x1 + " "@ + x2, ")"@);
        },
        Expr::SetBang(e1, e2) => {
            lemma_expr_text_balanced(*e1);
            lemma_expr_text_balanced(*e2);
            let x1 = expr_text(*e1);
            let x2 = expr_text(*e2);
            lemma_paren_concat("(set! "@, x1);
            lemma_paren_concat("(set! "@ + x1, " "@);
            lemma_paren_concat("(set! "@ + x1 + " "@, x2);
            lemma_paren_concat("(set! "@ + x1 + " "@ + x2, ")"@);
        },
        Expr::Alloc(e) => {
            lemma_expr_text_balanced(*e);
            lemma_paren_concat("(alloc "@, expr_text(*e));
            lemma_paren_concat("(alloc "@ + expr_text(*e), ")"@);
        },
        Expr::Mref(base, offset) => {
            lemma_expr_text_balanced(*base);
            lemma_expr_text_balanced(*offset);
            let x1 = expr_text(*base);
            let x2 = expr_text(*offset);
            lemma_paren_concat("(mref "@, x1);
            lemma_paren_concat("(mref "@ + x1, " "@);
            lemma_paren_concat("(mref "@ + x1 + " "@, x2);
            lemma_paren_concat("(mref "@ + x1 + " "@ + x2, ")"@);
        },
        Expr::Mset(base, offset, value) => {
            lemma_expr_text_balanced(*base);
            lemma_expr_text_balanced(*offset);
            lemma_expr_text_balanced(*value);
            let x1 = expr_text(*base);
            let x2 = expr_text(*offset);
            let x3 = expr_text(*value);
            lemma_paren_concat("(mset! "@, x1);
            lemma_paren_concat("(mset! "@ + x1, " "@);
            lemma_paren_concat("(mset! "@ + x1 + " "@, x2);
            lemma_paren_concat("(mset! "@ + x1 + " "@ + x2, " "@);
            lemma_paren_concat("(mset! "@ + x1 + " "@ + x2 + " "@, x3);
            lemma_paren_concat("(mset! "@ + x1 + " "@ + x2 + " "@ + x3, ")"@);
        },
        Expr::Symbol(s) => {
            lemma_paren_free_balanced(s@);
        },
        Expr::Funcall(name, args) => {
            lemma_expr_text_balanced(*name);
            lemma_expr_texts_balanced(args@);
            let x1 = expr_text(*name);
            let j1 = join_texts(expr_texts(args@), " "@);
            lemma_join_balanced(expr_texts(args@), " "@);
            lemma_paren_concat("("@, x1);
            lemma_paren_concat("("@ + x1, " "@);
            lemma_paren_concat("("@ + x1 + " "@, j1);
            lemma_paren_concat("("@ + x1 + " "@ + j1, ")"@);
        },
        Expr::Int64(i) => {
            lemma_dec_int_free(i as int);
            lemma_paren_free_balanced(dec_int(i as int));
        },
        Expr::Bool(_) => {},
        Expr::Nop => {},
    }
}

/// Rendering is deterministic: the text is a function of the tree alone,
/// so rendering one tree value twice yields byte-identical output.
pub proof fn lemma_expr_text_deterministic(t1: Expr, t2: Expr)
    requires
        t1 == t2,
    ensures
        expr_text(t1) == expr_text(t2),
{
}

} // verus!
