use ir_syntax::expr::Expr;
use ir_syntax::expr::conflict_graph_formatter;

fn sym(s: &str) -> Expr {
    Expr::Symbol(String::from(s))
}

#[test]
fn locals_call_live_begin_nest_exactly() {
    let t = Expr::Locals(
        vec![String::from("x.1"), String::from("y.2")],
        Box::new(Expr::CallLive(
            vec![String::from("x.1")],
            Box::new(Expr::Begin(vec![Expr::SetBang(
                Box::new(sym("x.1")),
                Box::new(Expr::Int64(5)),
            )])),
        )),
    );
    assert_eq!(
        t.render(),
        "(locals (x.1 y.2)\n  (call-live (x.1)\n  (begin \n  (set! x.1 5))))"
    );
}

#[test]
fn conflict_graph_renders_association_entries() {
    let g = vec![
        (String::from("a"), vec![String::from("b"), String::from("c")]),
        (String::from("b"), vec![String::from("a")]),
        (String::from("c"), vec![String::from("a")]),
    ];
    let t = Expr::RegisterConflict(g, Box::new(Expr::Nop));
    assert_eq!(
        t.render(),
        "(register-conflict ((a {b c}) (b {a}) (c {a}))\n  (nop))"
    );
}

#[test]
fn conflict_graph_formatter_matches_node_rendering() {
    let g = vec![(String::from("a"), vec![String::from("b")])];
    let s = conflict_graph_formatter("frame-conflict", &g, &Expr::Nop);
    assert_eq!(s, "(frame-conflict ((a {b}))\n  (nop))");
    let t = Expr::FrameConflict(g, Box::new(Expr::Nop));
    assert_eq!(t.render(), s);
}

#[test]
fn letrec_renders_labeled_lambdas_without_group_parens() {
    let t = Expr::Letrec(
        vec![
            Expr::Lambda(
                String::from("f$1"),
                vec![String::from("x.1")],
                Box::new(sym("x.1")),
            ),
            Expr::Lambda(String::from("g$2"), vec![], Box::new(Expr::Nop)),
        ],
        Box::new(Expr::Funcall(Box::new(sym("f$1")), vec![Expr::Int64(5)])),
    );
    assert_eq!(
        t.render(),
        "(letrec (f$1 (lambda (x.1) x.1))\n(g$2 (lambda () (nop)))\n (f$1 5))"
    );
}

#[test]
fn locate_renders_bracketed_pairs() {
    let t = Expr::Locate(
        vec![
            (String::from("x.1"), String::from("rax")),
            (String::from("y.2"), String::from("fv0")),
        ],
        Box::new(Expr::Nop),
    );
    assert_eq!(t.render(), "(locate ([x.1 rax] [y.2 fv0])\n (nop))");
}

#[test]
fn new_frames_keeps_tail_on_the_same_line() {
    let t = Expr::NewFrames(
        vec![vec![String::from("rp.1"), String::from("a.2")]],
        Box::new(Expr::Nop),
    );
    assert_eq!(t.render(), "(new-frames ((rp.1 a.2)) (nop))");
}

#[test]
fn return_point_renders_label_then_expression() {
    let t = Expr::ReturnPoint(String::from("rp$1"), Box::new(Expr::Nop));
    assert_eq!(t.render(), "(return-point rp$1 (nop))");
}

#[test]
fn ulocals_and_spills_share_the_locals_shape() {
    let u = Expr::Ulocals(vec![String::from("x.1")], Box::new(Expr::Nop));
    assert_eq!(u.render(), "(ulocals (x.1)\n  (nop))");
    let s = Expr::Spills(vec![String::from("y.2")], Box::new(Expr::Nop));
    assert_eq!(s.render(), "(spills (y.2)\n  (nop))");
}

#[test]
fn one_armed_conditional_renders_two_parts() {
    let t = Expr::If1(Box::new(Expr::Bool(true)), Box::new(Expr::Nop));
    assert_eq!(t.render(), "(if (true) (nop))");
}

#[test]
fn shared_node_kinds_follow_the_high_level_rules() {
    let p = Expr::Prim2(
        String::from("+"),
        Box::new(Expr::Int64(1)),
        Box::new(Expr::Int64(2)),
    );
    assert_eq!(p.render(), "(+ 1 2)");
    let i = Expr::If(
        Box::new(Expr::Prim2(
            String::from("<"),
            Box::new(sym("x")),
            Box::new(Expr::Int64(0)),
        )),
        Box::new(Expr::Int64(-1)),
        Box::new(Expr::Int64(1)),
    );
    assert_eq!(i.render(), "(if (< x 0) -1 1)");
    let m = Expr::Mset(
        Box::new(sym("x.1")),
        Box::new(Expr::Int64(8)),
        Box::new(Expr::Int64(0)),
    );
    assert_eq!(m.render(), "(mset! x.1 8 0)");
    let a = Expr::Alloc(Box::new(Expr::Int64(16)));
    assert_eq!(a.render(), "(alloc 16)");
    let r = Expr::Mref(Box::new(sym("x.1")), Box::new(Expr::Int64(8)));
    assert_eq!(r.render(), "(mref x.1 8)");
    let p1 = Expr::Prim1(String::from("car"), Box::new(sym("x.1")));
    assert_eq!(p1.render(), "(car x.1)");
    assert_eq!(Expr::Bool(false).render(), "(false)");
    assert_eq!(Expr::Int64(-42).render(), "-42");
    assert_eq!(Expr::Nop.render(), "(nop)");
}

#[test]
fn empty_collections_render_empty_interiors() {
    let t = Expr::Locals(vec![], Box::new(Expr::Nop));
    assert_eq!(t.render(), "(locals ()\n  (nop))");
    let g = Expr::RegisterConflict(vec![], Box::new(Expr::Nop));
    assert_eq!(g.render(), "(register-conflict ()\n  (nop))");
    let b = Expr::Begin(vec![]);
    assert_eq!(b.render(), "(begin \n)");
}

#[test]
fn expr_rendering_twice_is_byte_identical() {
    let t = Expr::RegisterConflict(
        vec![(String::from("a"), vec![String::from("b")])],
        Box::new(Expr::Begin(vec![Expr::Nop, Expr::Bool(true)])),
    );
    assert_eq!(t.render(), t.render());
}
