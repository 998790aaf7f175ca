use ir_syntax::scheme::Scheme;

fn sym(s: &str) -> Scheme {
    Scheme::Symbol(String::from(s))
}

#[test]
fn prim2_renders_call_style() {
    let t = Scheme::Prim2(
        String::from("+"),
        Box::new(Scheme::Int64(1)),
        Box::new(Scheme::Int64(2)),
    );
    assert_eq!(t.render(), "(+ 1 2)");
}

#[test]
fn if_renders_with_nested_condition() {
    let t = Scheme::If(
        Box::new(Scheme::Prim2(
            String::from("<"),
            Box::new(sym("x")),
            Box::new(Scheme::Int64(0)),
        )),
        Box::new(Scheme::Int64(-1)),
        Box::new(Scheme::Int64(1)),
    );
    assert_eq!(t.render(), "(if (< x 0) -1 1)");
}

#[test]
fn letrec_renders_bracketed_bindings() {
    let t = Scheme::Letrec(
        vec![(
            String::from("f.1"),
            Scheme::Lambda(vec![String::from("x.2")], Box::new(sym("x.2"))),
        )],
        Box::new(Scheme::Funcall(Box::new(sym("f.1")), vec![Scheme::Int64(1)])),
    );
    assert_eq!(t.render(), "(letrec ([f.1 (lambda (x.2) x.2)])\n (f.1 1))");
}

#[test]
fn let_renders_bindings_joined_by_spaces() {
    let t = Scheme::Let(
        vec![
            (String::from("x.1"), Scheme::Int64(1)),
            (String::from("y.2"), Scheme::Int64(2)),
        ],
        Box::new(Scheme::Prim2(
            String::from("+"),
            Box::new(sym("x.1")),
            Box::new(sym("y.2")),
        )),
    );
    assert_eq!(t.render(), "(let ([x.1 1] [y.2 2])\n (+ x.1 y.2))");
}

#[test]
fn locals_wraps_names_around_tail() {
    let t = Scheme::Locals(
        vec![String::from("x.1"), String::from("y.2")],
        Box::new(Scheme::Nop),
    );
    assert_eq!(t.render(), "(locals (x.1 y.2)\n  (nop))");
}

#[test]
fn assigned_free_bindfree_share_the_form_shape() {
    let a = Scheme::Assigned(vec![String::from("x.1")], Box::new(Scheme::Nop));
    assert_eq!(a.render(), "(assigned (x.1)\n  (nop))");
    let f = Scheme::Free(vec![String::from("y.2")], Box::new(Scheme::Void));
    assert_eq!(f.render(), "(free (y.2)\n  (void))");
    let b = Scheme::Bindfree(vec![String::from("z.3")], Box::new(Scheme::Nop));
    assert_eq!(b.render(), "(bind-free (z.3)\n  (nop))");
}

#[test]
fn closures_renders_records_without_indent_before_tail() {
    let t = Scheme::Closures(
        vec![(
            String::from("f.1"),
            String::from("f$1"),
            vec![String::from("a.1"), String::from("b.2")],
        )],
        Box::new(Scheme::Nop),
    );
    assert_eq!(t.render(), "(closures ([f.1 f$1 a.1 b.2])\n(nop))");
}

#[test]
fn begin_indents_each_child_on_its_own_line() {
    let t = Scheme::Begin(vec![
        Scheme::SetBang(Box::new(sym("x.1")), Box::new(Scheme::Int64(5))),
        Scheme::Nop,
    ]);
    assert_eq!(t.render(), "(begin \n  (set! x.1 5)\n  (nop))");
}

#[test]
fn memory_primitives_render_call_style() {
    let a = Scheme::Alloc(Box::new(Scheme::Int64(16)));
    assert_eq!(a.render(), "(alloc 16)");
    let m = Scheme::Mref(Box::new(sym("x.1")), Box::new(Scheme::Int64(8)));
    assert_eq!(m.render(), "(mref x.1 8)");
    let s = Scheme::Mset(
        Box::new(sym("x.1")),
        Box::new(Scheme::Int64(8)),
        Box::new(Scheme::Int64(0)),
    );
    assert_eq!(s.render(), "(mset! x.1 8 0)");
}

#[test]
fn prim1_and_prim3_render_call_style() {
    let p1 = Scheme::Prim1(String::from("car"), Box::new(sym("x.1")));
    assert_eq!(p1.render(), "(car x.1)");
    let p3 = Scheme::Prim3(
        String::from("vector-set!"),
        Box::new(sym("v.1")),
        Box::new(Scheme::Int64(0)),
        Box::new(Scheme::Int64(1)),
    );
    assert_eq!(p3.render(), "(vector-set! v.1 0 1)");
}

#[test]
fn bare_booleans_render_as_forms() {
    assert_eq!(Scheme::Bool(true).render(), "(true)");
    assert_eq!(Scheme::Bool(false).render(), "(false)");
}

#[test]
fn quoted_booleans_bypass_the_generic_rule() {
    let qt = Scheme::Quote(Box::new(Scheme::Bool(true)));
    assert_eq!(qt.render(), "'#t");
    let qf = Scheme::Quote(Box::new(Scheme::Bool(false)));
    assert_eq!(qf.render(), "'#f");
    let qn = Scheme::Quote(Box::new(Scheme::Int64(3)));
    assert_eq!(qn.render(), "'3");
    let ql = Scheme::Quote(Box::new(Scheme::EmptyList));
    assert_eq!(ql.render(), "'()");
}

#[test]
fn literal_collections_and_atoms() {
    let l = Scheme::LiteralList(vec![Scheme::Int64(1), Scheme::Int64(2)]);
    assert_eq!(l.render(), "(1 2)");
    let v = Scheme::LiteralVector(vec![Scheme::Int64(1), Scheme::Int64(2)]);
    assert_eq!(v.render(), "#(1 2)");
    assert_eq!(Scheme::EmptyList.render(), "()");
    assert_eq!(Scheme::Void.render(), "(void)");
    assert_eq!(Scheme::Nop.render(), "(nop)");
    assert_eq!(sym("x.1").render(), "x.1");
}

#[test]
fn int64_renders_decimal_at_both_extremes() {
    assert_eq!(Scheme::Int64(0).render(), "0");
    assert_eq!(Scheme::Int64(-7).render(), "-7");
    assert_eq!(Scheme::Int64(i64::MAX).render(), "9223372036854775807");
    assert_eq!(Scheme::Int64(i64::MIN).render(), "-9223372036854775808");
}

#[test]
fn rendering_twice_is_byte_identical() {
    let t = Scheme::Letrec(
        vec![(
            String::from("f.1"),
            Scheme::Lambda(vec![String::from("x.2")], Box::new(sym("x.2"))),
        )],
        Box::new(Scheme::Begin(vec![
            Scheme::Quote(Box::new(Scheme::Bool(true))),
            Scheme::Funcall(Box::new(sym("f.1")), vec![Scheme::Int64(-3)]),
        ])),
    );
    assert_eq!(t.render(), t.render());
}

#[test]
fn rendered_parentheses_are_balanced() {
    let t = Scheme::Locals(
        vec![String::from("x.1")],
        Box::new(Scheme::Begin(vec![
            Scheme::SetBang(Box::new(sym("x.1")), Box::new(Scheme::Int64(5))),
            Scheme::If(
                Box::new(Scheme::Bool(true)),
                Box::new(sym("x.1")),
                Box::new(Scheme::Int64(0)),
            ),
        ])),
    );
    let out = t.render();
    let mut depth: i64 = 0;
    for c in out.chars() {
        if c == '(' {
            depth += 1;
        } else if c == ')' {
            depth -= 1;
        }
        assert!(depth >= 0);
    }
    assert_eq!(depth, 0);
}

#[test]
fn duplicate_names_are_rendered_as_given() {
    // Name uniqueness is enforced upstream, not here: the serializer is
    // total and renders whatever list it is handed, in order.
    let t = Scheme::Locals(
        vec![String::from("x.1"), String::from("x.1")],
        Box::new(Scheme::Nop),
    );
    assert_eq!(t.render(), "(locals (x.1 x.1)\n  (nop))");
}

#[test]
fn deeply_nested_trees_render_without_failing() {
    let mut t = Scheme::Int64(1);
    for _ in 0..500 {
        t = Scheme::Alloc(Box::new(t));
    }
    let out = t.render();
    assert_eq!(out.len(), "(alloc ".len() * 500 + 1 + 500);
    assert!(out.starts_with("(alloc (alloc "));
    assert!(out.contains("(alloc 1)"));
    assert!(out.ends_with(")))"));
}
