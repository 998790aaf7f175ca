use ir_syntax::text::seqs_formatter;
use ir_syntax::text::seqs_formatter2;
use ir_syntax::text::mangle_label;
use ir_syntax::text::int_text;
use ir_syntax::text::nat_text;

#[test]
fn join_of_empty_input_is_empty() {
    let none: Vec<String> = vec![];
    assert_eq!(seqs_formatter2(&none, ", "), "");
}

#[test]
fn join_places_separator_between_items_only() {
    let one = vec![String::from("a")];
    assert_eq!(seqs_formatter2(&one, ", "), "a");
    let three = vec![String::from("a"), String::from("b"), String::from("c")];
    assert_eq!(seqs_formatter2(&three, " "), "a b c");
    assert_eq!(seqs_formatter2(&three, "\n"), "a\nb\nc");
}

#[test]
fn form_wrapper_places_tail_on_indented_line() {
    let items = vec![String::from("x.1"), String::from("y.2")];
    assert_eq!(
        seqs_formatter("locals", &items, " ", "(nop)"),
        "(locals (x.1 y.2)\n  (nop))"
    );
    let none: Vec<String> = vec![];
    assert_eq!(seqs_formatter("free", &none, " ", "x"), "(free ()\n  x)");
}

#[test]
fn mangle_rewrites_each_special_in_place() {
    assert_eq!(mangle_label("loop-start"), "loop_start");
    assert_eq!(mangle_label("pair?"), "pairq");
    assert_eq!(mangle_label("set!"), "setl");
    assert_eq!(mangle_label("a-b?c!"), "a_bqcl");
    assert_eq!(mangle_label(""), "");
    assert_eq!(mangle_label("untouched.0$"), "untouched.0$");
}

#[test]
fn mangle_can_collide_distinct_identifiers() {
    assert_eq!(mangle_label("a-b"), mangle_label("a_b"));
}

#[test]
fn decimal_rendering_matches_std_formatting() {
    assert_eq!(nat_text(0), "0");
    assert_eq!(nat_text(10), "10");
    assert_eq!(nat_text(u64::MAX), format!("{}", u64::MAX));
    assert_eq!(int_text(0), "0");
    assert_eq!(int_text(-1), "-1");
    assert_eq!(int_text(1234567890), "1234567890");
    assert_eq!(int_text(i64::MIN), format!("{}", i64::MIN));
    assert_eq!(int_text(i64::MAX), format!("{}", i64::MAX));
}
