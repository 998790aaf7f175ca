//! Shared text-building helpers: joining pre-rendered pieces with a
//! separator, wrapping an annotation form around a tail, rendering integers
//! in decimal, and mangling identifiers into legal assembly labels.

use vstd::prelude::*;

verus! {

// ---------------------------------------------------------------------------
// Joining sequences of pre-rendered strings
// ---------------------------------------------------------------------------

/// The views of a sequence of strings.
pub open spec fn views_of(ss: Seq<String>) -> Seq<Seq<char>> {
    ss.map_values(|s: String| s@)
}

/// The text of `items` joined by `sep`: empty input yields the empty string.
pub open spec fn join_texts(items: Seq<Seq<char>>, sep: Seq<char>) -> Seq<char>
    decreases items.len(),
{
    if items.len() == 0 {
        Seq::empty()
    } else if items.len() == 1 {
        items[0]
    } else {
        items[0] + sep + join_texts(items.drop_first(), sep)
    }
}

/// Appending one more item to a join extends it by one separator and the item.
pub proof fn lemma_join_push(items: Seq<Seq<char>>, x: Seq<char>, sep: Seq<char>)
    ensures
        join_texts(items.push(x), sep) == if items.len() == 0 {
            x
        } else {
            (join_texts(items, sep) + sep + x)
        },
    decreases items.len(),
{
    let p = items.push(x);
    if items.len() == 0 {
        assert(p.len() == 1);
        assert(p[0] == x);
        assert(join_texts(p, sep) == x);
    } else if items.len() == 1 {
        assert(p.drop_first() =~= items.drop_first().push(x));
        assert(items.drop_first().push(x).len() == 1);
        assert(items.drop_first().push(x)[0] == x);
        assert(join_texts(items.drop_first().push(x), sep) == x);
        assert(p[0] == items[0]);
        assert(join_texts(p, sep) == p[0] + sep + join_texts(p.drop_first(), sep));
        assert(join_texts(p, sep) == items[0] + sep + x);
        assert(join_texts(items, sep) == items[0]);
    } else {
        lemma_join_push(items.drop_first(), x, sep);
        assert(p.drop_first() =~= items.drop_first().push(x));
        assert(p[0] == items[0]);
        assert(join_texts(p, sep) == p[0] + sep + join_texts(p.drop_first(), sep));
        assert(join_texts(p.drop_first(), sep) == join_texts(items.drop_first(), sep) + sep + x);
        assert(join_texts(items, sep) == items[0] + sep + join_texts(items.drop_first(), sep));
        assert(join_texts(p, sep) == items[0] + sep + (join_texts(items.drop_first(), sep) + sep
            + x));
        assert(items[0] + sep + (join_texts(items.drop_first(), sep) + sep + x) =~= (items[0] + sep
            + join_texts(items.drop_first(), sep)) + sep + x);
    }
}

/// Joins the strings of `seqs` with `join` in between; empty input yields
/// the empty string.
pub fn seqs_formatter2(seqs: &Vec<String>, join: &str) -> (r: String)
    ensures
        r@ == join_texts(views_of(seqs@), join@),
{
    let ghost all: Seq<Seq<char>> = views_of(seqs@);
    let mut r = String::new();
    let mut i: usize = 0;
    while i < seqs.len()
        invariant
            0 <= i <= seqs@.len(),
            all == views_of(seqs@),
            r@ == join_texts(all.take(i as int), join@),
        decreases seqs@.len() - i,
    {
        if i > 0 {
            r.append(join);
        }
        r.append(seqs[i].as_str());
        proof {
            lemma_join_push(all.take(i as int), all[i as int], join@);
            assert(all.take(i as int + 1) =~= all.take(i as int).push(all[i as int]));
        }
        i += 1;
    }
    proof {
        assert(all.take(seqs@.len() as int) =~= all);
    }
    r
}

/// The annotation-form shape `(name (inner)\n  tail)`.
pub open spec fn wrap_form_text(form: Seq<char>, inner: Seq<char>, tail: Seq<char>) -> Seq<char> {
    "("@ + form + " ("@ + inner + ")\n  "@ + tail + ")"@
}

/// Wraps the named annotation form around a pre-rendered tail:
/// `(form (s1<join>s2...)\n  tail)`.
pub fn seqs_formatter(form: &str, seqs: &Vec<String>, join: &str, tail: &str) -> (r: String)
    ensures
        r@ == wrap_form_text(form@, join_texts(views_of(seqs@), join@), tail@),
{
    let mut r = String::from_str("(");
    r.append(form);
    r.append(" (");
    let inner = seqs_formatter2(seqs, join);
    r.append(inner.as_str());
    r.append(")\n  ");
    r.append(tail);
    r.append(")");
    r
}

// ---------------------------------------------------------------------------
// Decimal rendering of integers
// ---------------------------------------------------------------------------

/// The decimal digit character for `d` in 0..=9.
pub open spec fn digit_char(d: int) -> char {
    if d == 0 {
        '0'
    } else if d == 1 {
        '1'
    } else if d == 2 {
        '2'
    } else if d == 3 {
        '3'
    } else if d == 4 {
        '4'
    } else if d == 5 {
        '5'
    } else if d == 6 {
        '6'
    } else if d == 7 {
        '7'
    } else if d == 8 {
        '8'
    } else {
        '9'
    }
}

/// The decimal digits of `n`, most significant first, no sign.
pub open spec fn dec_nat(n: nat) -> Seq<char>
    decreases n,
{
    if n < 10 {
        seq![digit_char(n as int)]
    } else {
        dec_nat(n / 10) + seq![digit_char((n % 10) as int)]
    }
}

/// The decimal rendering of `i`, with a leading `-` when negative.
pub open spec fn dec_int(i: int) -> Seq<char> {
    if i < 0 {
        seq!['-'] + dec_nat((-i) as nat)
    } else {
        dec_nat(i as nat)
    }
}

/// The one-character string for the decimal digit `d`.
fn digit_str(d: u64) -> (r: &'static str)
    requires
        d < 10,
    ensures
        r@ == seq![digit_char(d as int)],
{
    let r: &'static str = if d == 0 {
        "0"
    } else if d == 1 {
        "1"
    } else if d == 2 {
        "2"
    } else if d == 3 {
        "3"
    } else if d == 4 {
        "4"
    } else if d == 5 {
        "5"
    } else if d == 6 {
        "6"
    } else if d == 7 {
        "7"
    } else if d == 8 {
        "8"
    } else {
        "9"
    };
    proof {
        reveal_strlit("0");
        reveal_strlit("1");
        reveal_strlit("2");
        reveal_strlit("3");
        reveal_strlit("4");
        reveal_strlit("5");
        reveal_strlit("6");
        reveal_strlit("7");
        reveal_strlit("8");
        reveal_strlit("9");
        assert(r@ =~= seq![digit_char(d as int)]);
    }
    r
}

/// Renders `n` in decimal.
pub fn nat_text(n: u64) -> (r: String)
    ensures
        r@ == dec_nat(n as nat),
    decreases n,
{
    if n < 10 {
        String::from_str(digit_str(n))
    } else {
        let mut s = nat_text(n / 10);
        s.append(digit_str(n % 10));
        proof {
            assert(s@ =~= dec_nat(n as nat));
        }
        s
    }
}

/// Renders `i` in decimal, with a leading `-` when negative.
pub fn int_text(i: i64) -> (r: String)
    ensures
        r@ == dec_int(i as int),
{
    if i >= 0 {
        nat_text(i as u64)
    } else {
        let mag: u64 = ((-(i + 1)) as u64) + 1;
        let mut s = String::from_str("-");
        let digits = nat_text(mag);
        s.append(digits.as_str());
        proof {
            reveal_strlit("-");
            assert(mag as nat == (-(i as int)) as nat);
            assert("-"@ =~= seq!['-']);
        }
        s
    }
}

// ---------------------------------------------------------------------------
// Label mangling
// ---------------------------------------------------------------------------

/// How one character of an identifier is mangled into an assembly label:
/// `-` becomes `_`, `?` becomes `q`, `!` becomes `l`; all else is kept.
pub open spec fn mangle_char(c: char) -> char {
    if c == '-' {
        '_'
    } else if c == '?' {
        'q'
    } else if c == '!' {
        'l'
    } else {
        c
    }
}

/// The mangled form of an identifier: each character mangled in place.
pub open spec fn mangled(s: Seq<char>) -> Seq<char> {
    s.map_values(|c: char| mangle_char(c))
}

/// Relies on str::chars and Iterator::collect for Vec: the characters of the
/// string, in order.
#[verifier::external_body]
fn str_chars(s: &str) -> (r: Vec<char>)
    ensures
        r@ == s@,
{
    s.chars().collect()
}

/// Relies on String's FromIterator impl for char: the string made of exactly
/// these characters, in order.
#[verifier::external_body]
fn chars_to_string(cs: &Vec<char>) -> (r: String)
    ensures
        r@ == cs@,
{
    cs.iter().collect()
}

/// Mangles an identifier into a legal assembly label.
pub fn mangle_label(s: &str) -> (r: String)
    ensures
        r@ == mangled(s@),
{
    let cs = str_chars(s);
    let mut out: Vec<char> = Vec::new();
    let mut i: usize = 0;
    while i < cs.len()
        invariant
            0 <= i <= cs@.len(),
            cs@ == s@,
            out@.len() == i,
            forall|j: int| 0 <= j < i ==> out@[j] == mangle_char(cs@[j]),
        decreases cs@.len() - i,
    {
        let c = cs[i];
        let m: char = if c == '-' {
            '_'
        } else if c == '?' {
            'q'
        } else if c == '!' {
            'l'
        } else {
            c
        };
        out.push(m);
        i += 1;
    }
    proof {
        assert(out@ =~= mangled(s@));
    }
    chars_to_string(&out)
}

/// Label mangling never leaves a `-`, `?`, or `!` in its output, for any
/// input identifier.
pub proof fn lemma_mangled_no_specials(s: Seq<char>)
    ensures
        forall|i: int|
            0 <= i < mangled(s).len() ==> mangled(s)[i] != '-' && mangled(s)[i] != '?' && mangled(
                s,
            )[i] != '!',
{
    assert forall|i: int| 0 <= i < mangled(s).len() implies mangled(s)[i] != '-' && mangled(s)[i]
        != '?' && mangled(s)[i] != '!' by {
        assert(mangled(s)[i] == mangle_char(s[i]));
    }
}

// ---------------------------------------------------------------------------
// Parenthesis accounting
// ---------------------------------------------------------------------------

/// The contribution of one character to the parenthesis nesting depth.
pub open spec fn paren_delta(c: char) -> int {
    if c == '(' {
        1
    } else if c == ')' {
        -1
    } else {
        0
    }
}

/// Opening minus closing parentheses over the whole text.
pub open spec fn paren_excess(s: Seq<char>) -> int
    decreases s.len(),
{
    if s.len() == 0 {
        0
    } else {
        paren_excess(s.drop_last()) + paren_delta(s.last())
    }
}

/// The least parenthesis excess over all prefixes of the text (at most 0,
/// since the empty prefix counts).
pub open spec fn paren_low(s: Seq<char>) -> int
    decreases s.len(),
{
    if s.len() == 0 {
        0
    } else {
        let e = paren_excess(s);
        let l = paren_low(s.drop_last());
        if l <= e {
            l
        } else {
            e
        }
    }
}

/// The text's parentheses are balanced: as many close as open, and no prefix
/// closes more than it has opened.
pub open spec fn paren_balanced(s: Seq<char>) -> bool {
    paren_excess(s) == 0 && paren_low(s) == 0
}

/// The text holds no parenthesis at all.
pub open spec fn paren_free(s: Seq<char>) -> bool {
    forall|i: int| 0 <= i < s.len() ==> s[i] != '(' && s[i] != ')'
}

/// Parenthesis excess adds over concatenation, and the low point of a
/// concatenation is the lower of the first part's low point and the first
/// part's excess plus the second part's low point.
pub broadcast proof fn lemma_paren_concat(a: Seq<char>, b: Seq<char>)
    ensures
        #[trigger] paren_excess(a + b) == paren_excess(a) + paren_excess(b),
        #[trigger] paren_low(a + b) == if paren_low(a) <= paren_excess(a) + paren_low(b) {
            paren_low(a)
        } else {
            (paren_excess(a) + paren_low(b))
        },
    decreases b.len(),
{
    if b.len() == 0 {
        assert(a + b =~= a);
        if a.len() > 0 {
            assert(paren_low(a) <= paren_excess(a));
        }
    } else {
        lemma_paren_concat(a, b.drop_last());
        assert((a + b).drop_last() =~= a + b.drop_last());
        assert((a + b).last() == b.last());
    }
}

/// Appending one character moves the excess by that character's delta and
/// lowers the low point to the new excess if it falls below it.
pub broadcast proof fn lemma_paren_push(s: Seq<char>, c: char)
    ensures
        #[trigger] paren_excess(s.push(c)) == paren_excess(s) + paren_delta(c),
        #[trigger] paren_low(s.push(c)) == if paren_low(s) <= paren_excess(s) + paren_delta(c) {
            paren_low(s)
        } else {
            (paren_excess(s) + paren_delta(c))
        },
{
    let p = s.push(c);
    assert(p.drop_last() =~= s);
    assert(p.last() == c);
    assert(p.len() == s.len() + 1);
}

/// A text without parentheses is balanced.
pub proof fn lemma_paren_free_balanced(s: Seq<char>)
    requires
        paren_free(s),
    ensures
        paren_balanced(s),
    decreases s.len(),
{
    if s.len() > 0 {
        assert(s[s.len() - 1] != '(' && s[s.len() - 1] != ')');
        lemma_paren_free_balanced(s.drop_last());
    }
}

/// Joining balanced pieces with a balanced separator is balanced.
pub proof fn lemma_join_balanced(items: Seq<Seq<char>>, sep: Seq<char>)
    requires
        forall|j: int| 0 <= j < items.len() ==> paren_balanced(#[trigger] items[j]),
        paren_balanced(sep),
    ensures
        paren_balanced(join_texts(items, sep)),
    decreases items.len(),
{
    if items.len() == 1 {
        assert(paren_balanced(items[0]));
    } else if items.len() > 1 {
        lemma_join_balanced(items.drop_first(), sep);
        assert(paren_balanced(items[0]));
        lemma_paren_concat(items[0], sep);
        lemma_paren_concat(items[0] + sep, join_texts(items.drop_first(), sep));
    }
}

/// The annotation-form shape is balanced whenever the form name has no
/// parenthesis and the inner text and tail are balanced.
pub proof fn lemma_wrap_form_balanced(form: Seq<char>, inner: Seq<char>, tail: Seq<char>)
    requires
        paren_free(form),
        paren_balanced(inner),
        paren_balanced(tail),
    ensures
        paren_balanced(wrap_form_text(form, inner, tail)),
{
    assert(paren_excess("("@) == 1 && paren_low("("@) == 0) by {
        reveal_strlit("(");
        reveal_with_fuel(paren_excess, 3);
        reveal_with_fuel(paren_low, 3);
    }
    assert(paren_excess(" ("@) == 1 && paren_low(" ("@) == 0) by {
        reveal_strlit(" (");
        reveal_with_fuel(paren_excess, 4);
        reveal_with_fuel(paren_low, 4);
    }
    assert(paren_excess(")\n  "@) == -1 && paren_low(")\n  "@) == -1) by {
        reveal_strlit(")\n  ");
        reveal_with_fuel(paren_excess, 6);
        reveal_with_fuel(paren_low, 6);
    }
    assert(paren_excess(")"@) == -1 && paren_low(")"@) == -1) by {
        reveal_strlit(")");
        reveal_with_fuel(paren_excess, 3);
        reveal_with_fuel(paren_low, 3);
    }
    lemma_paren_free_balanced(form);
    lemma_paren_concat("("@, form);
    lemma_paren_concat("("@ + form, " ("@);
    lemma_paren_concat("("@ + form + " ("@, inner);
    lemma_paren_concat("("@ + form + " ("@ + inner, ")\n  "@);
    lemma_paren_concat("("@ + form + " ("@ + inner + ")\n  "@, tail);
    lemma_paren_concat("("@ + form + " ("@ + inner + ")\n  "@ + tail, ")"@);
}

/// No name of the list holds a parenthesis.
pub open spec fn names_paren_free(ns: Seq<String>) -> bool {
    forall|j: int| 0 <= j < ns.len() ==> paren_free(#[trigger] ns[j]@)
}

/// Every name of the list, seen as text, is balanced, having no parenthesis.
pub proof fn lemma_names_balanced(ns: Seq<String>)
    requires
        names_paren_free(ns),
    ensures
        views_of(ns).len() == ns.len(),
        forall|j: int| 0 <= j < ns.len() ==> paren_balanced(#[trigger] views_of(ns)[j]),
{
    assert forall|j: int| 0 <= j < ns.len() implies paren_balanced(
        #[trigger] views_of(ns)[j],
    ) by {
        assert(views_of(ns)[j] == ns[j]@);
        lemma_paren_free_balanced(ns[j]@);
    }
}

/// Mangling keeps a parenthesis-free identifier parenthesis-free.
pub proof fn lemma_mangled_paren_free(s: Seq<char>)
    requires
        paren_free(s),
    ensures
        paren_free(mangled(s)),
{
    assert forall|i: int| 0 <= i < mangled(s).len() implies mangled(s)[i] != '(' && mangled(s)[i]
        != ')' by {
        assert(mangled(s)[i] == mangle_char(s[i]));
    }
}

/// A decimal digit run holds no parenthesis.
pub proof fn lemma_dec_nat_free(n: nat)
    ensures
        paren_free(dec_nat(n)),
    decreases n,
{
    if n >= 10 {
        lemma_dec_nat_free(n / 10);
    }
}

/// A decimal integer rendering holds no parenthesis.
pub proof fn lemma_dec_int_free(i: int)
    ensures
        paren_free(dec_int(i)),
{
    if i < 0 {
        lemma_dec_nat_free((-i) as nat);
    } else {
        lemma_dec_nat_free(i as nat);
    }
}


} // verus!
