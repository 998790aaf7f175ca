//! The concrete x86-64 assembly form and its serializer.
//!
//! The output is AT&T-syntax assembly text: one instruction per line,
//! tab-indented and newline-terminated, `src, dst` operand order, `$` for
//! immediates, `%` for registers, `offset(reg)` addressing, and the
//! direct-versus-indirect jump distinction. Every identifier emitted as an
//! assembly label — a block label, a direct jump target of either kind, a
//! label-relative address — is mangled by `crate::text::mangled`.

use vstd::prelude::*;
use crate::text::{dec_int, int_text, mangled, mangle_label, paren_free, paren_balanced,
    paren_excess, paren_low, lemma_paren_concat, lemma_paren_push, lemma_paren_free_balanced,
    lemma_mangled_paren_free, lemma_dec_int_free};

verus! {

/// The assembly tree form: registers, operands, instructions, blocks and
/// whole programs.
#[derive(Debug)]
pub enum Asm {
    RSP,
    RBP,
    RAX,
    RBX,
    RCX,
    RDX,
    RSI,
    RDI,
    R8,
    R9,
    R10,
    R11,
    R12,
    R13,
    R14,
    R15,
    RIP,
    Imm(i64),
    Label(String),
    Deref(Box<Asm>, i64),
    DerefLabel(Box<Asm>, Box<Asm>),
    DerefRegister(Box<Asm>, Box<Asm>),
    Op2(String, Box<Asm>, Box<Asm>),
    Retq,
    Cfg(String, Vec<Asm>),
    Jmp(Box<Asm>),
    Jmpif(String, Box<Asm>),
    Prog(Vec<Asm>),
    Push(Box<Asm>),
    Pop(Box<Asm>),
    Code(Vec<Asm>),
}

/// The canonical text of an assembly tree.
pub open spec fn asm_text(t: Asm) -> Seq<char>
    decreases t, 1int,
{
    match t {
        Asm::RSP => "%rsp"@,
        Asm::RBP => "%rbp"@,
        Asm::RAX => "%rax"@,
        Asm::RBX => "%rbx"@,
        Asm::RCX => "%rcx"@,
        Asm::RDX => "%rdx"@,
        Asm::RSI => "%rsi"@,
        Asm::RDI => "%rdi"@,
        Asm::R8 => "%r8"@,
        Asm::R9 => "%r9"@,
        Asm::R10 => "%r10"@,
        Asm::R11 => "%r11"@,
        Asm::R12 => "%r12"@,
        Asm::R13 => "%r13"@,
        Asm::R14 => "%r14"@,
        Asm::R15 => "%r15"@,
        Asm::RIP => "%rip"@,
        Asm::Imm(n) => "$"@ + dec_int(n as int),
        Asm::Label(s) => mangled(s@),
        Asm::Deref(reg, n) => dec_int(n as int) + "("@ + asm_text(*reg) + ")"@,
        Asm::DerefLabel(reg, lbl) => asm_text(*lbl) + "("@ + asm_text(*reg) + ")"@,
        Asm::DerefRegister(reg1, reg2) => "("@ + asm_text(*reg1) + ","@ + asm_text(*reg2) + ")"@,
        Asm::Op2(op, e1, e2) => "\t"@ + op@ + " "@ + asm_text(*e1) + ", "@ + asm_text(*e2) + "\n"@,
        Asm::Retq => "\tretq\n"@,
        Asm::Cfg(labl, codes) => mangled(labl@) + ":\n"@ + asm_concat(codes@),
        Asm::Jmp(target) => match *target {
            Asm::Label(s) => "\tjmp "@ + mangled(s@) + "\n"@,
            _ => "\tjmp *"@ + asm_text(*target) + "\n"@,
        },
        Asm::Jmpif(cc, target) => match *target {
            Asm::Label(s) => "\tj"@ + cc@ + " "@ + mangled(s@) + "\n"@,
            _ => "\tj"@ + cc@ + " *"@ + asm_text(*target) + "\n"@,
        },
        Asm::Prog(cfgs) => asm_concat_nl(cfgs@),
        Asm::Push(a) => "\tpushq "@ + asm_text(*a) + "\n"@,
        Asm::Pop(a) => "\tpopq "@ + asm_text(*a) + "\n"@,
        Asm::Code(codes) => asm_concat(codes@),
    }
}

/// The renderings of a run of instructions, concatenated bare.
pub open spec fn asm_concat(ts: Seq<Asm>) -> Seq<char>
    decreases ts, ts.len(),
{
    if ts.len() == 0 {
        Seq::empty()
    } else {
        asm_text(ts[0]) + asm_concat(ts.drop_first())
    }
}

/// The renderings of a program's blocks, each followed by a blank line.
pub open spec fn asm_concat_nl(ts: Seq<Asm>) -> Seq<char>
    decreases ts, ts.len(),
{
    if ts.len() == 0 {
        Seq::empty()
    } else {
        asm_text(ts[0]) + "\n"@ + asm_concat_nl(ts.drop_first())
    }
}

/// Appending one more instruction extends the bare concatenation by its text.
pub proof fn lemma_asm_concat_push(ts: Seq<Asm>, x: Asm)
    ensures
        asm_concat(ts.push(x)) =~= asm_concat(ts) + asm_text(x),
    decreases ts.len(),
{
    let p = ts.push(x);
    if ts.len() == 0 {
        assert(p.len() == 1);
        assert(p[0] == x);
        assert(p.drop_first() =~= Seq::<Asm>::empty());
        assert(asm_concat(p) == asm_text(x) + asm_concat(p.drop_first()));
        assert(asm_concat(p.drop_first()) =~= Seq::<char>::empty());
        assert(asm_concat(p) =~= asm_text(x));
        assert(asm_concat(ts) =~= Seq::<char>::empty());
    } else {
        lemma_asm_concat_push(ts.drop_first(), x);
        assert(p[0] == ts[0]);
        assert(p.drop_first() =~= ts.drop_first().push(x));
        assert(asm_concat(p) == asm_text(ts[0]) + asm_concat(ts.drop_first().push(x)));
        assert(asm_concat(ts.drop_first().push(x)) =~= asm_concat(ts.drop_first()) + asm_text(x));
        assert(asm_concat(ts) == asm_text(ts[0]) + asm_concat(ts.drop_first()));
    }
}

/// Appending one more block extends the program text by its text and a
/// blank line.
pub proof fn lemma_asm_concat_nl_push(ts: Seq<Asm>, x: Asm)
    ensures
        asm_concat_nl(ts.push(x)) =~= asm_concat_nl(ts) + asm_text(x) + "\n"@,
    decreases ts.len(),
{
    let p = ts.push(x);
    if ts.len() == 0 {
        assert(p.len() == 1);
        assert(p[0] == x);
        assert(p.drop_first() =~= Seq::<Asm>::empty());
        assert(asm_concat_nl(p) == asm_text(x) + "\n"@ + asm_concat_nl(p.drop_first()));
        assert(asm_concat_nl(p.drop_first()) =~= Seq::<char>::empty());
        assert(asm_concat_nl(p) =~= asm_text(x) + "\n"@);
        assert(asm_concat_nl(ts) =~= Seq::<char>::empty());
    } else {
        lemma_asm_concat_nl_push(ts.drop_first(), x);
        assert(p[0] == ts[0]);
        assert(p.drop_first() =~= ts.drop_first().push(x));
        assert(asm_concat_nl(p) == asm_text(ts[0]) + "\n"@ + asm_concat_nl(
            ts.drop_first().push(x),
        ));
        assert(asm_concat_nl(ts.drop_first().push(x)) =~= asm_concat_nl(ts.drop_first())
            + asm_text(x) + "\n"@);
        assert(asm_concat_nl(ts) == asm_text(ts[0]) + "\n"@ + asm_concat_nl(ts.drop_first()));
    }
}

/// Renders each tree of the list, in order.
fn render_asm_parts(ts: &Vec<Asm>) -> (r: Vec<String>)
    ensures
        r@.len() == ts@.len(),
        forall|j: int| 0 <= j < ts@.len() ==> r@[j]@ == asm_text(ts@[j]),
    decreases ts@, 0int,
{
    let mut parts: Vec<String> = Vec::new();
    let mut i: usize = 0;
    while i < ts.len()
        invariant
            0 <= i <= ts@.len(),
            parts@.len() == i,
            forall|j: int| 0 <= j < i ==> parts@[j]@ == asm_text(ts@[j]),
        decreases ts@.len() - i,
    {
        let s = ts[i].render();
        parts.push(s);
        i += 1;
    }
    parts
}

impl Asm {
    /// Renders the tree into its canonical text.
    pub fn render(&self) -> (r: String)
        ensures
            r@ == asm_text(*self),
        decreases self, 1int,
    {
        match self {
            Asm::RSP => String::from_str("%rsp"),
            Asm::RBP => String::from_str("%rbp"),
            Asm::RAX => String::from_str("%rax"),
            Asm::RBX => String::from_str("%rbx"),
            Asm::RCX => String::from_str("%rcx"),
            Asm::RDX => String::from_str("%rdx"),
            Asm::RSI => String::from_str("%rsi"),
            Asm::RDI => String::from_str("%rdi"),
            Asm::R8 => String::from_str("%r8"),
            Asm::R9 => String::from_str("%r9"),
            Asm::R10 => String::from_str("%r10"),
            Asm::R11 => String::from_str("%r11"),
            Asm::R12 => String::from_str("%r12"),
            Asm::R13 => String::from_str("%r13"),
            Asm::R14 => String::from_str("%r14"),
            Asm::R15 => String::from_str("%r15"),
            Asm::RIP => String::from_str("%rip"),
            Asm::Imm(n) => {
                let mut r = String::from_str("$");
                let d = int_text(*n);
                r.append(d.as_str());
                r
            },
            Asm::Label(s) => mangle_label(s.as_str()),
            Asm::Deref(reg, n) => {
                let mut r = int_text(*n);
                r.append("(");
                let v = reg.render();
                r.append(v.as_str());
                r.append(")");
                r
            },
            Asm::DerefLabel(reg, lbl) => {
                let mut r = lbl.render();
                r.append("(");
                let v = reg.render();
                r.append(v.as_str());
                r.append(")");
                r
            },
            Asm::DerefRegister(reg1, reg2) => {
                let mut r = String::from_str("(");
                let v1 = reg1.render();
                r.append(v1.as_str());
                r.append(",");
                let v2 = reg2.render();
                r.append(v2.as_str());
                r.append(")");
                r
            },
            Asm::Op2(op, e1, e2) => {
                let mut r = String::from_str("\t");
                r.append(op.as_str());
                r.append(" ");
                let v1 = e1.render();
                r.append(v1.as_str());
                r.append(", ");
                let v2 = e2.render();
                r.append(v2.as_str());
                r.append("\n");
                r
            },
            Asm::Retq => String::from_str("\tretq\n"),
            Asm::Cfg(labl, codes) => {
                let parts = render_asm_parts(codes);
                let mut r = mangle_label(labl.as_str());
                r.append(":\n");
                let mut i: usize = 0;
                while i < parts.len()
                    invariant
                        0 <= i <= codes@.len(),
                        parts@.len() == codes@.len(),
                        forall|j: int| 0 <= j < codes@.len() ==> parts@[j]@ == asm_text(codes@[j]),
                        r@ == mangled(labl@) + ":\n"@ + asm_concat(codes@.take(i as int)),
                    decreases codes@.len() - i,
                {
                    r.append(parts[i].as_str());
                    proof {
                        lemma_asm_concat_push(codes@.take(i as int), codes@[i as int]);
                        assert(codes@.take(i as int + 1) =~= codes@.take(i as int).push(
                            codes@[i as int],
                        ));
                        assert(r@ =~= mangled(labl@) + ":\n"@ + asm_concat(
                            codes@.take(i as int + 1),
                        ));
                    }
                    i += 1;
                }
                proof {
                    assert(codes@.take(codes@.len() as int) =~= codes@);
                }
                r
            },
            Asm::Jmp(target) => {
                match &**target {
                    Asm::Label(s) => {
                        let mut r = String::from_str("\tjmp ");
                        let m = mangle_label(s.as_str());
                        r.append(m.as_str());
                        r.append("\n");
                        r
                    },
                    _ => {
                        let mut r = String::from_str("\tjmp *");
                        let v = target.render();
                        r.append(v.as_str());
                        r.append("\n");
                        r
                    },
                }
            },
            Asm::Jmpif(cc, target) => {
                match &**target {
                    Asm::Label(s) => {
                        let mut r = String::from_str("\tj");
                        r.append(cc.as_str());
                        r.append(" ");
                        let m = mangle_label(s.as_str());
                        r.append(m.as_str());
                        r.append("\n");
                        r
                    },
                    _ => {
                        let mut r = String::from_str("\tj");
                        r.append(cc.as_str());
                        r.append(" *");
                        let v = target.render();
                        r.append(v.as_str());
                        r.append("\n");
                        r
                    },
                }
            },
            Asm::Prog(cfgs) => {
                let parts = render_asm_parts(cfgs);
                let mut r = String::new();
                let mut i: usize = 0;
                while i < parts.len()
                    invariant
                        0 <= i <= cfgs@.len(),
                        parts@.len() == cfgs@.len(),
                        forall|j: int| 0 <= j < cfgs@.len() ==> parts@[j]@ == asm_text(cfgs@[j]),
                        r@ == asm_concat_nl(cfgs@.take(i as int)),
                    decreases cfgs@.len() - i,
                {
                    r.append(parts[i].as_str());
                    r.append("\n");
                    proof {
                        lemma_asm_concat_nl_push(cfgs@.take(i as int), cfgs@[i as int]);
                        assert(cfgs@.take(i as int + 1) =~= cfgs@.take(i as int).push(
                            cfgs@[i as int],
                        ));
                        assert(r@ =~= asm_concat_nl(cfgs@.take(i as int + 1)));
                    }
                    i += 1;
                }
                proof {
                    assert(cfgs@.take(cfgs@.len() as int) =~= cfgs@);
                }
                r
            },
            Asm::Push(a) => {
                let mut r = String::from_str("\tpushq ");
                let v = a.render();
                r.append(v.as_str());
                r.append("\n");
                r
            },
            Asm::Pop(a) => {
                let mut r = String::from_str("\tpopq ");
                let v = a.render();
                r.append(v.as_str());
                r.append("\n");
                r
            },
            Asm::Code(codes) => {
                let parts = render_asm_parts(codes);
                let mut r = String::new();
                let mut i: usize = 0;
                while i < parts.len()
                    invariant
                        0 <= i <= codes@.len(),
                        parts@.len() == codes@.len(),
                        forall|j: int| 0 <= j < codes@.len() ==> parts@[j]@ == asm_text(codes@[j]),
                        r@ == asm_concat(codes@.take(i as int)),
                    decreases codes@.len() - i,
                {
                    r.append(parts[i].as_str());
                    proof {
                        lemma_asm_concat_push(codes@.take(i as int), codes@[i as int]);
                        assert(codes@.take(i as int + 1) =~= codes@.take(i as int).push(
                            codes@[i as int],
                        ));
                        assert(r@ =~= asm_concat(codes@.take(i as int + 1)));
                    }
                    i += 1;
                }
                proof {
                    assert(codes@.take(codes@.len() as int) =~= codes@);
                }
                r
            },
        }
    }
}

/// The parenthesis profile of some literal pieces of the serializer.
proof fn asm_lit_facts_1()
    ensures
        paren_balanced("%rsp"@),
        paren_balanced("%rbp"@),
        paren_balanced("%rax"@),
        paren_balanced("%rbx"@),
        paren_balanced("%rcx"@),
        paren_balanced("%rdx"@),
        paren_balanced("%rsi"@),
        paren_balanced("%rdi"@),
        paren_balanced("%r8"@),
        paren_balanced("%r9"@),
        paren_balanced("%r10"@),
{
    assert(paren_balanced("%rsp"@)) by {
        reveal_strlit("%rsp");
        lemma_paren_free_balanced("%rsp"@);
    }
    assert(paren_balanced("%rbp"@)) by {
        reveal_strlit("%rbp");
        lemma_paren_free_balanced("%rbp"@);
    }
    assert(paren_balanced("%rax"@)) by {
        reveal_strlit("%rax");
        lemma_paren_free_balanced("%rax"@);
    }
    assert(paren_balanced("%rbx"@)) by {
        reveal_strlit("%rbx");
        lemma_paren_free_balanced("%rbx"@);
    }
    assert(paren_balanced("%rcx"@)) by {
        reveal_strlit("%rcx");
        lemma_paren_free_balanced("%rcx"@);
    }
    assert(paren_balanced("%rdx"@)) by {
        reveal_strlit("%rdx");
        lemma_paren_free_balanced("%rdx"@);
    }
    assert(paren_balanced("%rsi"@)) by {
        reveal_strlit("%rsi");
        lemma_paren_free_balanced("%rsi"@);
    }
    assert(paren_balanced("%rdi"@)) by {
        reveal_strlit("%rdi");
        lemma_paren_free_balanced("%rdi"@);
    }
    assert(paren_balanced("%r8"@)) by {
        reveal_strlit("%r8");
        lemma_paren_free_balanced("%r8"@);
    }
    assert(paren_balanced("%r9"@)) by {
        reveal_strlit("%r9");
        lemma_paren_free_balanced("%r9"@);
    }
    assert(paren_balanced("%r10"@)) by {
        reveal_strlit("%r10");
        lemma_paren_free_balanced("%r10"@);
    }
}

/// The parenthesis profile of some literal pieces of the serializer.
proof fn asm_lit_facts_2()
    ensures
        paren_balanced("%r11"@),
        paren_balanced("%r12"@),
        paren_balanced("%r13"@),
        paren_balanced("%r14"@),
        paren_balanced("%r15"@),
        paren_balanced("%rip"@),
        paren_balanced("$"@),
        paren_balanced(","@),
        paren_balanced("\t"@),
        paren_balanced(" "@),
        paren_balanced(", "@),
{
    assert(paren_balanced("%r11"@)) by {
        reveal_strlit("%r11");
        lemma_paren_free_balanced("%r11"@);
    }
    assert(paren_balanced("%r12"@)) by {
        reveal_strlit("%r12");
        lemma_paren_free_balanced("%r12"@);
    }
    assert(paren_balanced("%r13"@)) by {
        reveal_strlit("%r13");
        lemma_paren_free_balanced("%r13"@);
    }
    assert(paren_balanced("%r14"@)) by {
        reveal_strlit("%r14");
        lemma_paren_free_balanced("%r14"@);
    }
    assert(paren_balanced("%r15"@)) by {
        reveal_strlit("%r15");
        lemma_paren_free_balanced("%r15"@);
    }
    assert(paren_balanced("%rip"@)) by {
        reveal_strlit("%rip");
        lemma_paren_free_balanced("%rip"@);
    }
    assert(paren_balanced("$"@)) by {
        reveal_strlit("$");
        lemma_paren_free_balanced("$"@);
    }
    assert(paren_balanced(","@)) by {
        reveal_strlit(",");
        lemma_paren_free_balanced(","@);
    }
    assert(paren_balanced("\t"@)) by {
        reveal_strlit("\t");
        lemma_paren_free_balanced("\t"@);
    }
    assert(paren_balanced(" "@)) by {
        reveal_strlit(" ");
        lemma_paren_free_balanced(" "@);
    }
    assert(paren_balanced(", "@)) by {
        reveal_strlit(", ");
        lemma_paren_free_balanced(", "@);
    }
}

/// The parenthesis profile of some literal pieces of the serializer.
proof fn asm_lit_facts_3()
    ensures
        paren_balanced("\n"@),
        paren_balanced(":\n"@),
        paren_balanced("\tretq\n"@),
        paren_balanced("\tjmp "@),
        paren_balanced("\tjmp *"@),
        paren_balanced("\tj"@),
        paren_balanced(" *"@),
        paren_balanced("\tpushq "@),
        paren_balanced("\tpopq "@),
{
    assert(paren_balanced("\n"@)) by {
        reveal_strlit("\n");
        lemma_paren_free_balanced("\n"@);
    }
    assert(paren_balanced(":\n"@)) by {
        reveal_strlit(":\n");
        lemma_paren_free_balanced(":\n"@);
    }
    assert(paren_balanced("\tretq\n"@)) by {
        reveal_strlit("\tretq\n");
        lemma_paren_free_balanced("\tretq\n"@);
    }
    assert(paren_balanced("\tjmp "@)) by {
        reveal_strlit("\tjmp ");
        lemma_paren_free_balanced("\tjmp "@);
    }
    assert(paren_balanced("\tjmp *"@)) by {
        reveal_strlit("\tjmp *");
        lemma_paren_free_balanced("\tjmp *"@);
    }
    assert(paren_balanced("\tj"@)) by {
        reveal_strlit("\tj");
        lemma_paren_free_balanced("\tj"@);
    }
    assert(paren_balanced(" *"@)) by {
        reveal_strlit(" *");
        lemma_paren_free_balanced(" *"@);
    }
    assert(paren_balanced("\tpushq "@)) by {
        reveal_strlit("\tpushq ");
        lemma_paren_free_balanced("\tpushq "@);
    }
    assert(paren_balanced("\tpopq "@)) by {
        reveal_strlit("\tpopq ");
        lemma_paren_free_balanced("\tpopq "@);
    }
}

/// The parenthesis profile of each literal piece of the serializer.
proof fn asm_lit_facts()
    ensures
        paren_excess("("@) == 1,
        paren_low("("@) == 0,
        paren_excess(")"@) == -1,
        paren_low(")"@) == -1,
        paren_balanced("%rsp"@),
        paren_balanced("%rbp"@),
        paren_balanced("%rax"@),
        paren_balanced("%rbx"@),
        paren_balanced("%rcx"@),
        paren_balanced("%rdx"@),
        paren_balanced("%rsi"@),
        paren_balanced("%rdi"@),
        paren_balanced("%r8"@),
        paren_balanced("%r9"@),
        paren_balanced("%r10"@),
        paren_balanced("%r11"@),
        paren_balanced("%r12"@),
        paren_balanced("%r13"@),
        paren_balanced("%r14"@),
        paren_balanced("%r15"@),
        paren_balanced("%rip"@),
        paren_balanced("$"@),
        paren_balanced(","@),
        paren_balanced("\t"@),
        paren_balanced(" "@),
        paren_balanced(", "@),
        paren_balanced("\n"@),
        paren_balanced(":\n"@),
        paren_balanced("\tretq\n"@),
        paren_balanced("\tjmp "@),
        paren_balanced("\tjmp *"@),
        paren_balanced("\tj"@),
        paren_balanced(" *"@),
        paren_balanced("\tpushq "@),
        paren_balanced("\tpopq "@),
{
    assert(paren_excess("("@) == 1 && paren_low("("@) == 0) by {
        reveal_strlit("(");
        let s0 = Seq::<char>::empty();
        lemma_paren_push(s0, '(');
        let s1 = s0.push('(');
        assert(paren_excess(s1) == 1);
        assert(paren_low(s1) == 0);
        assert("("@ =~= s1);
    }
    assert(paren_excess(")"@) == -1 && paren_low(")"@) == -1) by {
        reveal_strlit(")");
        let s0 = Seq::<char>::empty();
        lemma_paren_push(s0, ')');
        let s1 = s0.push(')');
        assert(paren_excess(s1) == -1);
        assert(paren_low(s1) == -1);
        assert(")"@ =~= s1);
    }
    asm_lit_facts_1();
    asm_lit_facts_2();
    asm_lit_facts_3();
}

// ---------------------------------------------------------------------------
// Balanced parentheses
// ---------------------------------------------------------------------------

/// No identifier embedded in the list of trees holds a parenthesis.
pub open spec fn asm_all_clean(ts: Seq<Asm>) -> bool
    decreases ts, 0int,
{
    forall|j: int| 0 <= j < ts.len() ==> asm_clean(#[trigger] ts[j])
}

/// No identifier embedded in the tree (label, mnemonic or condition code)
/// holds a parenthesis.
pub open spec fn asm_clean(t: Asm) -> bool
    decreases t, 1int,
{
    match t {
        Asm::Imm(_) => true,
        Asm::Label(s) => paren_free(s@),
        Asm::Deref(reg, _) => asm_clean(*reg),
        Asm::DerefLabel(reg, lbl) => asm_clean(*reg) && asm_clean(*lbl),
        Asm::DerefRegister(reg1, reg2) => asm_clean(*reg1) && asm_clean(*reg2),
        Asm::Op2(op, e1, e2) => paren_free(op@) && asm_clean(*e1) && asm_clean(*e2),
        Asm::Retq => true,
        Asm::Cfg(labl, codes) => paren_free(labl@) && asm_all_clean(codes@),
        Asm::Jmp(target) => asm_clean(*target),
        Asm::Jmpif(cc, target) => paren_free(cc@) && asm_clean(*target),
        Asm::Prog(cfgs) => asm_all_clean(cfgs@),
        Asm::Push(a) => asm_clean(*a),
        Asm::Pop(a) => asm_clean(*a),
        Asm::Code(codes) => asm_all_clean(codes@),
        _ => true,
    }
}

/// The bare concatenation of clean instruction renderings is balanced.
proof fn lemma_asm_concat_balanced(ts: Seq<Asm>)
    requires
        asm_all_clean(ts),
    ensures
        paren_balanced(asm_concat(ts)),
    decreases ts, 0int,
{
    if ts.len() > 0 {
        lemma_asm_text_balanced(ts[0]);
        lemma_asm_concat_balanced(ts.drop_first());
        lemma_paren_concat(asm_text(ts[0]), asm_concat(ts.drop_first()));
    }
}

/// The program concatenation of clean block renderings is balanced.
proof fn lemma_asm_concat_nl_balanced(ts: Seq<Asm>)
    requires
        asm_all_clean(ts),
    ensures
        paren_balanced(asm_concat_nl(ts)),
    decreases ts, 0int,
{
    asm_lit_facts();
    if ts.len() > 0 {
        lemma_asm_text_balanced(ts[0]);
        lemma_asm_concat_nl_balanced(ts.drop_first());
        lemma_paren_concat(asm_text(ts[0]), "\n"@);
        lemma_paren_concat(asm_text(ts[0]) + "\n"@, asm_concat_nl(ts.drop_first()));
    }
}

/// For any tree whose embedded identifiers hold no parenthesis, the
/// rendered text has balanced parentheses: as many close as open, and no
/// prefix closes more than it has opened.
pub proof fn lemma_asm_text_balanced(t: Asm)
    requires
        asm_clean(t),
    ensures
        paren_balanced(asm_text(t)),
    decreases t, 1int,
{
    asm_lit_facts();
    match t {
        Asm::Imm(n) => {
            lemma_dec_int_free(n as int);
            lemma_paren_free_balanced(dec_int(n as int));
            lemma_paren_concat("$"@, dec_int(n as int));
        },
        Asm::Label(s) => {
            lemma_mangled_paren_free(s@);
            lemma_paren_free_balanced(mangled(s@));
        },
        Asm::Deref(reg, n) => {
            lemma_dec_int_free(n as int);
            lemma_paren_free_balanced(dec_int(n as int));
            lemma_asm_text_balanced(*reg);
            let d = dec_int(n as int);
            lemma_paren_concat(d, "("@);
            lemma_paren_concat(d + "("@, asm_text(*reg));
            lemma_paren_concat(d + "("@ + asm_text(*reg), ")"@);
        },
        Asm::DerefLabel(reg, lbl) => {
            lemma_asm_text_balanced(*reg);
            lemma_asm_text_balanced(*lbl);
            let x1 = asm_text(*lbl);
            lemma_paren_concat(x1, "("@);
            lemma_paren_concat(x1 + "("@, asm_text(*reg));
            lemma_paren_concat(x1 + "("@ + asm_text(*reg), ")"@);
        },
        Asm::DerefRegister(reg1, reg2) => {
            lemma_asm_text_balanced(*reg1);
            lemma_asm_text_balanced(*reg2);
            let x1 = asm_text(*reg1);
            let x2 = asm_text(*reg2);
            lemma_paren_concat("("@, x1);
            lemma_paren_concat("("@ + x1, ","@);
            lemma_paren_concat("("@ + x1 + ","@, x2);
            lemma_paren_concat("("@ + x1 + ","@ + x2, ")"@);
        },
        Asm::Op2(op, e1, e2) => {
            lemma_paren_free_balanced(op@);
            lemma_asm_text_balanced(*e1);
            lemma_asm_text_balanced(*e2);
            let x1 = asm_text(*e1);
            let x2 = asm_text(*e2);
            lemma_paren_concat("\t"@, op@);
            lemma_paren_concat("\t"@ + op@, " "@);
            lemma_paren_concat("\t"@ + op@ + " "@, x1);
            lemma_paren_concat("\t"@ + op@ + " "@ + x1, ", "@);
            lemma_paren_concat("\t"@ + op@ + " "@ + x1 + ", "@, x2);
            lemma_paren_concat("\t"@ + op@ + " "@ + x1 + ", "@ + x2, "\n"@);
        },
        Asm::Retq => {},
        Asm::Cfg(labl, codes) => {
            lemma_mangled_paren_free(labl@);
            lemma_paren_free_balanced(mangled(labl@));
            lemma_asm_concat_balanced(codes@);
            lemma_paren_concat(mangled(labl@), ":\n"@);
            lemma_paren_concat(mangled(labl@) + ":\n"@, asm_concat(codes@));
        },
        Asm::Jmp(target) => {
            match *target {
                Asm::Label(s) => {
                    assert(paren_free(s@)) by {
                        reveal_with_fuel(asm_clean, 2);
                    }
                    lemma_mangled_paren_free(s@);
                    lemma_paren_free_balanced(mangled(s@));
                    lemma_paren_concat("\tjmp "@, mangled(s@));
                    lemma_paren_concat("\tjmp "@ + mangled(s@), "\n"@);
                },
                _ => {
                    lemma_asm_text_balanced(*target);
                    lemma_paren_concat("\tjmp *"@, asm_text(*target));
                    lemma_paren_concat("\tjmp *"@ + asm_text(*target), "\n"@);
                },
            }
        },
        Asm::Jmpif(cc, target) => {
            lemma_paren_free_balanced(cc@);
            match *target {
                Asm::Label(s) => {
                    assert(paren_free(s@)) by {
                        reveal_with_fuel(asm_clean, 2);
                    }
                    lemma_mangled_paren_free(s@);
                    lemma_paren_free_balanced(mangled(s@));
                    lemma_paren_concat("\tj"@, cc@);
                    lemma_paren_concat("\tj"@ + cc@, " "@);
                    lemma_paren_concat("\tj"@ + cc@ + " "@, mangled(s@));
                    lemma_paren_concat("\tj"@ + cc@ + " "@ + mangled(s@), "\n"@);
                },
                _ => {
                    lemma_asm_text_balanced(*target);
                    lemma_paren_concat("\tj"@, cc@);
                    lemma_paren_concat("\tj"@ + cc@, " *"@);
                    lemma_paren_concat("\tj"@ + cc@ + " *"@, asm_text(*target));
                    lemma_paren_concat("\tj"@ + cc@ + " *"@ + asm_text(*target), "\n"@);
                },
            }
        },
        Asm::Prog(cfgs) => {
            lemma_asm_concat_nl_balanced(cfgs@);
        },
        Asm::Push(a) => {
            lemma_asm_text_balanced(*a);
            lemma_paren_concat("\tpushq "@, asm_text(*a));
            lemma_paren_concat("\tpushq "@ + asm_text(*a), "\n"@);
        },
        Asm::Pop(a) => {
            lemma_asm_text_balanced(*a);
            lemma_paren_concat("\tpopq "@, asm_text(*a));
            lemma_paren_concat("\tpopq "@ + asm_text(*a), "\n"@);
        },
        Asm::Code(codes) => {
            lemma_asm_concat_balanced(codes@);
        },
        _ => {},
    }
}

/// Rendering is deterministic: the text is a function of the tree alone,
/// so rendering one tree value twice yields byte-identical output.
pub proof fn lemma_asm_text_deterministic(t1: Asm, t2: Asm)
    requires
        t1 == t2,
    ensures
        asm_text(t1) == asm_text(t2),
{
}

} // verus!
