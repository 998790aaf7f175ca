use ir_syntax::assembly::Asm;

#[test]
fn op2_renders_tab_mnemonic_src_dst_newline() {
    let t = Asm::Op2(
        String::from("movq"),
        Box::new(Asm::Imm(5)),
        Box::new(Asm::RAX),
    );
    assert_eq!(t.render(), "\tmovq $5, %rax\n");
}

#[test]
fn direct_jump_mangles_and_indirect_jump_stars() {
    let d = Asm::Jmp(Box::new(Asm::Label(String::from("loop-start"))));
    assert_eq!(d.render(), "\tjmp loop_start\n");
    let i = Asm::Jmp(Box::new(Asm::RAX));
    assert_eq!(i.render(), "\tjmp *%rax\n");
}

#[test]
fn registers_render_with_percent_prefix() {
    assert_eq!(Asm::RSP.render(), "%rsp");
    assert_eq!(Asm::RBP.render(), "%rbp");
    assert_eq!(Asm::RAX.render(), "%rax");
    assert_eq!(Asm::RBX.render(), "%rbx");
    assert_eq!(Asm::RCX.render(), "%rcx");
    assert_eq!(Asm::RDX.render(), "%rdx");
    assert_eq!(Asm::RSI.render(), "%rsi");
    assert_eq!(Asm::RDI.render(), "%rdi");
    assert_eq!(Asm::R8.render(), "%r8");
    assert_eq!(Asm::R9.render(), "%r9");
    assert_eq!(Asm::R10.render(), "%r10");
    assert_eq!(Asm::R11.render(), "%r11");
    assert_eq!(Asm::R12.render(), "%r12");
    assert_eq!(Asm::R13.render(), "%r13");
    assert_eq!(Asm::R14.render(), "%r14");
    assert_eq!(Asm::R15.render(), "%r15");
    assert_eq!(Asm::RIP.render(), "%rip");
}

#[test]
fn label_mangling_replaces_all_three_specials() {
    let t = Asm::Label(String::from("do-it?-now!"));
    assert_eq!(t.render(), "do_itq_nowl");
    let keep = Asm::Label(String::from("plain$label.3"));
    assert_eq!(keep.render(), "plain$label.3");
}

#[test]
fn mangled_output_never_holds_the_specials() {
    let names = ["a-b?c!d", "---", "???", "!!!", "x", ""];
    for n in names {
        let out = Asm::Label(String::from(n)).render();
        assert!(!out.contains('-'));
        assert!(!out.contains('?'));
        assert!(!out.contains('!'));
        assert_eq!(out.len(), n.len());
    }
}

#[test]
fn addressing_modes_render_att_syntax() {
    let d = Asm::Deref(Box::new(Asm::RBP), -16);
    assert_eq!(d.render(), "-16(%rbp)");
    let dl = Asm::DerefLabel(
        Box::new(Asm::RIP),
        Box::new(Asm::Label(String::from("table-start"))),
    );
    assert_eq!(dl.render(), "table_start(%rip)");
    let dr = Asm::DerefRegister(Box::new(Asm::RAX), Box::new(Asm::RBX));
    assert_eq!(dr.render(), "(%rax,%rbx)");
}

#[test]
fn conditional_jump_mangles_its_direct_label() {
    let d = Asm::Jmpif(
        String::from("e"),
        Box::new(Asm::Label(String::from("x-y"))),
    );
    assert_eq!(d.render(), "\tje x_y\n");
    let i = Asm::Jmpif(String::from("ne"), Box::new(Asm::RAX));
    assert_eq!(i.render(), "\tjne *%rax\n");
}

#[test]
fn stack_ops_and_return_render_as_lines() {
    assert_eq!(Asm::Retq.render(), "\tretq\n");
    assert_eq!(Asm::Push(Box::new(Asm::RAX)).render(), "\tpushq %rax\n");
    assert_eq!(Asm::Pop(Box::new(Asm::RBX)).render(), "\tpopq %rbx\n");
}

#[test]
fn cfg_renders_label_line_then_instructions() {
    let t = Asm::Cfg(
        String::from("main-loop"),
        vec![
            Asm::Op2(String::from("movq"), Box::new(Asm::Imm(1)), Box::new(Asm::RAX)),
            Asm::Retq,
        ],
    );
    assert_eq!(t.render(), "main_loop:\n\tmovq $1, %rax\n\tretq\n");
}

#[test]
fn prog_separates_blocks_with_blank_lines() {
    let t = Asm::Prog(vec![
        Asm::Cfg(String::from("a"), vec![Asm::Retq]),
        Asm::Cfg(String::from("b"), vec![Asm::Retq]),
    ]);
    assert_eq!(t.render(), "a:\n\tretq\n\nb:\n\tretq\n\n");
}

#[test]
fn code_splices_instruction_runs_bare() {
    let t = Asm::Code(vec![
        Asm::Push(Box::new(Asm::RBP)),
        Asm::Pop(Box::new(Asm::RBP)),
    ]);
    assert_eq!(t.render(), "\tpushq %rbp\n\tpopq %rbp\n");
    assert_eq!(Asm::Code(vec![]).render(), "");
}

#[test]
fn immediates_render_decimal_at_both_extremes() {
    assert_eq!(Asm::Imm(0).render(), "$0");
    assert_eq!(Asm::Imm(-1).render(), "$-1");
    assert_eq!(Asm::Imm(i64::MAX).render(), "$9223372036854775807");
    assert_eq!(Asm::Imm(i64::MIN).render(), "$-9223372036854775808");
}

#[test]
fn asm_rendering_twice_is_byte_identical() {
    let t = Asm::Prog(vec![Asm::Cfg(
        String::from("f-g?"),
        vec![
            Asm::Op2(String::from("addq"), Box::new(Asm::Imm(2)), Box::new(Asm::RBX)),
            Asm::Jmp(Box::new(Asm::Label(String::from("f-g?")))),
        ],
    )]);
    assert_eq!(t.render(), t.render());
}
