//! The runtime code read as text: the lines of the text are the lines of
//! the model, so what the laws state of labels holds of the emitted text.

use vstd::prelude::*;
use crate::laws::{interface_symbols, lemma_exports_are_defined, lemma_labels_defined_once};
use crate::linkage::{lemma_runtime_all, lemma_section_names_distinct, lemma_symbol_fingerprints};
use crate::listing::{
    all_lines, defines, labels_unique, lemma_decimal_one_line, lemma_lines_of_text_unique,
    lemma_one_line_concat, lemma_render_is_join, line_text, line_texts, lines_of_text, one_line,
    render, AsmLine,
};
use crate::decimal::{canonical_decimal, lemma_decimal_canonical};
use crate::runtime::{
    exit_lines, banner_lines, exported_symbols, globals_lines, runtime_lines, runtime_routines,
    RuntimeEmitter, WindowsRuntimeEmitter, claim_routine, print_bool_routine, print_double_routine, print_int_routine,
    print_string_routine, purge_routine, routine_lines, rt_init_routine,
};

verus! {

/// A line of the runtime code read as text: it holds no line feed, and
/// unless it defines a label it neither begins with `_` nor with `.`.
pub open spec fn plain_text_line(l: AsmLine) -> bool {
    &&& one_line(line_text(l))
    &&& !(l is Label) ==> (line_text(l).len() == 0 || (line_text(l)[0] != '_' && line_text(l)[0]
        != '.'))
}

pub open spec fn plain_text_lines() -> spec_fn(AsmLine) -> bool {
    |l: AsmLine| plain_text_line(l)
}

/// Each line of each routine, read as text, holds no line feed, and begins
/// with `_` or `.` only where it defines a label.
#[verifier::spinoff_prover]
proof fn lemma_routine_text(k: int)
    requires
        0 <= k < 7,
    ensures
        all_lines(routine_lines(runtime_routines()[k]), plain_text_lines()),
{
    broadcast use lemma_one_line_concat, lemma_decimal_one_line;
    let rl = routine_lines(runtime_routines()[k]);
    if k == 0 {
        assert(runtime_routines()[k] == rt_init_routine());
        reveal_strlit(" ");
        reveal_strlit("    ");
        reveal_strlit("    ; Cache STD_OUTPUT_HANDLE (-11)");
        reveal_strlit("    ; Cache default Process Heap handle");
        reveal_strlit("    add rsp, ");
        reveal_strlit("    call ");
        reveal_strlit("    mov [");
        reveal_strlit("    mov ecx, -11");
        reveal_strlit("    mov rbp, rsp");
        reveal_strlit("    pop rbp");
        reveal_strlit("    push rbp");
        reveal_strlit("    ret");
        reveal_strlit("    sub rsp, ");
        reveal_strlit(" + ");
        reveal_strlit(":");
        reveal_strlit("GetProcessHeap");
        reveal_strlit("GetStdHandle");
        reveal_strlit("], rax");
        reveal_strlit("__axiom_hHeap");
        reveal_strlit("__axiom_hStdOut");
        reveal_strlit("__axiom_rt_init");
        assert forall|i: int| 0 <= i < rl.len() implies #[trigger] plain_text_line(rl[i]) by {
            assert(one_line(line_text(rl[i])));
        }
    } else if k == 1 {
        assert(runtime_routines()[k] == claim_routine());
        reveal_strlit(" ");
        reveal_strlit("    ");
        reveal_strlit("    add rsp, ");
        reveal_strlit("    call ");
        reveal_strlit("    mov edx, 8");
        reveal_strlit("    mov r8, rcx");
        reveal_strlit("    mov rbp, rsp");
        reveal_strlit("    mov rcx, [");
        reveal_strlit("    pop rbp");
        reveal_strlit("    push rbp");
        reveal_strlit("    ret");
        reveal_strlit("    sub rsp, ");
        reveal_strlit(" + ");
        reveal_strlit(":");
        reveal_strlit("; __axiom_claim(rcx: size) -> rax: pointer");
        reveal_strlit("HeapAlloc");
        reveal_strlit("]");
        reveal_strlit("__axiom_claim");
        reveal_strlit("__axiom_hHeap");
        assert forall|i: int| 0 <= i < rl.len() implies #[trigger] plain_text_line(rl[i]) by {
            assert(one_line(line_text(rl[i])));
        }
    } else if k == 2 {
        assert(runtime_routines()[k] == purge_routine());
        reveal_strlit(" ");
        reveal_strlit("    ");
        reveal_strlit("    add rsp, ");
        reveal_strlit("    call ");
        reveal_strlit("    mov r8, rcx");
        reveal_strlit("    mov rbp, rsp");
        reveal_strlit("    mov rcx, [");
        reveal_strlit("    pop rbp");
        reveal_strlit("    push rbp");
        reveal_strlit("    ret");
        reveal_strlit("    sub rsp, ");
        reveal_strlit("    test rcx, rcx");
        reveal_strlit("    xor edx, edx");
        reveal_strlit(" + ");
        reveal_strlit(".free_done");
        reveal_strlit(":");
        reveal_strlit("; __axiom_purge(rcx: pointer)");
        reveal_strlit("HeapFree");
        reveal_strlit("]");
        reveal_strlit("__axiom_hHeap");
        reveal_strlit("__axiom_purge");
        reveal_strlit("jz");
        assert forall|i: int| 0 <= i < rl.len() implies #[trigger] plain_text_line(rl[i]) by {
            assert(one_line(line_text(rl[i])));
        }
    } else if k == 3 {
        assert(runtime_routines()[k] == print_int_routine());
        reveal_strlit(" ");
        reveal_strlit("    ");
        reveal_strlit("    add dl, '0'");
        reveal_strlit("    add rsp, ");
        reveal_strlit("    call ");
        reveal_strlit("    dec rdi");
        reveal_strlit("    div rbx");
        reveal_strlit("    lea r9, [");
        reveal_strlit("    lea rax, [");
        reveal_strlit("    lea rdi, [");
        reveal_strlit("    mov [rdi], dl");
        reveal_strlit("    mov byte [rdi - 1], 10");
        reveal_strlit("    mov byte [rdi - 2], 13");
        reveal_strlit("    mov byte [rdi], '-'");
        reveal_strlit("    mov byte [rdi], 0");
        reveal_strlit("    mov qword [rsp + 32], 0");
        reveal_strlit("    mov r8, rax");
        reveal_strlit("    mov r8b, 1");
        reveal_strlit("    mov rax, rcx");
        reveal_strlit("    mov rbp, rsp");
        reveal_strlit("    mov rbx, 10");
        reveal_strlit("    mov rcx, [");
        reveal_strlit("    mov rdx, rdi");
        reveal_strlit("    neg rax");
        reveal_strlit("    pop rbp");
        reveal_strlit("    push rbp");
        reveal_strlit("    ret");
        reveal_strlit("    sub rax, rdi");
        reveal_strlit("    sub rdi, 2");
        reveal_strlit("    sub rsp, ");
        reveal_strlit("    test r8b, r8b");
        reveal_strlit("    test rax, rax");
        reveal_strlit("    xor edx, edx");
        reveal_strlit("    xor r8b, r8b");
        reveal_strlit(" + ");
        reveal_strlit(".int_loop");
        reveal_strlit(".int_pos");
        reveal_strlit(".int_write");
        reveal_strlit(":");
        reveal_strlit("; __axiom_print_int(rcx: int64)");
        reveal_strlit("WriteFile");
        reveal_strlit("]");
        reveal_strlit("__axiom_bytes_written");
        reveal_strlit("__axiom_hStdOut");
        reveal_strlit("__axiom_print_buf");
        reveal_strlit("__axiom_print_int");
        reveal_strlit("jmp");
        reveal_strlit("jns");
        reveal_strlit("jnz");
        reveal_strlit("jz");
        assert forall|i: int| 0 <= i < rl.len() implies #[trigger] plain_text_line(rl[i]) by {
            assert(one_line(line_text(rl[i])));
        }
    } else if k == 4 {
        assert(runtime_routines()[k] == print_string_routine());
        reveal_strlit(" ");
        reveal_strlit("    ");
        reveal_strlit("    ; Print CRLF");
        reveal_strlit("    add rsp, ");
        reveal_strlit("    call ");
        reveal_strlit("    cmp byte [rsi + r8], 0");
        reveal_strlit("    inc r8");
        reveal_strlit("    lea r9, [");
        reveal_strlit("    lea rdx, [");
        reveal_strlit("    mov qword [rsp + 32], 0");
        reveal_strlit("    mov r8, ");
        reveal_strlit("    mov rbp, rsp");
        reveal_strlit("    mov rcx, [");
        reveal_strlit("    mov rdx, rsi");
        reveal_strlit("    mov rsi, rcx");
        reveal_strlit("    pop rbp");
        reveal_strlit("    push rbp");
        reveal_strlit("    ret");
        reveal_strlit("    sub rsp, ");
        reveal_strlit("    test rcx, rcx");
        reveal_strlit("    xor r8, r8");
        reveal_strlit(" + ");
        reveal_strlit(".str_done");
        reveal_strlit(".str_len");
        reveal_strlit(".str_write");
        reveal_strlit(":");
        reveal_strlit("; __axiom_print_string(rcx: const char*)");
        reveal_strlit("WriteFile");
        reveal_strlit("]");
        reveal_strlit("__axiom_bytes_written");
        reveal_strlit("__axiom_crlf");
        reveal_strlit("__axiom_hStdOut");
        reveal_strlit("__axiom_print_string");
        reveal_strlit("je");
        reveal_strlit("jmp");
        reveal_strlit("jz");
        assert forall|i: int| 0 <= i < rl.len() implies #[trigger] plain_text_line(rl[i]) by {
            assert(one_line(line_text(rl[i])));
        }
    } else if k == 5 {
        assert(runtime_routines()[k] == print_bool_routine());
        reveal_strlit(" ");
        reveal_strlit("    ");
        reveal_strlit("    add rsp, ");
        reveal_strlit("    call ");
        reveal_strlit("    lea r9, [");
        reveal_strlit("    lea rdx, [");
        reveal_strlit("    mov qword [rsp + 32], 0");
        reveal_strlit("    mov r8, ");
        reveal_strlit("    mov rbp, rsp");
        reveal_strlit("    mov rcx, [");
        reveal_strlit("    pop rbp");
        reveal_strlit("    push rbp");
        reveal_strlit("    ret");
        reveal_strlit("    sub rsp, ");
        reveal_strlit("    test rcx, rcx");
        reveal_strlit(" + ");
        reveal_strlit(".bool_no");
        reveal_strlit(".bool_print");
        reveal_strlit(":");
        reveal_strlit("; __axiom_print_bool(rcx: bool flag)");
        reveal_strlit("WriteFile");
        reveal_strlit("]");
        reveal_strlit("__axiom_bytes_written");
        reveal_strlit("__axiom_hStdOut");
        reveal_strlit("__axiom_print_bool");
        reveal_strlit("__axiom_str_no");
        reveal_strlit("__axiom_str_yes");
        reveal_strlit("jmp");
        reveal_strlit("jz");
        assert forall|i: int| 0 <= i < rl.len() implies #[trigger] plain_text_line(rl[i]) by {
            assert(one_line(line_text(rl[i])));
        }
    } else if k == 6 {
        assert(runtime_routines()[k] == print_double_routine());
        reveal_strlit(" ");
        reveal_strlit("    ");
        reveal_strlit("    add rsp, ");
        reveal_strlit("    call ");
        reveal_strlit("    cvttsd2si rcx, xmm0");
        reveal_strlit("    mov rbp, rsp");
        reveal_strlit("    pop rbp");
        reveal_strlit("    push rbp");
        reveal_strlit("    ret");
        reveal_strlit("    sub rsp, ");
        reveal_strlit(" + ");
        reveal_strlit(":");
        reveal_strlit("; __axiom_print_double(xmm0: double)");
        reveal_strlit("__axiom_print_double");
        reveal_strlit("__axiom_print_int");
        assert forall|i: int| 0 <= i < rl.len() implies #[trigger] plain_text_line(rl[i]) by {
            assert(one_line(line_text(rl[i])));
        }
    }
}

proof fn lemma_banner_text()
    ensures
        all_lines(banner_lines(), plain_text_lines()),
{
    reveal_strlit("; ===================================================================");
    reveal_strlit("; Axiom Runtime Library - Windows x64 Native Implementation");
    reveal_strlit("; Freestanding / Zero C Runtime");
}

proof fn lemma_runtime_plain()
    ensures
        all_lines(runtime_lines(), plain_text_lines()),
{
    lemma_banner_text();
    assert forall|k: int| 0 <= k < 7 implies all_lines(
        routine_lines(#[trigger] runtime_routines()[k]),
        plain_text_lines(),
    ) by {
        lemma_routine_text(k);
    }
    lemma_runtime_all(plain_text_lines());
}

/// The text of a listing whose lines each hold no line feed consists of the
/// texts of its lines, and of no other lines.
proof fn lemma_listing_text(lines: Seq<AsmLine>)
    requires
        forall|i: int| 0 <= i < lines.len() ==> one_line(line_text(#[trigger] lines[i])),
    ensures
        lines_of_text(render(lines), line_texts(lines)),
        forall|ls: Seq<Seq<char>>|
            lines_of_text(render(lines), ls) ==> ls == line_texts(lines),
{
    lemma_render_is_join(lines);
    assert forall|i: int| 0 <= i < line_texts(lines).len() implies one_line(
        #[trigger] line_texts(lines)[i],
    ) by {
        assert(line_texts(lines)[i] == line_text(lines[i]));
    }
    assert forall|ls: Seq<Seq<char>>| lines_of_text(render(lines), ls) implies ls == line_texts(
        lines,
    ) by {
        lemma_lines_of_text_unique(render(lines), ls, line_texts(lines));
    }
}

/// `x` is exactly one of the lines `ls`.
pub open spec fn exactly_one_line(ls: Seq<Seq<char>>, x: Seq<char>) -> bool {
    &&& exists|i: int| 0 <= i < ls.len() && #[trigger] ls[i] == x
    &&& forall|i: int, j: int|
        0 <= i < ls.len() && 0 <= j < ls.len() && #[trigger] ls[i] == x && #[trigger] ls[j] == x
            ==> i == j
}

proof fn lemma_symbol_line_once(s: Seq<char>)
    requires
        s.len() > 0,
        s[0] == '_',
        defines(runtime_lines(), s),
        labels_unique(runtime_lines()),
        all_lines(runtime_lines(), plain_text_lines()),
    ensures
        exactly_one_line(line_texts(runtime_lines()), s + ":"@),
{
    reveal_strlit(":");
    let rl = runtime_lines();
    let ls = line_texts(rl);
    let x = s + ":"@;
    let j = choose|j: int| 0 <= j < rl.len() && rl[j] == AsmLine::Label(s);
    assert(ls[j] == x);
    assert forall|i: int| 0 <= i < ls.len() && #[trigger] ls[i] == x implies rl[i] == AsmLine::Label(s) by {
        assert(ls[i] == line_text(rl[i]));
        assert(plain_text_line(rl[i]));
        assert(x[0] == '_');
        if let AsmLine::Label(n) = rl[i] {
            assert(n =~= x.drop_last());
            assert(s =~= x.drop_last());
        }
    }
    assert forall|i: int, k: int|
        0 <= i < ls.len() && 0 <= k < ls.len() && #[trigger] ls[i] == x && #[trigger] ls[k] == x
            implies i == k by {
        assert(rl[i] == AsmLine::Label(s));
        assert(rl[k] == AsmLine::Label(s));
        if i < k {
            assert(rl[i] != rl[k]);
        } else if k < i {
            assert(rl[k] != rl[i]);
        }
    }
}

proof fn lemma_runtime_one_line_each()
    ensures
        forall|i: int| 0 <= i < runtime_lines().len() ==> one_line(line_text(#[trigger] runtime_lines()[i])),
{
    lemma_runtime_plain();
    assert forall|i: int| 0 <= i < runtime_lines().len() implies one_line(
        line_text(#[trigger] runtime_lines()[i]),
    ) by {
        assert(plain_text_line(runtime_lines()[i]));
    }
}

proof fn lemma_exported_lines_once()
    ensures
        forall|k: int|
            0 <= k < exported_symbols().len() ==> exactly_one_line(
                line_texts(runtime_lines()),
                #[trigger] exported_symbols()[k] + ":"@,
            ),
{
    lemma_runtime_plain();
    lemma_labels_defined_once();
    lemma_exports_are_defined();
    lemma_symbol_fingerprints();
    assert forall|k: int| 0 <= k < exported_symbols().len() implies exactly_one_line(
        line_texts(runtime_lines()),
        #[trigger] exported_symbols()[k] + ":"@,
    ) by {
        lemma_symbol_line_once(exported_symbols()[k]);
    }
}

/// Read as text, the runtime code consists of the texts of its lines, one
/// per line, and of no other lines; and each symbol that the runtime exports
/// (the six routines that the emitter interface names, and the
/// initialisation routine) is defined by exactly one line of that text: the
/// symbol followed by `:`.
pub proof fn lemma_runtime_text_lines(e: &WindowsRuntimeEmitter)
    ensures
        lines_of_text(render(e.runtime_listing()), line_texts(runtime_lines())),
        forall|ls: Seq<Seq<char>>|
            lines_of_text(render(e.runtime_listing()), ls) ==> ls == line_texts(runtime_lines()),
        forall|k: int|
            0 <= k < exported_symbols().len() ==> exactly_one_line(
                line_texts(runtime_lines()),
                #[trigger] exported_symbols()[k] + ":"@,
            ),
        forall|k: int|
            0 <= k < interface_symbols(e).len() ==> exported_symbols().contains(
                #[trigger] interface_symbols(e)[k],
            ),
{
    lemma_runtime_one_line_each();
    lemma_listing_text(runtime_lines());
    lemma_exported_lines_once();
    assert forall|k: int| 0 <= k < interface_symbols(e).len() implies exported_symbols().contains(
        #[trigger] interface_symbols(e)[k],
    ) by {
        assert(exported_symbols()[k + 1] == interface_symbols(e)[k]);
    }
}

/// Read as text, the export section consists of the texts of its lines:
/// a comment, `global X` for each of the seven symbols that the runtime
/// exports, all different, and a blank line.
pub proof fn lemma_globals_text_lines(e: &WindowsRuntimeEmitter)
    ensures
        lines_of_text(render(e.globals_listing()), line_texts(globals_lines())),
        forall|ls: Seq<Seq<char>>|
            lines_of_text(render(e.globals_listing()), ls) ==> ls == line_texts(globals_lines()),
        line_texts(globals_lines()).len() == exported_symbols().len() + 2,
        line_texts(globals_lines())[0][0] == ';',
        line_texts(globals_lines())[exported_symbols().len() + 1int].len() == 0,
        forall|k: int|
            0 <= k < exported_symbols().len() ==> line_texts(globals_lines())[k + 1] == "global "@
                + #[trigger] exported_symbols()[k],
        forall|i: int, j: int|
            0 <= i < j < exported_symbols().len() ==> #[trigger] exported_symbols()[i]
                != #[trigger] exported_symbols()[j],
{
    broadcast use lemma_one_line_concat;
    reveal_strlit("; --- Axiom Runtime Exported Functions ---");
    reveal_strlit("global ");
    reveal_strlit("__axiom_rt_init");
    reveal_strlit("__axiom_claim");
    reveal_strlit("__axiom_purge");
    reveal_strlit("__axiom_print_int");
    reveal_strlit("__axiom_print_double");
    reveal_strlit("__axiom_print_string");
    reveal_strlit("__axiom_print_bool");
    let g = globals_lines();
    assert forall|i: int| 0 <= i < g.len() implies one_line(line_text(#[trigger] g[i])) by {
    }
    lemma_listing_text(g);
    lemma_section_names_distinct();
    assert forall|i: int, j: int|
        0 <= i < j < exported_symbols().len() implies #[trigger] exported_symbols()[i]
            != #[trigger] exported_symbols()[j] by {
        assert(crate::linkage::defined_symbols()[i] == exported_symbols()[i]);
        assert(crate::linkage::defined_symbols()[j] == exported_symbols()[j]);
    }
    assert forall|k: int| 0 <= k < exported_symbols().len() implies line_texts(globals_lines())[k + 1]
        == "global "@ + #[trigger] exported_symbols()[k] by {
        assert(g[k + 1] == AsmLine::Global(exported_symbols()[k]));
    }
}

/// The exit code, read as text, is three lines and no others: a comment (a
/// `;` after four spaces of indentation), the load into `ecx` of the exit
/// code written in canonical decimal, exactly as Rust displays it, and the
/// call of `ExitProcess`. No instruction stands before the load or between
/// the load and the call, so the process ends through ExitProcess with the
/// code that was given.
pub proof fn lemma_exit_sequence(e: &WindowsRuntimeEmitter, code: i32)
    ensures
        lines_of_text(render(e.exit_listing(code)), line_texts(e.exit_listing(code))),
        forall|ls: Seq<Seq<char>>|
            lines_of_text(render(e.exit_listing(code)), ls) ==> ls == line_texts(e.exit_listing(code)),
        line_texts(e.exit_listing(code)).len() == 3,
        line_texts(e.exit_listing(code))[0].len() > 4,
        line_texts(e.exit_listing(code))[0].subrange(0, 4) == "    "@,
        line_texts(e.exit_listing(code))[0][4] == ';',
        line_texts(e.exit_listing(code))[1].len() >= 13,
        line_texts(e.exit_listing(code))[1].subrange(0, 13) == "    mov ecx, "@,
        canonical_decimal(line_texts(e.exit_listing(code))[1].skip(13), code as int),
        line_texts(e.exit_listing(code))[2] == "    call ExitProcess"@,
        e.exit_listing(code)[0] is Text,
        e.exit_listing(code)[2] == AsmLine::Call("ExitProcess"@),
{
    broadcast use lemma_one_line_concat, lemma_decimal_one_line;
    reveal_strlit("    ; Exit process via Windows API");
    reveal_strlit("    mov ecx, ");
    reveal_strlit("    call ");
    reveal_strlit("ExitProcess");
    reveal_strlit("    call ExitProcess");
    reveal_strlit("    ");
    let lines = exit_lines(code);
    assert forall|i: int| 0 <= i < lines.len() implies one_line(line_text(#[trigger] lines[i])) by {
    }
    lemma_listing_text(lines);
    let ls = line_texts(lines);
    assert(ls[0] == "    ; Exit process via Windows API"@);
    assert(ls[1] == "    mov ecx, "@ + crate::decimal::decimal(code as int));
    assert(ls[1].subrange(0, 13) =~= "    mov ecx, "@);
    assert(ls[1].skip(13) =~= crate::decimal::decimal(code as int));
    lemma_decimal_canonical(code as int);
    assert(ls[0].subrange(0, 4) =~= "    "@);
    assert(ls[2] =~= "    call ExitProcess"@);
}

} // verus!
