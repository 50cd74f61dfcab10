//! How the sections of the Windows runtime fit together when they are
//! assembled into one object: what the code reads and writes is stored in
//! the data or bss section, the strings it prints have the lengths it
//! passes, every name is defined once across sections, and every call goes
//! to kernel32.dll or to the runtime itself.

use vstd::prelude::*;
use crate::decimal::decimal;
use crate::laws::{
    interface_symbols, lemma_labels_defined_once, lemma_references_resolve,
    lemma_runtime_prefix_full, runtime_label_names, runtime_prefix,
};
use crate::listing::{all_lines, calls_resolve, defines, lemma_all_lines_concat, reserved_bytes, AsmLine};
use crate::runtime::{
    banner_lines, bss_lines, bss_names, claim_routine, data_lines, data_names, doc_lines,
    entry_lines, exit_frame_lines, exported_symbols, imported_functions, print_bool_routine,
    print_double_routine, print_int_routine, print_string_routine, purge_routine,
    routine_lines, rt_init_routine, runtime_lines, runtime_routines, Routine, exit_lines,
    externs_lines, prologue_lines, rt_init_name, RuntimeEmitter, WindowsRuntimeEmitter,
};

verus! {

/// A routine has a property on every line when its body has it and the
/// lines around the body (comments, labels, frame set-up) have it.
proof fn lemma_routine_all(r: Routine, p: spec_fn(AsmLine) -> bool)
    requires
        all_lines(r.body, p),
        forall|t: Seq<char>| #[trigger] p(AsmLine::Text(t)),
        forall|n: Seq<char>| #[trigger] p(AsmLine::Label(n)),
        p(AsmLine::Blank),
    ensures
        all_lines(routine_lines(r), p),
{
    let d = doc_lines(r.doc);
    let en = entry_lines(r.name, r.frame);
    let ex = exit_frame_lines(r.frame);
    assert(p(en[0]));
    assert(p(en[3]));
    assert(p(ex[0]));
    assert(all_lines(d, p));
    assert(all_lines(en, p));
    assert(all_lines(ex, p));
    lemma_all_lines_concat(d, en, p);
    lemma_all_lines_concat(d + en, r.body, p);
    lemma_all_lines_concat(d + en + r.body, ex, p);
}

proof fn lemma_prefix_all(n: nat, p: spec_fn(AsmLine) -> bool)
    requires
        n <= 7,
        all_lines(banner_lines(), p),
        forall|k: int| 0 <= k < 7 ==> all_lines(routine_lines(#[trigger] runtime_routines()[k]), p),
    ensures
        all_lines(runtime_prefix(n), p),
    decreases n,
{
    if n > 0 {
        lemma_prefix_all((n - 1) as nat, p);
        assert(all_lines(routine_lines(runtime_routines()[n - 1]), p));
        lemma_all_lines_concat(runtime_prefix((n - 1) as nat), routine_lines(runtime_routines()[n - 1]), p);
    }
}

/// A property of every line of the banner and of every routine holds of
/// every line of the runtime code.
pub(crate) proof fn lemma_runtime_all(p: spec_fn(AsmLine) -> bool)
    requires
        all_lines(banner_lines(), p),
        forall|k: int| 0 <= k < 7 ==> all_lines(routine_lines(#[trigger] runtime_routines()[k]), p),
    ensures
        all_lines(runtime_lines(), p),
{
    lemma_prefix_all(7, p);
    lemma_runtime_prefix_full();
}

/// The symbols of the runtime (its routines, its data and its bss) have
/// these lengths and characters.
pub(crate) proof fn lemma_symbol_fingerprints()
    ensures
        ".free_done"@.len() == 10 && ".free_done"@[0] == '.',
        ".int_pos"@.len() == 8 && ".int_pos"@[0] == '.',
        ".int_loop"@.len() == 9 && ".int_loop"@[0] == '.',
        ".int_write"@.len() == 10 && ".int_write"@[0] == '.',
        ".str_len"@.len() == 8 && ".str_len"@[0] == '.',
        ".str_write"@.len() == 10 && ".str_write"@[0] == '.',
        ".str_done"@.len() == 9 && ".str_done"@[0] == '.',
        ".bool_no"@.len() == 8 && ".bool_no"@[0] == '.',
        ".bool_print"@.len() == 11 && ".bool_print"@[0] == '.',
        "GetProcessHeap"@.len() == 14 && "GetProcessHeap"@[0] == 'G',
        "HeapAlloc"@.len() == 9 && "HeapAlloc"@[0] == 'H',
        "HeapFree"@.len() == 8 && "HeapFree"@[0] == 'H',
        "GetStdHandle"@.len() == 12 && "GetStdHandle"@[0] == 'G',
        "WriteFile"@.len() == 9 && "WriteFile"@[0] == 'W',
        "ExitProcess"@.len() == 11 && "ExitProcess"@[0] == 'E',
        "malloc"@.len() == 6 && "malloc"@[0] == 'm',
        "calloc"@.len() == 6 && "calloc"@[0] == 'c',
        "realloc"@.len() == 7 && "realloc"@[0] == 'r',
        "free"@.len() == 4 && "free"@[0] == 'f',
        "printf"@.len() == 6 && "printf"@[0] == 'p',
        "puts"@.len() == 4 && "puts"@[0] == 'p',
        "exit"@.len() == 4 && "exit"@[0] == 'e',
        "__axiom_rt_init"@.subrange(0, 8) == "__axiom_"@,
        "__axiom_claim"@.subrange(0, 8) == "__axiom_"@,
        "__axiom_purge"@.subrange(0, 8) == "__axiom_"@,
        "__axiom_print_int"@.subrange(0, 8) == "__axiom_"@,
        "__axiom_print_double"@.subrange(0, 8) == "__axiom_"@,
        "__axiom_print_string"@.subrange(0, 8) == "__axiom_"@,
        "__axiom_print_bool"@.subrange(0, 8) == "__axiom_"@,
        "__axiom_crlf"@.subrange(0, 8) == "__axiom_"@,
        "__axiom_str_yes"@.subrange(0, 8) == "__axiom_"@,
        "__axiom_str_no"@.subrange(0, 8) == "__axiom_"@,
        "__axiom_hHeap"@.subrange(0, 8) == "__axiom_"@,
        "__axiom_hStdOut"@.subrange(0, 8) == "__axiom_"@,
        "__axiom_bytes_written"@.subrange(0, 8) == "__axiom_"@,
        "__axiom_print_buf"@.subrange(0, 8) == "__axiom_"@,
        "__axiom_rt_init"@.len() == 15 && "__axiom_rt_init"@[0] == '_' && "__axiom_rt_init"@[8] == 'r' && "__axiom_rt_init"@[14] == 't',
        "__axiom_claim"@.len() == 13 && "__axiom_claim"@[0] == '_' && "__axiom_claim"@[8] == 'c',
        "__axiom_purge"@.len() == 13 && "__axiom_purge"@[0] == '_' && "__axiom_purge"@[8] == 'p',
        "__axiom_print_int"@.len() == 17 && "__axiom_print_int"@[0] == '_' && "__axiom_print_int"@[8] == 'p' && "__axiom_print_int"@[14] == 'i',
        "__axiom_print_double"@.len() == 20 && "__axiom_print_double"@[0] == '_' && "__axiom_print_double"@[8] == 'p' && "__axiom_print_double"@[14] == 'd',
        "__axiom_print_string"@.len() == 20 && "__axiom_print_string"@[0] == '_' && "__axiom_print_string"@[8] == 'p' && "__axiom_print_string"@[14] == 's',
        "__axiom_print_bool"@.len() == 18 && "__axiom_print_bool"@[0] == '_' && "__axiom_print_bool"@[8] == 'p' && "__axiom_print_bool"@[14] == 'b',
        "__axiom_crlf"@.len() == 12 && "__axiom_crlf"@[0] == '_' && "__axiom_crlf"@[8] == 'c',
        "__axiom_str_yes"@.len() == 15 && "__axiom_str_yes"@[0] == '_' && "__axiom_str_yes"@[8] == 's' && "__axiom_str_yes"@[14] == 's',
        "__axiom_str_no"@.len() == 14 && "__axiom_str_no"@[0] == '_' && "__axiom_str_no"@[8] == 's',
        "__axiom_hHeap"@.len() == 13 && "__axiom_hHeap"@[0] == '_' && "__axiom_hHeap"@[8] == 'h',
        "__axiom_hStdOut"@.len() == 15 && "__axiom_hStdOut"@[0] == '_' && "__axiom_hStdOut"@[8] == 'h' && "__axiom_hStdOut"@[14] == 't',
        "__axiom_bytes_written"@.len() == 21 && "__axiom_bytes_written"@[0] == '_' && "__axiom_bytes_written"@[8] == 'b' && "__axiom_bytes_written"@[14] == 'w',
        "__axiom_print_buf"@.len() == 17 && "__axiom_print_buf"@[0] == '_' && "__axiom_print_buf"@[8] == 'p' && "__axiom_print_buf"@[14] == 'b',
{
    reveal_strlit("__axiom_");
    reveal_strlit(".free_done");
    reveal_strlit(".int_pos");
    reveal_strlit(".int_loop");
    reveal_strlit(".int_write");
    reveal_strlit(".str_len");
    reveal_strlit(".str_write");
    reveal_strlit(".str_done");
    reveal_strlit(".bool_no");
    reveal_strlit(".bool_print");
    reveal_strlit("GetProcessHeap");
    reveal_strlit("HeapAlloc");
    reveal_strlit("HeapFree");
    reveal_strlit("GetStdHandle");
    reveal_strlit("WriteFile");
    reveal_strlit("ExitProcess");
    reveal_strlit("malloc");
    reveal_strlit("calloc");
    reveal_strlit("realloc");
    reveal_strlit("free");
    reveal_strlit("printf");
    reveal_strlit("puts");
    reveal_strlit("exit");
    reveal_strlit("__axiom_rt_init");
    reveal_strlit("__axiom_claim");
    reveal_strlit("__axiom_purge");
    reveal_strlit("__axiom_print_int");
    reveal_strlit("__axiom_print_double");
    reveal_strlit("__axiom_print_string");
    reveal_strlit("__axiom_print_bool");
    reveal_strlit("__axiom_crlf");
    reveal_strlit("__axiom_str_yes");
    reveal_strlit("__axiom_str_no");
    reveal_strlit("__axiom_hHeap");
    reveal_strlit("__axiom_hStdOut");
    reveal_strlit("__axiom_bytes_written");
    reveal_strlit("__axiom_print_buf");
}

/// The memory operands of the runtime code begin with these lengths and
/// characters.
proof fn lemma_operand_fingerprints()
    ensures
        "    mov ["@.len() == 9 && "    mov ["@[4] == 'm',
        "    mov rcx, ["@.len() == 14 && "    mov rcx, ["@[4] == 'm' && "    mov rcx, ["@[9] == 'c' && "    mov rcx, ["@[10] == 'x',
        "    lea rdi, ["@.len() == 14 && "    lea rdi, ["@[4] == 'l' && "    lea rdi, ["@[9] == 'd' && "    lea rdi, ["@[10] == 'i',
        "    lea rax, ["@.len() == 14 && "    lea rax, ["@[4] == 'l' && "    lea rax, ["@[9] == 'a' && "    lea rax, ["@[10] == 'x',
        "    lea r9, ["@.len() == 13 && "    lea r9, ["@[4] == 'l' && "    lea r9, ["@[9] == '9' && "    lea r9, ["@[10] == ',',
        "    lea rdx, ["@.len() == 14 && "    lea rdx, ["@[4] == 'l' && "    lea rdx, ["@[9] == 'd' && "    lea rdx, ["@[10] == 'x',
{
    reveal_strlit("    mov [");
    reveal_strlit("    mov rcx, [");
    reveal_strlit("    lea rdi, [");
    reveal_strlit("    lea rax, [");
    reveal_strlit("    lea r9, [");
    reveal_strlit("    lea rdx, [");
}

/// The bytes that `line` sets aside under `name`: a data string with its
/// CR LF, or a reservation; none for any other line or name.
pub open spec fn bytes_under(line: AsmLine, name: Seq<char>) -> int {
    match line {
        AsmLine::CrlfString(n, t) => if n == name {
            t.len() + 2int
        } else {
            0
        },
        AsmLine::Reserve(n, quad, count) => if n == name {
            reserved_bytes(quad, count)
        } else {
            0
        },
        _ => 0,
    }
}

/// Byte `offset` of `name` lies in space that the data or the bss section
/// sets aside under that name.
pub open spec fn stored(name: Seq<char>, offset: int) -> bool {
    &&& 0 <= offset
    &&& {
        ||| exists|i: int|
            0 <= i < data_lines().len() && offset < bytes_under(#[trigger] data_lines()[i], name)
        ||| exists|i: int|
            0 <= i < bss_lines().len() && offset < bytes_under(#[trigger] bss_lines()[i], name)
    }
}

/// A memory operand reaches stored bytes.
pub open spec fn operand_stored(l: AsmLine) -> bool {
    match l {
        AsmLine::Mem(_, sym, offset, _) => stored(sym, offset),
        _ => true,
    }
}

pub open spec fn operands_stored() -> spec_fn(AsmLine) -> bool {
    |l: AsmLine| operand_stored(l)
}

proof fn lemma_storage_facts()
    ensures
        stored("__axiom_hHeap"@, 0),
        stored("__axiom_hStdOut"@, 0),
        stored("__axiom_bytes_written"@, 0),
        stored("__axiom_print_buf"@, 31),
        stored("__axiom_crlf"@, 0),
        stored("__axiom_str_yes"@, 0),
        stored("__axiom_str_no"@, 0),
{
    assert(0 < bytes_under(bss_lines()[1], "__axiom_hHeap"@));
    assert(0 < bytes_under(bss_lines()[2], "__axiom_hStdOut"@));
    assert(0 < bytes_under(bss_lines()[3], "__axiom_bytes_written"@));
    assert(31 < bytes_under(bss_lines()[4], "__axiom_print_buf"@));
    assert(0 < bytes_under(data_lines()[1], "__axiom_crlf"@));
    assert(0 < bytes_under(data_lines()[2], "__axiom_str_yes"@));
    assert(0 < bytes_under(data_lines()[3], "__axiom_str_no"@));
}

/// Every memory operand of the runtime code names a symbol that the data or
/// the bss section defines, at an offset inside the space set aside for it:
/// the handles and the byte count are quadwords reserved in bss, the strings
/// it prints are in data, and the print buffer, reserved with 64 bytes, is
/// addressed at offset 31.
pub proof fn lemma_memory_operands_stored()
    ensures
        all_lines(runtime_lines(), operands_stored()),
{
    lemma_storage_facts();
    let p = operands_stored();
    assert(all_lines(banner_lines(), p));
    assert(all_lines(rt_init_routine().body, p));
    lemma_routine_all(rt_init_routine(), p);
    assert(all_lines(claim_routine().body, p));
    lemma_routine_all(claim_routine(), p);
    assert(all_lines(purge_routine().body, p));
    lemma_routine_all(purge_routine(), p);
    assert(all_lines(print_int_routine().body, p));
    lemma_routine_all(print_int_routine(), p);
    assert(all_lines(print_string_routine().body, p));
    lemma_routine_all(print_string_routine(), p);
    assert(all_lines(print_bool_routine().body, p));
    lemma_routine_all(print_bool_routine(), p);
    assert(all_lines(print_double_routine().body, p));
    lemma_routine_all(print_double_routine(), p);
    assert forall|k: int| 0 <= k < 7 implies all_lines(routine_lines(#[trigger] runtime_routines()[k]), p) by {
        if k == 0 {
            assert(runtime_routines()[k] == rt_init_routine());
        } else if k == 1 {
            assert(runtime_routines()[k] == claim_routine());
        } else if k == 2 {
            assert(runtime_routines()[k] == purge_routine());
        } else if k == 3 {
            assert(runtime_routines()[k] == print_int_routine());
        } else if k == 4 {
            assert(runtime_routines()[k] == print_string_routine());
        } else if k == 5 {
            assert(runtime_routines()[k] == print_bool_routine());
        } else {
            assert(runtime_routines()[k] == print_double_routine());
        }
    }
    lemma_runtime_all(p);
}

/// In `lines`, every load of the address of a data string into `rdx` is
/// followed by the load of that string's length in bytes into `r8`.
pub open spec fn lengths_follow_addresses(lines: Seq<AsmLine>) -> bool {
    forall|i: int, j: int|
        #![trigger lines[i], data_names()[j]]
        0 <= i < lines.len() && 0 <= j < data_names().len() && lines[i] == AsmLine::Mem(
            "    lea rdx, ["@,
            data_names()[j],
            0,
            "]"@,
        ) ==> i + 1 < lines.len() && lines[i + 1] == AsmLine::Text(
            "    mov r8, "@ + decimal(bytes_under(data_lines()[j + 1], data_names()[j])),
        )
}

/// The data strings are `\r\n`, `yes\r\n` and `no\r\n`, of 2, 5 and 4
/// bytes, each ended by the bytes 13 and 10; and in every routine the length
/// that is loaded into `r8` for `WriteFile`, right after the address of a
/// data string is loaded into `rdx`, is the length of that string.
pub proof fn lemma_printed_lengths_match()
    ensures
        data_lines()[1] == AsmLine::CrlfString(data_names()[0], ""@),
        data_lines()[2] == AsmLine::CrlfString(data_names()[1], "yes"@),
        data_lines()[3] == AsmLine::CrlfString(data_names()[2], "no"@),
        bytes_under(data_lines()[1], data_names()[0]) == 2,
        bytes_under(data_lines()[2], data_names()[1]) == 5,
        bytes_under(data_lines()[3], data_names()[2]) == 4,
        forall|k: int|
            0 <= k < runtime_routines().len() ==> lengths_follow_addresses(
                routine_lines(#[trigger] runtime_routines()[k]),
            ),
{
    reveal_strlit("");
    reveal_strlit("yes");
    reveal_strlit("no");
    lemma_symbol_fingerprints();
    lemma_operand_fingerprints();
    assert(lengths_follow_addresses(routine_lines(rt_init_routine())));
    assert(lengths_follow_addresses(routine_lines(claim_routine())));
    assert(lengths_follow_addresses(routine_lines(purge_routine())));
    assert(lengths_follow_addresses(routine_lines(print_int_routine())));
    assert(lengths_follow_addresses(routine_lines(print_string_routine())));
    assert(lengths_follow_addresses(routine_lines(print_bool_routine())));
    assert(lengths_follow_addresses(routine_lines(print_double_routine())));
    assert forall|k: int| 0 <= k < runtime_routines().len() implies lengths_follow_addresses(
        routine_lines(#[trigger] runtime_routines()[k]),
    ) by {
        if k == 0 {
            assert(runtime_routines()[k] == rt_init_routine());
        } else if k == 1 {
            assert(runtime_routines()[k] == claim_routine());
        } else if k == 2 {
            assert(runtime_routines()[k] == purge_routine());
        } else if k == 3 {
            assert(runtime_routines()[k] == print_int_routine());
        } else if k == 4 {
            assert(runtime_routines()[k] == print_string_routine());
        } else if k == 5 {
            assert(runtime_routines()[k] == print_bool_routine());
        } else {
            assert(runtime_routines()[k] == print_double_routine());
        }
    }
}

/// The names that the runtime defines across its sections: its exported
/// routines, its data strings and its bss reservations.
pub open spec fn defined_symbols() -> Seq<Seq<char>> {
    exported_symbols() + data_names() + bss_names()
}

/// Functions of the C runtime that a freestanding runtime must do without.
pub open spec fn c_runtime_names() -> Seq<Seq<char>> {
    seq!["malloc"@, "calloc"@, "realloc"@, "free"@, "printf"@, "puts"@, "exit"@]
}

/// The names that the runtime defines in its code, data and bss sections
/// all begin with `__axiom_` and are pairwise different, so the sections
/// assembled together define no name twice, and none of them is the name of
/// an imported function; every other label of the runtime code is a local
/// label, which begins with `.`.
pub proof fn lemma_section_names_distinct()
    ensures
        forall|i: int, j: int|
            0 <= i < j < defined_symbols().len() ==> #[trigger] defined_symbols()[i]
                != #[trigger] defined_symbols()[j],
        forall|i: int|
            0 <= i < defined_symbols().len() ==> (#[trigger] defined_symbols()[i]).subrange(0, 8)
                == "__axiom_"@,
        forall|i: int, j: int|
            0 <= i < defined_symbols().len() && 0 <= j < imported_functions().len()
                ==> #[trigger] defined_symbols()[i] != #[trigger] imported_functions()[j],
        forall|i: int|
            0 <= i < data_names().len() ==> data_lines()[i + 1] == AsmLine::CrlfString(
                #[trigger] data_names()[i],
                data_lines()[i + 1]->CrlfString_1,
            ),
        forall|i: int|
            0 <= i < bss_names().len() ==> bss_lines()[i + 1] == AsmLine::Reserve(
                #[trigger] bss_names()[i],
                bss_lines()[i + 1]->Reserve_1,
                bss_lines()[i + 1]->Reserve_2,
            ),
        forall|i: int|
            0 <= i < runtime_label_names().len() ==> exported_symbols().contains(
                #[trigger] runtime_label_names()[i],
            ) || runtime_label_names()[i][0] == '.',
{
    lemma_symbol_fingerprints();
    assert forall|i: int|
        0 <= i < runtime_label_names().len() implies exported_symbols().contains(
            #[trigger] runtime_label_names()[i],
        ) || runtime_label_names()[i][0] == '.' by {
        if i == 0 {
            assert(exported_symbols()[0] == runtime_label_names()[i]);
        } else if i == 1 {
            assert(exported_symbols()[1] == runtime_label_names()[i]);
        } else if i == 2 {
            assert(exported_symbols()[2] == runtime_label_names()[i]);
        } else if i == 4 {
            assert(exported_symbols()[3] == runtime_label_names()[i]);
        } else if i == 8 {
            assert(exported_symbols()[5] == runtime_label_names()[i]);
        } else if i == 12 {
            assert(exported_symbols()[6] == runtime_label_names()[i]);
        } else if i == 15 {
            assert(exported_symbols()[4] == runtime_label_names()[i]);
        }
    }
}

proof fn lemma_contains_concat(a: Seq<AsmLine>, b: Seq<AsmLine>, x: AsmLine)
    requires
        a.contains(x) || b.contains(x),
    ensures
        (a + b).contains(x),
{
    if a.contains(x) {
        let j = choose|j: int| 0 <= j < a.len() && a[j] == x;
        assert((a + b)[j] == x);
    } else {
        let j = choose|j: int| 0 <= j < b.len() && b[j] == x;
        assert((a + b)[a.len() + j] == x);
    }
}

proof fn lemma_line_in_prefix(k: nat, n: nat, x: AsmLine)
    requires
        k < n <= 7,
        routine_lines(runtime_routines()[k as int]).contains(x),
    ensures
        runtime_prefix(n).contains(x),
    decreases n,
{
    if n > k + 1 {
        lemma_line_in_prefix(k, (n - 1) as nat, x);
    }
    lemma_contains_concat(runtime_prefix((n - 1) as nat), routine_lines(runtime_routines()[n - 1]), x);
}

/// A line of one of the routines is a line of the runtime code.
proof fn lemma_line_in_runtime(k: nat, x: AsmLine)
    requires
        k < 7,
        routine_lines(runtime_routines()[k as int]).contains(x),
    ensures
        runtime_lines().contains(x),
{
    lemma_line_in_prefix(k, 7, x);
    lemma_runtime_prefix_full();
}

/// A line of the body of a routine is a line of the routine.
proof fn lemma_body_line(r: Routine, i: int)
    requires
        0 <= i < r.body.len(),
    ensures
        routine_lines(r).contains(r.body[i]),
{
    let o = doc_lines(r.doc).len() + 4;
    assert(routine_lines(r)[o + i] == r.body[i]);
}

proof fn lemma_externs_exact()
    ensures
        forall|i: int|
            0 <= i < externs_lines().len() && (#[trigger] externs_lines()[i]) is Extern
                ==> imported_functions().contains(externs_lines()[i]->Extern_0),
{
    assert forall|i: int|
        0 <= i < externs_lines().len() && (#[trigger] externs_lines()[i]) is Extern implies imported_functions().contains(
        externs_lines()[i]->Extern_0,
    ) by {
        assert(imported_functions()[i - 1] == externs_lines()[i]->Extern_0);
    }
}

proof fn lemma_import_initials()
    ensures
        forall|i: int|
            0 <= i < imported_functions().len() ==> 'A' <= (#[trigger] imported_functions()[i])[0]
                <= 'Z',
{
    lemma_symbol_fingerprints();
}

proof fn lemma_imports_called(code: i32)
    ensures
        forall|i: int|
            0 <= i < imported_functions().len() ==> runtime_lines().contains(
                AsmLine::Call(#[trigger] imported_functions()[i]),
            ) || exit_lines(code).contains(AsmLine::Call(imported_functions()[i])),
{
    assert(runtime_routines()[0] == rt_init_routine());
    assert(runtime_routines()[1] == claim_routine());
    assert(runtime_routines()[2] == purge_routine());
    assert(runtime_routines()[3] == print_int_routine());
    lemma_body_line(rt_init_routine(), 5);
    lemma_body_line(rt_init_routine(), 2);
    lemma_body_line(claim_routine(), 3);
    lemma_body_line(purge_routine(), 5);
    lemma_body_line(print_int_routine(), 34);
    lemma_line_in_runtime(0, AsmLine::Call("GetProcessHeap"@));
    lemma_line_in_runtime(0, AsmLine::Call("GetStdHandle"@));
    lemma_line_in_runtime(1, AsmLine::Call("HeapAlloc"@));
    lemma_line_in_runtime(2, AsmLine::Call("HeapFree"@));
    lemma_line_in_runtime(3, AsmLine::Call("WriteFile"@));
    assert(exit_lines(code)[2] == AsmLine::Call("ExitProcess"@));
    assert(exit_lines(code).contains(AsmLine::Call("ExitProcess"@)));
}

/// No name that begins with a lower-case letter or with an upper-case one
/// is a label of the runtime code: its labels begin with `_` or `.`.
proof fn lemma_label_initials(t: Seq<char>)
    requires
        t.len() > 0,
        t[0] != '_',
        t[0] != '.',
    ensures
        !defines(runtime_lines(), t),
{
    lemma_symbol_fingerprints();
    lemma_labels_defined_once();
    if defines(runtime_lines(), t) {
        let j = choose|j: int| 0 <= j < runtime_label_names().len() && runtime_label_names()[j] == t;
        assert(runtime_label_names()[j][0] == '_' || runtime_label_names()[j][0] == '.');
    }
}

proof fn lemma_c_name_absent(code: i32, c: Seq<char>)
    requires
        c.len() > 0,
        'a' <= c[0] <= 'z',
    ensures
        !imported_functions().contains(c),
        !defines(runtime_lines(), c),
        !runtime_lines().contains(AsmLine::Call(c)),
        !prologue_lines().contains(AsmLine::Call(c)),
        !exit_lines(code).contains(AsmLine::Call(c)),
{
    lemma_import_initials();
    lemma_label_initials(c);
    lemma_references_resolve(code);
    if imported_functions().contains(c) {
        let j = choose|j: int| 0 <= j < imported_functions().len() && imported_functions()[j] == c;
        assert('A' <= imported_functions()[j][0] <= 'Z');
    }
    if runtime_lines().contains(AsmLine::Call(c)) {
        let j = choose|j: int| 0 <= j < runtime_lines().len() && runtime_lines()[j] == AsmLine::Call(c);
        assert(crate::listing::call_resolves(runtime_lines()[j], runtime_lines(), imported_functions()));
    }
    if prologue_lines().contains(AsmLine::Call(c)) {
        let j = choose|j: int| 0 <= j < prologue_lines().len() && prologue_lines()[j] == AsmLine::Call(c);
        assert(crate::listing::call_resolves(prologue_lines()[j], runtime_lines(), imported_functions()));
    }
    if exit_lines(code).contains(AsmLine::Call(c)) {
        let j = choose|j: int| 0 <= j < exit_lines(code).len() && exit_lines(code)[j] == AsmLine::Call(c);
        assert(crate::listing::call_resolves(exit_lines(code)[j], runtime_lines(), imported_functions()));
    }
}

/// The runtime imports exactly the six kernel32.dll functions it declares,
/// whose names begin with a capital letter; it calls each of them (in its
/// code or in the exit code), none of them is a label of its own, and no
/// name of the C runtime (`malloc`, `free`, `printf` and the like, all in
/// lower case) is imported, defined or called by the runtime code, the
/// start-up code or the exit code.
pub proof fn lemma_imports_are_kernel32_only(code: i32)
    ensures
        forall|i: int|
            0 <= i < externs_lines().len() && (#[trigger] externs_lines()[i]) is Extern
                ==> imported_functions().contains(externs_lines()[i]->Extern_0),
        forall|i: int|
            0 <= i < imported_functions().len() ==> 'A' <= (#[trigger] imported_functions()[i])[0]
                <= 'Z',
        forall|i: int|
            0 <= i < imported_functions().len() ==> runtime_lines().contains(
                AsmLine::Call(#[trigger] imported_functions()[i]),
            ) || exit_lines(code).contains(AsmLine::Call(imported_functions()[i])),
        forall|i: int|
            0 <= i < imported_functions().len() ==> !defines(
                runtime_lines(),
                #[trigger] imported_functions()[i],
            ),
        forall|i: int|
            0 <= i < c_runtime_names().len() ==> {
                let c = #[trigger] c_runtime_names()[i];
                &&& !imported_functions().contains(c)
                &&& !defines(runtime_lines(), c)
                &&& !runtime_lines().contains(AsmLine::Call(c))
                &&& !prologue_lines().contains(AsmLine::Call(c))
                &&& !exit_lines(code).contains(AsmLine::Call(c))
            },
{
    lemma_externs_exact();
    lemma_import_initials();
    lemma_imports_called(code);
    assert forall|i: int|
        0 <= i < imported_functions().len() implies !defines(
        runtime_lines(),
        #[trigger] imported_functions()[i],
    ) by {
        lemma_symbol_fingerprints();
        lemma_label_initials(imported_functions()[i]);
    }
    assert forall|i: int| 0 <= i < c_runtime_names().len() implies {
        let c = #[trigger] c_runtime_names()[i];
        &&& !imported_functions().contains(c)
        &&& !defines(runtime_lines(), c)
        &&& !runtime_lines().contains(AsmLine::Call(c))
        &&& !prologue_lines().contains(AsmLine::Call(c))
        &&& !exit_lines(code).contains(AsmLine::Call(c))
    } by {
        lemma_symbol_fingerprints();
        lemma_c_name_absent(code, c_runtime_names()[i]);
    }
}

/// A line that does not store into memory named by a symbol.
pub open spec fn not_symbol_store(l: AsmLine) -> bool {
    !(l is Mem && l->Mem_0 == "    mov ["@)
}

pub open spec fn no_symbol_store() -> spec_fn(AsmLine) -> bool {
    |l: AsmLine| not_symbol_store(l)
}

/// The start-up code calls the initialisation routine, which is exported
/// and defined; that routine stores the standard output handle and the
/// process heap handle, which the other routines read, and no other routine
/// stores into memory named by a symbol.
pub proof fn lemma_init_stores_handles()
    ensures
        prologue_lines()[1] == AsmLine::Call(rt_init_name()),
        exported_symbols().contains(rt_init_name()),
        defines(runtime_lines(), rt_init_name()),
        rt_init_routine().body.contains(AsmLine::Mem("    mov ["@, bss_names()[1], 0, "], rax"@)),
        rt_init_routine().body.contains(AsmLine::Mem("    mov ["@, bss_names()[0], 0, "], rax"@)),
        forall|k: int|
            1 <= k < runtime_routines().len() ==> all_lines(
                routine_lines(#[trigger] runtime_routines()[k]),
                no_symbol_store(),
            ),
{
    crate::laws::lemma_exports_are_defined();
    assert(exported_symbols()[0] == rt_init_name());
    assert(rt_init_routine().body[3] == AsmLine::Mem("    mov ["@, bss_names()[1], 0, "], rax"@));
    assert(rt_init_routine().body[6] == AsmLine::Mem("    mov ["@, bss_names()[0], 0, "], rax"@));
    lemma_operand_fingerprints();
    let p = no_symbol_store();
    assert(all_lines(claim_routine().body, p));
    lemma_routine_all(claim_routine(), p);
    assert(all_lines(purge_routine().body, p));
    lemma_routine_all(purge_routine(), p);
    assert(all_lines(print_int_routine().body, p));
    lemma_routine_all(print_int_routine(), p);
    assert(all_lines(print_string_routine().body, p));
    lemma_routine_all(print_string_routine(), p);
    assert(all_lines(print_bool_routine().body, p));
    lemma_routine_all(print_bool_routine(), p);
    assert(all_lines(print_double_routine().body, p));
    lemma_routine_all(print_double_routine(), p);
    assert forall|k: int|
        1 <= k < runtime_routines().len() implies all_lines(
        routine_lines(#[trigger] runtime_routines()[k]),
        p,
    ) by {
        if k == 1 {
            assert(runtime_routines()[k] == claim_routine());
        } else if k == 2 {
            assert(runtime_routines()[k] == purge_routine());
        } else if k == 3 {
            assert(runtime_routines()[k] == print_int_routine());
        } else if k == 4 {
            assert(runtime_routines()[k] == print_string_routine());
        } else if k == 5 {
            assert(runtime_routines()[k] == print_bool_routine());
        } else {
            assert(runtime_routines()[k] == print_double_routine());
        }
    }
}

/// The six routines that the Windows runtime names through the emitter
/// interface are six different symbols.
pub proof fn lemma_interface_symbols_distinct(e: &WindowsRuntimeEmitter)
    ensures
        forall|i: int, j: int|
            0 <= i < j < interface_symbols(e).len() ==> #[trigger] interface_symbols(e)[i]
                != #[trigger] interface_symbols(e)[j],
{
    lemma_symbol_fingerprints();
}

} // verus!
