//! Properties of the Windows runtime as a whole: what one section promises
//! another, and what the user-code emitter may rely on.

use vstd::prelude::*;
use crate::decimal::{decimal, lemma_decimal_round_trip, parse_decimal};
use crate::listing::{
    calls_resolve, defines, jumps_resolve, lemma_calls_resolve_concat, lemma_defines_prefix,
    lemma_defines_suffix, lemma_jumps_resolve_concat, labels_unique, lemma_defines_split,
    lemma_labels_unique_concat, lemma_jumps_resolve_widen, AsmLine,
};
use crate::runtime::{
    banner_lines, doc_lines, entry_lines, exit_frame_lines, exit_code_line, exit_lines, exported_symbols, externs_lines,
    globals_lines, imported_functions, prologue_lines, routine_lines, rt_init_name,
    rt_init_routine, claim_routine, purge_routine, print_int_routine, print_string_routine,
    print_bool_routine, print_double_routine, print_int_name, claim_name, purge_name,
    print_string_name, print_bool_name, print_double_name,
    runtime_lines, runtime_routines, Routine, RuntimeEmitter, WindowsRuntimeEmitter,
};

verus! {

/// The banner followed by the first `n` routines.
pub open spec fn runtime_prefix(n: nat) -> Seq<AsmLine>
    decreases n,
{
    if n == 0 {
        banner_lines()
    } else {
        runtime_prefix((n - 1) as nat) + routine_lines(runtime_routines()[n - 1])
    }
}

pub(crate) proof fn lemma_runtime_prefix_full()
    ensures
        runtime_prefix(7) == runtime_lines(),
{
    reveal_with_fuel(runtime_prefix, 8);
}

proof fn lemma_routine_label_lifts(k: nat, n: nat, name: Seq<char>)
    requires
        k < n <= 7,
        defines(routine_lines(runtime_routines()[k as int]), name),
    ensures
        defines(runtime_prefix(n), name),
    decreases n,
{
    if n == k + 1 {
        lemma_defines_suffix(runtime_prefix(k), routine_lines(runtime_routines()[k as int]), name);
    } else {
        lemma_routine_label_lifts(k, (n - 1) as nat, name);
        lemma_defines_prefix(
            runtime_prefix((n - 1) as nat),
            routine_lines(runtime_routines()[n - 1]),
            name,
        );
    }
}

/// A label defined by one of the routines is defined in the runtime code.
proof fn lemma_defined_in_runtime(k: nat, name: Seq<char>)
    requires
        k < 7,
        defines(routine_lines(runtime_routines()[k as int]), name),
    ensures
        defines(runtime_lines(), name),
{
    lemma_routine_label_lifts(k, 7, name);
    lemma_runtime_prefix_full();
}

/// A routine defines the label it is named by.
proof fn lemma_routine_defines_name(r: Routine)
    ensures
        defines(routine_lines(r), r.name),
{
    let i = doc_lines(r.doc).len() as int;
    assert(routine_lines(r)[i] == AsmLine::Label(r.name));
}

/// Each routine of the runtime is defined in the runtime code.
proof fn lemma_routines_defined()
    ensures
        forall|k: int|
            0 <= k < runtime_routines().len() ==> defines(
                runtime_lines(),
                #[trigger] runtime_routines()[k].name,
            ),
{
    assert forall|k: int| 0 <= k < runtime_routines().len() implies defines(
        runtime_lines(),
        #[trigger] runtime_routines()[k].name,
    ) by {
        lemma_routine_defines_name(runtime_routines()[k]);
        lemma_defined_in_runtime(k as nat, runtime_routines()[k].name);
    }
}

/// Every symbol that the runtime exports is declared `global` in the export
/// section and defined as a label in the runtime code.
pub proof fn lemma_exports_are_defined()
    ensures
        forall|i: int|
            0 <= i < exported_symbols().len() ==> {
                &&& globals_lines().contains(AsmLine::Global(#[trigger] exported_symbols()[i]))
                &&& defines(runtime_lines(), exported_symbols()[i])
            },
{
    lemma_routines_defined();
    assert forall|i: int| 0 <= i < exported_symbols().len() implies {
        &&& globals_lines().contains(AsmLine::Global(#[trigger] exported_symbols()[i]))
        &&& defines(runtime_lines(), exported_symbols()[i])
    } by {
        assert(globals_lines()[i + 1] == AsmLine::Global(exported_symbols()[i]));
        let k: int = if i == 4 {
            6
        } else if i == 5 {
            4
        } else if i == 6 {
            5
        } else {
            i
        };
        assert(runtime_routines()[k].name == exported_symbols()[i]);
    }
}


/// Lines that call nothing and jump nowhere: the frame set-up and release,
/// the comment of a routine and the banner.
proof fn lemma_frame_lines_plain(r: Routine, scope: Seq<AsmLine>, imports: Seq<Seq<char>>)
    ensures
        calls_resolve(doc_lines(r.doc), scope, imports),
        calls_resolve(entry_lines(r.name, r.frame), scope, imports),
        calls_resolve(exit_frame_lines(r.frame), scope, imports),
        jumps_resolve(doc_lines(r.doc), scope),
        jumps_resolve(entry_lines(r.name, r.frame), scope),
        jumps_resolve(exit_frame_lines(r.frame), scope),
        calls_resolve(banner_lines(), scope, imports),
        jumps_resolve(banner_lines(), scope),
{
}

/// The calls and jumps of a routine resolve when those of its body do.
proof fn lemma_routine_resolves(
    r: Routine,
    scope: Seq<AsmLine>,
    imports: Seq<Seq<char>>,
    jump_scope: Seq<AsmLine>,
)
    requires
        calls_resolve(r.body, scope, imports),
        jumps_resolve(r.body, jump_scope),
    ensures
        calls_resolve(routine_lines(r), scope, imports),
        jumps_resolve(routine_lines(r), jump_scope),
{
    lemma_frame_lines_plain(r, scope, imports);
    lemma_frame_lines_plain(r, jump_scope, imports);
    let d = doc_lines(r.doc);
    let en = entry_lines(r.name, r.frame);
    lemma_calls_resolve_concat(d, en, scope, imports);
    lemma_calls_resolve_concat(d + en, r.body, scope, imports);
    lemma_calls_resolve_concat(d + en + r.body, exit_frame_lines(r.frame), scope, imports);
    lemma_jumps_resolve_concat(d, en, jump_scope);
    lemma_jumps_resolve_concat(d + en, r.body, jump_scope);
    lemma_jumps_resolve_concat(d + en + r.body, exit_frame_lines(r.frame), jump_scope);
}

/// The kernel32.dll functions that the runtime calls are all imported.
proof fn lemma_imports_listed()
    ensures
        imported_functions().contains("GetProcessHeap"@),
        imported_functions().contains("HeapAlloc"@),
        imported_functions().contains("HeapFree"@),
        imported_functions().contains("GetStdHandle"@),
        imported_functions().contains("WriteFile"@),
        imported_functions().contains("ExitProcess"@),
{
    assert(imported_functions()[0] == "GetProcessHeap"@);
    assert(imported_functions()[1] == "HeapAlloc"@);
    assert(imported_functions()[2] == "HeapFree"@);
    assert(imported_functions()[3] == "GetStdHandle"@);
    assert(imported_functions()[4] == "WriteFile"@);
    assert(imported_functions()[5] == "ExitProcess"@);
}

/// A routine whose labels stand at the positions `pos`, named in order by
/// `routine_label_names(k)`, whose jumps go to those labels and whose calls
/// resolve in the runtime defines each of its labels once, and resolves all
/// of its calls and jumps.
proof fn lemma_routine_closed(k: int, pos: Seq<int>)
    requires
        0 <= k < 7,
        pos.len() == routine_label_names(k).len(),
        forall|m: int|
            0 <= m < pos.len() ==> 0 <= #[trigger] pos[m] < routine_lines(runtime_routines()[k]).len()
                && routine_lines(runtime_routines()[k])[pos[m]] == AsmLine::Label(
                routine_label_names(k)[m],
            ),
        forall|i: int|
            0 <= i < routine_lines(runtime_routines()[k]).len() && (#[trigger] routine_lines(
                runtime_routines()[k],
            )[i]) is Label ==> pos.contains(i),
        forall|i: int|
            0 <= i < runtime_routines()[k].body.len() && (#[trigger] runtime_routines()[k].body[i]) is Jump
                ==> routine_label_names(k).contains(runtime_routines()[k].body[i]->Jump_1),
        calls_resolve(runtime_routines()[k].body, runtime_lines(), imported_functions()),
    ensures
        calls_resolve(routine_lines(runtime_routines()[k]), runtime_lines(), imported_functions()),
        jumps_resolve(routine_lines(runtime_routines()[k]), routine_lines(runtime_routines()[k])),
        labels_unique(routine_lines(runtime_routines()[k])),
        forall|t: Seq<char>|
            defines(routine_lines(runtime_routines()[k]), t) <==> routine_label_names(k).contains(t),
{
    lemma_label_names_distinct();
    let r = runtime_routines()[k];
    let rl = routine_lines(r);
    let names = routine_label_names(k);
    assert forall|t: Seq<char>| defines(rl, t) implies names.contains(t) by {
        let j = choose|j: int| 0 <= j < rl.len() && rl[j] == AsmLine::Label(t);
        let m = choose|m: int| 0 <= m < pos.len() && pos[m] == j;
        assert(names[m] == t);
    }
    assert forall|t: Seq<char>| names.contains(t) implies defines(rl, t) by {
        let m = choose|m: int| 0 <= m < names.len() && names[m] == t;
        assert(rl[pos[m]] == AsmLine::Label(t));
    }
    assert forall|i: int, j: int|
        0 <= i < j < rl.len() && (#[trigger] rl[i]) is Label implies rl[i] != #[trigger] rl[j] by {
        if rl[i] == rl[j] {
            let a = choose|a: int| 0 <= a < pos.len() && pos[a] == i;
            let b = choose|b: int| 0 <= b < pos.len() && pos[b] == j;
            assert(names[a] == names[b]);
            assert(names[a] == runtime_label_names()[label_offset(k) + a]);
            assert(names[b] == runtime_label_names()[label_offset(k) + b]);
        }
    }
    assert forall|i: int| 0 <= i < r.body.len() implies crate::listing::jump_resolves(#[trigger] r.body[i], rl) by {
        if let AsmLine::Jump(_, t) = r.body[i] {
            assert(names.contains(t));
        }
    }
    lemma_routine_resolves(r, runtime_lines(), imported_functions(), rl);
}

/// Every call in each routine goes to an imported function or to a routine
/// of the runtime, every jump in a routine goes to a label of that routine,
/// and each routine defines its own labels once.
#[verifier::spinoff_prover]
proof fn lemma_each_routine(k: int)
    requires
        0 <= k < 7,
    ensures
        calls_resolve(routine_lines(runtime_routines()[k]), runtime_lines(), imported_functions()),
        jumps_resolve(routine_lines(runtime_routines()[k]), routine_lines(runtime_routines()[k])),
        labels_unique(routine_lines(runtime_routines()[k])),
        forall|t: Seq<char>|
            defines(routine_lines(runtime_routines()[k]), t) <==> routine_label_names(k).contains(t),
{
    lemma_imports_listed();
    let rl = routine_lines(runtime_routines()[k]);
    if k == 0 {
        assert(runtime_routines()[k] == rt_init_routine());
        let pos = seq![0];
        assert(routine_label_names(k) =~= seq![rt_init_name()]);
        assert(forall|i: int| 0 <= i < rl.len() && (#[trigger] rl[i]) is Label ==> i == 0);
        assert(forall|i: int| 0 <= i < rl.len() && (#[trigger] rl[i]) is Label ==> pos.contains(i)) by {
            assert(pos[0] == 0);
        }
        assert(calls_resolve(rt_init_routine().body, runtime_lines(), imported_functions()));
        lemma_routine_closed(k, pos);
    } else if k == 1 {
        assert(runtime_routines()[k] == claim_routine());
        let pos = seq![1];
        assert(routine_label_names(k) =~= seq![claim_name()]);
        assert(forall|i: int| 0 <= i < rl.len() && (#[trigger] rl[i]) is Label ==> i == 1);
        assert(forall|i: int| 0 <= i < rl.len() && (#[trigger] rl[i]) is Label ==> pos.contains(i)) by {
            assert(pos[0] == 1);
        }
        assert(calls_resolve(claim_routine().body, runtime_lines(), imported_functions()));
        lemma_routine_closed(k, pos);
    } else if k == 2 {
        assert(runtime_routines()[k] == purge_routine());
        let pos = seq![1, 11];
        assert(routine_label_names(k) =~= seq![purge_name(), ".free_done"@]);
        assert(forall|i: int| 0 <= i < rl.len() && (#[trigger] rl[i]) is Label ==> i == 1 || i == 11);
        assert(forall|i: int| 0 <= i < rl.len() && (#[trigger] rl[i]) is Label ==> pos.contains(i)) by {
            assert(pos[0] == 1);
            assert(pos[1] == 11);
        }
        assert(calls_resolve(purge_routine().body, runtime_lines(), imported_functions()));
        lemma_routine_closed(k, pos);
    } else if k == 3 {
        assert(runtime_routines()[k] == print_int_routine());
        let pos = seq![1, 16, 18, 31];
        assert(routine_label_names(k) =~= seq![print_int_name(), ".int_pos"@, ".int_loop"@, ".int_write"@]);
        assert(forall|i: int| 0 <= i < rl.len() && (#[trigger] rl[i]) is Label ==> i == 1 || i == 16 || i == 18 || i == 31);
        assert(forall|i: int| 0 <= i < rl.len() && (#[trigger] rl[i]) is Label ==> pos.contains(i)) by {
            assert(pos[0] == 1);
            assert(pos[1] == 16);
            assert(pos[2] == 18);
            assert(pos[3] == 31);
        }
        assert(calls_resolve(print_int_routine().body, runtime_lines(), imported_functions()));
        lemma_routine_closed(k, pos);
    } else if k == 4 {
        assert(runtime_routines()[k] == print_string_routine());
        let pos = seq![1, 9, 14, 27];
        assert(routine_label_names(k) =~= seq![print_string_name(), ".str_len"@, ".str_write"@, ".str_done"@]);
        assert(forall|i: int| 0 <= i < rl.len() && (#[trigger] rl[i]) is Label ==> i == 1 || i == 9 || i == 14 || i == 27);
        assert(forall|i: int| 0 <= i < rl.len() && (#[trigger] rl[i]) is Label ==> pos.contains(i)) by {
            assert(pos[0] == 1);
            assert(pos[1] == 9);
            assert(pos[2] == 14);
            assert(pos[3] == 27);
        }
        assert(calls_resolve(print_string_routine().body, runtime_lines(), imported_functions()));
        lemma_routine_closed(k, pos);
    } else if k == 5 {
        assert(runtime_routines()[k] == print_bool_routine());
        let pos = seq![1, 10, 13];
        assert(routine_label_names(k) =~= seq![print_bool_name(), ".bool_no"@, ".bool_print"@]);
        assert(forall|i: int| 0 <= i < rl.len() && (#[trigger] rl[i]) is Label ==> i == 1 || i == 10 || i == 13);
        assert(forall|i: int| 0 <= i < rl.len() && (#[trigger] rl[i]) is Label ==> pos.contains(i)) by {
            assert(pos[0] == 1);
            assert(pos[1] == 10);
            assert(pos[2] == 13);
        }
        assert(calls_resolve(print_bool_routine().body, runtime_lines(), imported_functions()));
        lemma_routine_closed(k, pos);
    } else if k == 6 {
        assert(runtime_routines()[k] == print_double_routine());
        let pos = seq![1];
        assert(routine_label_names(k) =~= seq![print_double_name()]);
        assert(forall|i: int| 0 <= i < rl.len() && (#[trigger] rl[i]) is Label ==> i == 1);
        assert(forall|i: int| 0 <= i < rl.len() && (#[trigger] rl[i]) is Label ==> pos.contains(i)) by {
            assert(pos[0] == 1);
        }
        lemma_routine_defines_name(print_int_routine());
        lemma_defined_in_runtime(3, print_int_name());
        assert(calls_resolve(print_double_routine().body, runtime_lines(), imported_functions()));
        lemma_routine_closed(k, pos);
    }
}

proof fn lemma_prefix_resolves(n: nat)
    requires
        n <= 7,
    ensures
        calls_resolve(runtime_prefix(n), runtime_lines(), imported_functions()),
        jumps_resolve(runtime_prefix(n), runtime_lines()),
    decreases n,
{
    if n == 0 {
        lemma_frame_lines_plain(runtime_routines()[0], runtime_lines(), imported_functions());
    } else {
        let k = (n - 1) as nat;
        lemma_prefix_resolves(k);
        let rl = routine_lines(runtime_routines()[k as int]);
        lemma_each_routine(k as int);
        assert forall|t: Seq<char>| defines(rl, t) implies defines(runtime_lines(), t) by {
            lemma_defined_in_runtime(k, t);
        }
        lemma_jumps_resolve_widen(rl, rl, runtime_lines());
        lemma_calls_resolve_concat(runtime_prefix(k), rl, runtime_lines(), imported_functions());
        lemma_jumps_resolve_concat(runtime_prefix(k), rl, runtime_lines());
    }
}

proof fn lemma_externs_declared()
    ensures
        forall|i: int|
            0 <= i < imported_functions().len() ==> externs_lines().contains(
                AsmLine::Extern(#[trigger] imported_functions()[i]),
            ),
{
    assert forall|i: int| 0 <= i < imported_functions().len() implies externs_lines().contains(
        AsmLine::Extern(#[trigger] imported_functions()[i]),
    ) by {
        assert(externs_lines()[i + 1] == AsmLine::Extern(imported_functions()[i]));
    }
}

proof fn lemma_entry_and_exit_resolve(code: i32)
    ensures
        calls_resolve(prologue_lines(), runtime_lines(), imported_functions()),
        calls_resolve(exit_lines(code), runtime_lines(), imported_functions()),
{
    lemma_imports_listed();
    lemma_routine_defines_name(rt_init_routine());
    lemma_defined_in_runtime(0, rt_init_name());
    assert(calls_resolve(prologue_lines(), runtime_lines(), imported_functions()));
    assert(calls_resolve(exit_lines(code), runtime_lines(), imported_functions()));
}

proof fn lemma_routine_jumps_local()
    ensures
        forall|k: int|
            0 <= k < runtime_routines().len() ==> jumps_resolve(
                routine_lines(#[trigger] runtime_routines()[k]),
                routine_lines(runtime_routines()[k]),
            ),
{
    assert forall|k: int| 0 <= k < runtime_routines().len() implies jumps_resolve(
        routine_lines(#[trigger] runtime_routines()[k]),
        routine_lines(runtime_routines()[k]),
    ) by {
        lemma_each_routine(k);
    }
}

/// Every call in the runtime code, in the start-up code and in the exit code
/// goes to a kernel32.dll function that the import section declares or to a
/// routine that the runtime code defines, and every jump in a routine goes to
/// a label of that same routine: no call or jump target of these sections is
/// left unresolved but the imported functions. (The memory operands are the
/// subject of `crate::linkage::lemma_memory_operands_stored`.)
pub proof fn lemma_references_resolve(code: i32)
    ensures
        forall|i: int|
            0 <= i < imported_functions().len() ==> externs_lines().contains(
                AsmLine::Extern(#[trigger] imported_functions()[i]),
            ),
        calls_resolve(runtime_lines(), runtime_lines(), imported_functions()),
        calls_resolve(prologue_lines(), runtime_lines(), imported_functions()),
        calls_resolve(exit_lines(code), runtime_lines(), imported_functions()),
        jumps_resolve(runtime_lines(), runtime_lines()),
        forall|k: int|
            0 <= k < runtime_routines().len() ==> jumps_resolve(
                routine_lines(#[trigger] runtime_routines()[k]),
                routine_lines(runtime_routines()[k]),
            ),
{
    lemma_externs_declared();
    lemma_prefix_resolves(7);
    lemma_runtime_prefix_full();
    lemma_entry_and_exit_resolve(code);
    lemma_routine_jumps_local();
}


/// Every routine reserves a frame of at least the 32 bytes of shadow space
/// that the Windows x64 calling convention asks of a caller, in a multiple of
/// 16, so that `rsp` stays 16-byte aligned at the calls the routine makes
/// after `push rbp`; it releases the same amount before it returns.
pub proof fn lemma_frames_follow_win64_convention()
    ensures
        forall|k: int|
            0 <= k < runtime_routines().len() ==> {
                &&& #[trigger] runtime_routines()[k].frame >= 32
                &&& runtime_routines()[k].frame % 16 == 0
            },
        forall|r: Routine|
            {
                let rl = #[trigger] routine_lines(r);
                let d = doc_lines(r.doc).len() as int;
                &&& rl[d + 3] == AsmLine::Text("    sub rsp, "@ + decimal(r.frame))
                &&& rl[rl.len() - 4] == AsmLine::Text("    add rsp, "@ + decimal(r.frame))
                &&& rl[rl.len() - 2] == AsmLine::Text("    ret"@)
            },
{
    assert forall|r: Routine|
        {
            let rl = #[trigger] routine_lines(r);
            let d = doc_lines(r.doc).len() as int;
            &&& rl[d + 3] == AsmLine::Text("    sub rsp, "@ + decimal(r.frame))
            &&& rl[rl.len() - 4] == AsmLine::Text("    add rsp, "@ + decimal(r.frame))
            &&& rl[rl.len() - 2] == AsmLine::Text("    ret"@)
        } by {
        let rl = routine_lines(r);
        let d = doc_lines(r.doc).len() as int;
        assert(rl[d + 3] == entry_lines(r.name, r.frame)[3]);
        assert(rl[rl.len() - 4] == exit_frame_lines(r.frame)[0]);
        assert(rl[rl.len() - 2] == exit_frame_lines(r.frame)[2]);
    }
}

/// The exit code that the exit code loads is the code it was given: its
/// operand reads back as that code, so different codes give different code.
pub proof fn lemma_exit_code_preserved(code: i32, other: i32)
    ensures
        exit_lines(code)[1] == exit_code_line(code),
        exit_code_line(code) == AsmLine::Text("    mov ecx, "@ + decimal(code as int)),
        parse_decimal(decimal(code as int)) == code,
        code != other ==> exit_lines(code) != exit_lines(other),
{
    lemma_decimal_round_trip(code as int);
    lemma_decimal_round_trip(other as int);
    if code != other && exit_lines(code) == exit_lines(other) {
        let p = "    mov ecx, "@;
        assert(exit_lines(code)[1] == exit_lines(other)[1]);
        assert((p + decimal(code as int)).skip(p.len() as int) =~= decimal(code as int));
        assert((p + decimal(other as int)).skip(p.len() as int) =~= decimal(other as int));
    }
}

/// The labels that the runtime code defines, routine by routine.
pub open spec fn runtime_label_names() -> Seq<Seq<char>> {
    seq![
        rt_init_name(),
        claim_name(),
        purge_name(),
        ".free_done"@,
        print_int_name(),
        ".int_pos"@,
        ".int_loop"@,
        ".int_write"@,
        print_string_name(),
        ".str_len"@,
        ".str_write"@,
        ".str_done"@,
        print_bool_name(),
        ".bool_no"@,
        ".bool_print"@,
        print_double_name(),
    ]
}

/// Where the labels of the `k`-th routine start in `runtime_label_names()`.
pub open spec fn label_offset(k: int) -> int {
    if k <= 0 {
        0
    } else if k <= 1 {
        1
    } else if k <= 2 {
        2
    } else if k <= 3 {
        4
    } else if k <= 4 {
        8
    } else if k <= 5 {
        12
    } else if k <= 6 {
        15
    } else {
        16
    }
}

/// The labels that the `k`-th routine defines.
pub open spec fn routine_label_names(k: int) -> Seq<Seq<char>> {
    runtime_label_names().subrange(label_offset(k), label_offset(k + 1))
}

/// The labels of the runtime code are pairwise different names.
proof fn lemma_label_names_distinct()
    ensures
        forall|i: int, j: int|
            0 <= i < j < runtime_label_names().len() ==> #[trigger] runtime_label_names()[i]
                != #[trigger] runtime_label_names()[j],
{
    reveal_strlit("__axiom_rt_init");
    reveal_strlit("__axiom_claim");
    reveal_strlit("__axiom_purge");
    reveal_strlit(".free_done");
    reveal_strlit("__axiom_print_int");
    reveal_strlit(".int_pos");
    reveal_strlit(".int_loop");
    reveal_strlit(".int_write");
    reveal_strlit("__axiom_print_string");
    reveal_strlit(".str_len");
    reveal_strlit(".str_write");
    reveal_strlit(".str_done");
    reveal_strlit("__axiom_print_bool");
    reveal_strlit(".bool_no");
    reveal_strlit(".bool_print");
    reveal_strlit("__axiom_print_double");
    assert(rt_init_name().len() == 15 && rt_init_name()[1] == '_' && rt_init_name()[8] == 'r' && rt_init_name()[14] == 't');
    assert(claim_name().len() == 13 && claim_name()[1] == '_' && claim_name()[8] == 'c');
    assert(purge_name().len() == 13 && purge_name()[1] == '_' && purge_name()[8] == 'p');
    assert(".free_done"@.len() == 10 && ".free_done"@[1] == 'f' && ".free_done"@[8] == 'n');
    assert(print_int_name().len() == 17 && print_int_name()[1] == '_' && print_int_name()[8] == 'p' && print_int_name()[14] == 'i');
    assert(".int_pos"@.len() == 8 && ".int_pos"@[1] == 'i');
    assert(".int_loop"@.len() == 9 && ".int_loop"@[1] == 'i' && ".int_loop"@[8] == 'p');
    assert(".int_write"@.len() == 10 && ".int_write"@[1] == 'i' && ".int_write"@[8] == 't');
    assert(print_string_name().len() == 20 && print_string_name()[1] == '_' && print_string_name()[8] == 'p' && print_string_name()[14] == 's');
    assert(".str_len"@.len() == 8 && ".str_len"@[1] == 's');
    assert(".str_write"@.len() == 10 && ".str_write"@[1] == 's' && ".str_write"@[8] == 't');
    assert(".str_done"@.len() == 9 && ".str_done"@[1] == 's' && ".str_done"@[8] == 'e');
    assert(print_bool_name().len() == 18 && print_bool_name()[1] == '_' && print_bool_name()[8] == 'p' && print_bool_name()[14] == 'b');
    assert(".bool_no"@.len() == 8 && ".bool_no"@[1] == 'b');
    assert(".bool_print"@.len() == 11 && ".bool_print"@[1] == 'b' && ".bool_print"@[8] == 'i');
    assert(print_double_name().len() == 20 && print_double_name()[1] == '_' && print_double_name()[8] == 'p' && print_double_name()[14] == 'd');
}

proof fn lemma_prefix_labels(n: nat)
    requires
        n <= 7,
    ensures
        labels_unique(runtime_prefix(n)),
        forall|t: Seq<char>|
            defines(runtime_prefix(n), t) <==> runtime_label_names().take(label_offset(n as int)).contains(t),
    decreases n,
{
    lemma_label_names_distinct();
    if n == 0 {
        assert(runtime_label_names().take(0) =~= Seq::<Seq<char>>::empty());
        assert forall|t: Seq<char>| !defines(banner_lines(), t) by {
            if defines(banner_lines(), t) {
                let j = choose|j: int| 0 <= j < banner_lines().len() && banner_lines()[j] == AsmLine::Label(t);
            }
        }
    } else {
        let k = (n - 1) as nat;
        lemma_prefix_labels(k);
        lemma_each_routine(k as int);
        let pre = runtime_prefix(k);
        let rl = routine_lines(runtime_routines()[k as int]);
        let all = runtime_label_names();
        let before = all.take(label_offset(k as int));
        let mine = routine_label_names(k as int);
        assert(all.take(label_offset(n as int)) =~= before + mine);
        assert forall|t: Seq<char>| defines(pre, t) implies !defines(rl, t) by {
            assert(defines(rl, t) <==> mine.contains(t));
            assert(defines(pre, t) <==> before.contains(t));
            if defines(rl, t) {
                let a = choose|a: int| 0 <= a < before.len() && before[a] == t;
                let b = choose|b: int| 0 <= b < mine.len() && mine[b] == t;
                assert(all[a] == all[label_offset(k as int) + b]);
            }
        }
        lemma_labels_unique_concat(pre, rl);
        assert forall|t: Seq<char>|
            defines(pre + rl, t) <==> (before + mine).contains(t) by {
            assert(defines(rl, t) <==> mine.contains(t));
            assert(defines(pre, t) <==> before.contains(t));
            if defines(pre + rl, t) {
                lemma_defines_split(pre, rl, t);
                if defines(pre, t) {
                    let a = choose|a: int| 0 <= a < before.len() && before[a] == t;
                    assert((before + mine)[a] == t);
                } else {
                    let b = choose|b: int| 0 <= b < mine.len() && mine[b] == t;
                    assert((before + mine)[before.len() + b] == t);
                }
            }
            if (before + mine).contains(t) {
                let c = choose|c: int| 0 <= c < (before + mine).len() && (before + mine)[c] == t;
                if c < before.len() {
                    assert(before[c] == t);
                    lemma_defines_prefix(pre, rl, t);
                } else {
                    assert(mine[c - before.len()] == t);
                    lemma_defines_suffix(pre, rl, t);
                }
            }
        }
    }
}

/// The runtime code defines each of its labels once, so that NASM accepts
/// it, and the labels it defines are exactly the entry points of its
/// routines and the local labels that their jumps use.
pub proof fn lemma_labels_defined_once()
    ensures
        labels_unique(runtime_lines()),
        forall|t: Seq<char>| defines(runtime_lines(), t) <==> runtime_label_names().contains(t),
{
    lemma_prefix_labels(7);
    lemma_runtime_prefix_full();
    assert(runtime_label_names().take(16) =~= runtime_label_names());
}


/// The symbols that an emitter hands to the user-code emitter.
pub open spec fn interface_symbols<E: RuntimeEmitter>(e: &E) -> Seq<Seq<char>> {
    seq![
        e.alloc_label(),
        e.free_label(),
        e.print_int_label(),
        e.print_double_label(),
        e.print_string_label(),
        e.print_bool_label(),
    ]
}

/// Every routine that the Windows runtime names through the emitter
/// interface, and the initialisation routine that its start-up code calls,
/// is exported by its export section and defined in its runtime code: user
/// code that calls only what the interface names links against it.
pub proof fn lemma_interface_is_provided(e: &WindowsRuntimeEmitter)
    ensures
        forall|i: int|
            0 <= i < interface_symbols(e).len() ==> {
                &&& exported_symbols().contains(#[trigger] interface_symbols(e)[i])
                &&& globals_lines().contains(AsmLine::Global(interface_symbols(e)[i]))
                &&& defines(e.runtime_listing(), interface_symbols(e)[i])
            },
        e.prologue_listing() == seq![e.prologue_listing()[0], AsmLine::Call(rt_init_name())],
        exported_symbols().contains(rt_init_name()),
        defines(e.runtime_listing(), rt_init_name()),
{
    lemma_exports_are_defined();
    assert forall|i: int| 0 <= i < interface_symbols(e).len() implies {
        &&& exported_symbols().contains(#[trigger] interface_symbols(e)[i])
        &&& globals_lines().contains(AsmLine::Global(interface_symbols(e)[i]))
        &&& defines(e.runtime_listing(), interface_symbols(e)[i])
    } by {
        assert(exported_symbols()[i + 1] == interface_symbols(e)[i]);
    }
    assert(exported_symbols()[0] == rt_init_name());
    assert(prologue_lines() =~= seq![prologue_lines()[0], AsmLine::Call(rt_init_name())]);
}

} // verus!
