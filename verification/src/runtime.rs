//! The runtime library emitter: the interface that the user-code emitter of
//! the Axiom compiler relies on, and its Windows x86-64 implementation, which
//! talks to kernel32.dll directly (HeapAlloc and HeapFree for `claim` and
//! `purge`, WriteFile for `emit`, ExitProcess to terminate) with no C runtime.
//!
//! Every section is appended to a `String` as NASM source; the contracts
//! state its text exactly, through the line model of `crate::listing`.

use vstd::prelude::*;
use crate::decimal::decimal;
use crate::listing::{render, AsmLine, Listing};

verus! {

/// Interface that any runtime library emitter must implement. The
/// user-code emitter relies solely on it, which keeps it free of calls
/// into the operating system.
pub trait RuntimeEmitter {
    /// The human-readable name of the runtime.
    spec fn description(&self) -> Seq<char>;

    /// The symbol of the allocation routine.
    spec fn alloc_label(&self) -> Seq<char>;

    /// The symbol of the deallocation routine.
    spec fn free_label(&self) -> Seq<char>;

    /// The symbol of the routine that prints an integer.
    spec fn print_int_label(&self) -> Seq<char>;

    /// The symbol of the routine that prints a double.
    spec fn print_double_label(&self) -> Seq<char>;

    /// The symbol of the routine that prints a string.
    spec fn print_string_label(&self) -> Seq<char>;

    /// The symbol of the routine that prints a boolean.
    spec fn print_bool_label(&self) -> Seq<char>;

    /// The import declarations.
    spec fn externs_listing(&self) -> Seq<AsmLine>;

    /// The export declarations.
    spec fn globals_listing(&self) -> Seq<AsmLine>;

    /// The initialised data of the runtime.
    spec fn data_listing(&self) -> Seq<AsmLine>;

    /// The reserved, uninitialised data of the runtime.
    spec fn bss_listing(&self) -> Seq<AsmLine>;

    /// The code run first at program start-up.
    spec fn prologue_listing(&self) -> Seq<AsmLine>;

    /// The code that ends the process with an exit code.
    spec fn exit_listing(&self, code: i32) -> Seq<AsmLine>;

    /// The code of the runtime routines.
    spec fn runtime_listing(&self) -> Seq<AsmLine>;

    fn name(&self) -> (s: &'static str)
        ensures
            s@ == self.description(),
    ;

    fn alloc_symbol(&self) -> (s: &'static str)
        ensures
            s@ == self.alloc_label(),
    ;

    fn free_symbol(&self) -> (s: &'static str)
        ensures
            s@ == self.free_label(),
    ;

    fn print_int_symbol(&self) -> (s: &'static str)
        ensures
            s@ == self.print_int_label(),
    ;

    fn print_double_symbol(&self) -> (s: &'static str)
        ensures
            s@ == self.print_double_label(),
    ;

    fn print_string_symbol(&self) -> (s: &'static str)
        ensures
            s@ == self.print_string_label(),
    ;

    fn print_bool_symbol(&self) -> (s: &'static str)
        ensures
            s@ == self.print_bool_label(),
    ;

    /// Appends the import declarations to `out`.
    fn emit_externs(&self, out: &mut String)
        ensures
            final(out)@ == old(out)@ + render(self.externs_listing()),
    ;

    /// Appends the export declarations to `out`.
    fn emit_globals(&self, out: &mut String)
        ensures
            final(out)@ == old(out)@ + render(self.globals_listing()),
    ;

    /// Appends the initialised data to `out`.
    fn emit_data(&self, out: &mut String)
        ensures
            final(out)@ == old(out)@ + render(self.data_listing()),
    ;

    /// Appends the reserved data to `out`.
    fn emit_bss(&self, out: &mut String)
        ensures
            final(out)@ == old(out)@ + render(self.bss_listing()),
    ;

    /// Appends the start-up code to `out`.
    fn emit_startup_prologue(&self, out: &mut String)
        ensures
            final(out)@ == old(out)@ + render(self.prologue_listing()),
    ;

    /// Appends the code that exits with `code` to `out`.
    fn emit_exit(&self, out: &mut String, code: i32)
        ensures
            final(out)@ == old(out)@ + render(self.exit_listing(code)),
    ;

    /// Appends the runtime routines to `out`.
    fn emit_runtime_text(&self, out: &mut String)
        ensures
            final(out)@ == old(out)@ + render(self.runtime_listing()),
    ;
}

/// Windows x64 runtime emitter.
///
/// Implements the Axiom runtime library for Windows x64 on kernel32.dll
/// alone: HeapAlloc / HeapFree (through GetProcessHeap) for `claim()` and
/// `purge()`, WriteFile (through GetStdHandle) for `emit` statements, and
/// ExitProcess for termination. No C standard library is used.
pub struct WindowsRuntimeEmitter;

pub open spec fn rt_init_name() -> Seq<char> {
    "__axiom_rt_init"@
}

pub open spec fn claim_name() -> Seq<char> {
    "__axiom_claim"@
}

pub open spec fn purge_name() -> Seq<char> {
    "__axiom_purge"@
}

pub open spec fn print_int_name() -> Seq<char> {
    "__axiom_print_int"@
}

pub open spec fn print_double_name() -> Seq<char> {
    "__axiom_print_double"@
}

pub open spec fn print_string_name() -> Seq<char> {
    "__axiom_print_string"@
}

pub open spec fn print_bool_name() -> Seq<char> {
    "__axiom_print_bool"@
}

/// The functions of kernel32.dll that the runtime imports, in the order of
/// their declarations.
pub open spec fn imported_functions() -> Seq<Seq<char>> {
    seq![
        "GetProcessHeap"@,
        "HeapAlloc"@,
        "HeapFree"@,
        "GetStdHandle"@,
        "WriteFile"@,
        "ExitProcess"@,
    ]
}

/// The symbols that the runtime exports, in the order of their declarations.
pub open spec fn exported_symbols() -> Seq<Seq<char>> {
    seq![
        rt_init_name(),
        claim_name(),
        purge_name(),
        print_int_name(),
        print_double_name(),
        print_string_name(),
        print_bool_name(),
    ]
}

/// The names under which the data section stores its byte strings.
pub open spec fn data_names() -> Seq<Seq<char>> {
    seq!["__axiom_crlf"@, "__axiom_str_yes"@, "__axiom_str_no"@]
}

/// The names under which the bss section reserves space.
pub open spec fn bss_names() -> Seq<Seq<char>> {
    seq!["__axiom_hHeap"@, "__axiom_hStdOut"@, "__axiom_bytes_written"@, "__axiom_print_buf"@]
}

pub open spec fn externs_lines() -> Seq<AsmLine> {
    seq![AsmLine::Text("; --- Windows kernel32.dll API Imports ---"@)]
        + imported_functions().map_values(|f: Seq<char>| AsmLine::Extern(f))
        + seq![AsmLine::Blank]
}

pub open spec fn globals_lines() -> Seq<AsmLine> {
    seq![AsmLine::Text("; --- Axiom Runtime Exported Functions ---"@)]
        + exported_symbols().map_values(|f: Seq<char>| AsmLine::Global(f))
        + seq![AsmLine::Blank]
}

pub open spec fn data_lines() -> Seq<AsmLine> {
    seq![
        AsmLine::Text("    ; Axiom Runtime Static Literals"@),
        AsmLine::CrlfString("__axiom_crlf"@, ""@),
        AsmLine::CrlfString("__axiom_str_yes"@, "yes"@),
        AsmLine::CrlfString("__axiom_str_no"@, "no"@),
        AsmLine::Blank,
    ]
}

pub open spec fn bss_lines() -> Seq<AsmLine> {
    seq![
        AsmLine::Text("    ; Axiom Runtime Internal State"@),
        AsmLine::Reserve("__axiom_hHeap"@, true, 1),
        AsmLine::Reserve("__axiom_hStdOut"@, true, 1),
        AsmLine::Reserve("__axiom_bytes_written"@, true, 1),
        AsmLine::Reserve("__axiom_print_buf"@, false, 64),
        AsmLine::Blank,
    ]
}

pub open spec fn prologue_lines() -> Seq<AsmLine> {
    seq![
        AsmLine::Text("    ; Initialize Axiom Runtime (heap & stdout handles)"@),
        AsmLine::Call(rt_init_name()),
    ]
}

/// The operand line that loads the exit code into `ecx`.
pub open spec fn exit_code_line(code: i32) -> AsmLine {
    AsmLine::Text("    mov ecx, "@ + decimal(code as int))
}

pub open spec fn exit_lines(code: i32) -> Seq<AsmLine> {
    seq![
        AsmLine::Text("    ; Exit process via Windows API"@),
        exit_code_line(code),
        AsmLine::Call("ExitProcess"@),
    ]
}

/// A runtime routine: an optional comment line, its label, a stack frame of
/// `frame` bytes set up around `body`, and a blank line after it.
pub struct Routine {
    pub doc: Option<Seq<char>>,
    pub name: Seq<char>,
    pub frame: int,
    pub body: Seq<AsmLine>,
}

pub open spec fn doc_lines(doc: Option<Seq<char>>) -> Seq<AsmLine> {
    match doc {
        Some(d) => seq![AsmLine::Text(d)],
        None => Seq::empty(),
    }
}

/// The entry of a routine: its label and the set-up of its frame.
pub open spec fn entry_lines(name: Seq<char>, frame: int) -> Seq<AsmLine> {
    seq![
        AsmLine::Label(name),
        AsmLine::Text("    push rbp"@),
        AsmLine::Text("    mov rbp, rsp"@),
        AsmLine::Text("    sub rsp, "@ + decimal(frame)),
    ]
}

/// The exit of a routine: the release of its frame and the return.
pub open spec fn exit_frame_lines(frame: int) -> Seq<AsmLine> {
    seq![
        AsmLine::Text("    add rsp, "@ + decimal(frame)),
        AsmLine::Text("    pop rbp"@),
        AsmLine::Text("    ret"@),
        AsmLine::Blank,
    ]
}

pub open spec fn routine_lines(r: Routine) -> Seq<AsmLine> {
    doc_lines(r.doc) + entry_lines(r.name, r.frame) + r.body + exit_frame_lines(r.frame)
}

/// The banner that opens the runtime code.
pub open spec fn banner_lines() -> Seq<AsmLine> {
    seq![
        AsmLine::Text("; ==================================================================="@),
        AsmLine::Text("; Axiom Runtime Library - Windows x64 Native Implementation"@),
        AsmLine::Text("; Freestanding / Zero C Runtime"@),
        AsmLine::Text("; ==================================================================="@),
        AsmLine::Blank,
    ]
}

/// The `__axiom_rt_init` routine.
pub open spec fn rt_init_routine() -> Routine {
    Routine {
        doc: None,
        name: rt_init_name(),
        frame: 32,
        body: seq![
            AsmLine::Text("    ; Cache STD_OUTPUT_HANDLE (-11)"@),
            AsmLine::Text("    mov ecx, -11"@),
            AsmLine::Call("GetStdHandle"@),
            AsmLine::Mem("    mov ["@, "__axiom_hStdOut"@, 0, "], rax"@),
            AsmLine::Text("    ; Cache default Process Heap handle"@),
            AsmLine::Call("GetProcessHeap"@),
            AsmLine::Mem("    mov ["@, "__axiom_hHeap"@, 0, "], rax"@),
        ],
    }
}

/// The `__axiom_claim` routine.
pub open spec fn claim_routine() -> Routine {
    Routine {
        doc: Some("; __axiom_claim(rcx: size) -> rax: pointer"@),
        name: claim_name(),
        frame: 32,
        body: seq![
            AsmLine::Text("    mov r8, rcx"@),
            AsmLine::Mem("    mov rcx, ["@, "__axiom_hHeap"@, 0, "]"@),
            AsmLine::Text("    mov edx, 8"@),
            AsmLine::Call("HeapAlloc"@),
        ],
    }
}

/// The `__axiom_purge` routine.
pub open spec fn purge_routine() -> Routine {
    Routine {
        doc: Some("; __axiom_purge(rcx: pointer)"@),
        name: purge_name(),
        frame: 32,
        body: seq![
            AsmLine::Text("    test rcx, rcx"@),
            AsmLine::Jump("jz"@, ".free_done"@),
            AsmLine::Text("    mov r8, rcx"@),
            AsmLine::Mem("    mov rcx, ["@, "__axiom_hHeap"@, 0, "]"@),
            AsmLine::Text("    xor edx, edx"@),
            AsmLine::Call("HeapFree"@),
            AsmLine::Label(".free_done"@),
        ],
    }
}

/// The `__axiom_print_int` routine.
pub open spec fn print_int_routine() -> Routine {
    Routine {
        doc: Some("; __axiom_print_int(rcx: int64)"@),
        name: print_int_name(),
        frame: 48,
        body: seq![
            AsmLine::Text("    mov rax, rcx"@),
            AsmLine::Mem("    lea rdi, ["@, "__axiom_print_buf"@, 31, "]"@),
            AsmLine::Text("    mov byte [rdi], 0"@),
            AsmLine::Text("    mov byte [rdi - 1], 10"@),
            AsmLine::Text("    mov byte [rdi - 2], 13"@),
            AsmLine::Text("    sub rdi, 2"@),
            AsmLine::Text("    test rax, rax"@),
            AsmLine::Jump("jns"@, ".int_pos"@),
            AsmLine::Text("    neg rax"@),
            AsmLine::Text("    mov r8b, 1"@),
            AsmLine::Jump("jmp"@, ".int_loop"@),
            AsmLine::Label(".int_pos"@),
            AsmLine::Text("    xor r8b, r8b"@),
            AsmLine::Label(".int_loop"@),
            AsmLine::Text("    xor edx, edx"@),
            AsmLine::Text("    mov rbx, 10"@),
            AsmLine::Text("    div rbx"@),
            AsmLine::Text("    add dl, '0'"@),
            AsmLine::Text("    dec rdi"@),
            AsmLine::Text("    mov [rdi], dl"@),
            AsmLine::Text("    test rax, rax"@),
            AsmLine::Jump("jnz"@, ".int_loop"@),
            AsmLine::Text("    test r8b, r8b"@),
            AsmLine::Jump("jz"@, ".int_write"@),
            AsmLine::Text("    dec rdi"@),
            AsmLine::Text("    mov byte [rdi], '-'"@),
            AsmLine::Label(".int_write"@),
            AsmLine::Mem("    lea rax, ["@, "__axiom_print_buf"@, 31, "]"@),
            AsmLine::Text("    sub rax, rdi"@),
            AsmLine::Mem("    mov rcx, ["@, "__axiom_hStdOut"@, 0, "]"@),
            AsmLine::Text("    mov rdx, rdi"@),
            AsmLine::Text("    mov r8, rax"@),
            AsmLine::Mem("    lea r9, ["@, "__axiom_bytes_written"@, 0, "]"@),
            AsmLine::Text("    mov qword [rsp + 32], 0"@),
            AsmLine::Call("WriteFile"@),
        ],
    }
}

/// The `__axiom_print_string` routine.
pub open spec fn print_string_routine() -> Routine {
    Routine {
        doc: Some("; __axiom_print_string(rcx: const char*)"@),
        name: print_string_name(),
        frame: 48,
        body: seq![
            AsmLine::Text("    test rcx, rcx"@),
            AsmLine::Jump("jz"@, ".str_done"@),
            AsmLine::Text("    mov rsi, rcx"@),
            AsmLine::Text("    xor r8, r8"@),
            AsmLine::Label(".str_len"@),
            AsmLine::Text("    cmp byte [rsi + r8], 0"@),
            AsmLine::Jump("je"@, ".str_write"@),
            AsmLine::Text("    inc r8"@),
            AsmLine::Jump("jmp"@, ".str_len"@),
            AsmLine::Label(".str_write"@),
            AsmLine::Mem("    mov rcx, ["@, "__axiom_hStdOut"@, 0, "]"@),
            AsmLine::Text("    mov rdx, rsi"@),
            AsmLine::Mem("    lea r9, ["@, "__axiom_bytes_written"@, 0, "]"@),
            AsmLine::Text("    mov qword [rsp + 32], 0"@),
            AsmLine::Call("WriteFile"@),
            AsmLine::Text("    ; Print CRLF"@),
            AsmLine::Mem("    mov rcx, ["@, "__axiom_hStdOut"@, 0, "]"@),
            AsmLine::Mem("    lea rdx, ["@, "__axiom_crlf"@, 0, "]"@),
            AsmLine::Text("    mov r8, "@ + decimal(2)),
            AsmLine::Mem("    lea r9, ["@, "__axiom_bytes_written"@, 0, "]"@),
            AsmLine::Text("    mov qword [rsp + 32], 0"@),
            AsmLine::Call("WriteFile"@),
            AsmLine::Label(".str_done"@),
        ],
    }
}

/// The `__axiom_print_bool` routine.
pub open spec fn print_bool_routine() -> Routine {
    Routine {
        doc: Some("; __axiom_print_bool(rcx: bool flag)"@),
        name: print_bool_name(),
        frame: 48,
        body: seq![
            AsmLine::Text("    test rcx, rcx"@),
            AsmLine::Jump("jz"@, ".bool_no"@),
            AsmLine::Mem("    lea rdx, ["@, "__axiom_str_yes"@, 0, "]"@),
            AsmLine::Text("    mov r8, "@ + decimal(5)),
            AsmLine::Jump("jmp"@, ".bool_print"@),
            AsmLine::Label(".bool_no"@),
            AsmLine::Mem("    lea rdx, ["@, "__axiom_str_no"@, 0, "]"@),
            AsmLine::Text("    mov r8, "@ + decimal(4)),
            AsmLine::Label(".bool_print"@),
            AsmLine::Mem("    mov rcx, ["@, "__axiom_hStdOut"@, 0, "]"@),
            AsmLine::Mem("    lea r9, ["@, "__axiom_bytes_written"@, 0, "]"@),
            AsmLine::Text("    mov qword [rsp + 32], 0"@),
            AsmLine::Call("WriteFile"@),
        ],
    }
}

/// The `__axiom_print_double` routine.
pub open spec fn print_double_routine() -> Routine {
    Routine {
        doc: Some("; __axiom_print_double(xmm0: double)"@),
        name: print_double_name(),
        frame: 48,
        body: seq![
            AsmLine::Text("    cvttsd2si rcx, xmm0"@),
            AsmLine::Call(print_int_name()),
        ],
    }
}

/// The routines of the runtime, in the order they are emitted.
pub open spec fn runtime_routines() -> Seq<Routine> {
    seq![
        rt_init_routine(),
        claim_routine(),
        purge_routine(),
        print_int_routine(),
        print_string_routine(),
        print_bool_routine(),
        print_double_routine(),
    ]
}

/// The runtime code: the banner, then each routine.
pub open spec fn runtime_lines() -> Seq<AsmLine> {
    banner_lines()
        + routine_lines(rt_init_routine())
        + routine_lines(claim_routine())
        + routine_lines(purge_routine())
        + routine_lines(print_int_routine())
        + routine_lines(print_string_routine())
        + routine_lines(print_bool_routine())
        + routine_lines(print_double_routine())
}

fn rt_init_symbol() -> (s: &'static str)
    ensures
        s@ == rt_init_name(),
{
    "__axiom_rt_init"
}

fn claim_symbol() -> (s: &'static str)
    ensures
        s@ == claim_name(),
{
    "__axiom_claim"
}

fn purge_symbol() -> (s: &'static str)
    ensures
        s@ == purge_name(),
{
    "__axiom_purge"
}

fn print_int_symbol() -> (s: &'static str)
    ensures
        s@ == print_int_name(),
{
    "__axiom_print_int"
}

fn print_double_symbol() -> (s: &'static str)
    ensures
        s@ == print_double_name(),
{
    "__axiom_print_double"
}

fn print_string_symbol() -> (s: &'static str)
    ensures
        s@ == print_string_name(),
{
    "__axiom_print_string"
}

fn print_bool_symbol() -> (s: &'static str)
    ensures
        s@ == print_bool_name(),
{
    "__axiom_print_bool"
}

/// Writes the label of a routine and sets up its frame.
fn open_routine(l: &mut Listing, name: &str, frame: i32)
    requires
        old(l).wf(),
    ensures
        final(l).wf(),
        final(l).lines() == old(l).lines() + entry_lines(name@, frame as int),
{
    l.label(name);
    l.text("    push rbp");
    l.text("    mov rbp, rsp");
    l.text_number("    sub rsp, ", frame);
    assert(l.lines() =~= old(l).lines() + entry_lines(name@, frame as int));
}

/// Releases the frame of a routine and returns from it.
fn close_routine(l: &mut Listing, frame: i32)
    requires
        old(l).wf(),
    ensures
        final(l).wf(),
        final(l).lines() == old(l).lines() + exit_frame_lines(frame as int),
{
    l.text_number("    add rsp, ", frame);
    l.text("    pop rbp");
    l.text("    ret");
    l.blank();
    assert(l.lines() =~= old(l).lines() + exit_frame_lines(frame as int));
}

fn emit_banner(l: &mut Listing)
    requires
        old(l).wf(),
    ensures
        final(l).wf(),
        final(l).lines() == old(l).lines() + banner_lines(),
{
    l.text("; ===================================================================");
    l.text("; Axiom Runtime Library - Windows x64 Native Implementation");
    l.text("; Freestanding / Zero C Runtime");
    l.text("; ===================================================================");
    l.blank();
    assert(l.lines() =~= old(l).lines() + banner_lines());
}

fn emit_rt_init_routine(l: &mut Listing)
    requires
        old(l).wf(),
    ensures
        final(l).wf(),
        final(l).lines() == old(l).lines() + routine_lines(rt_init_routine()),
{
    open_routine(l, rt_init_symbol(), 32);
    l.text("    ; Cache STD_OUTPUT_HANDLE (-11)");
    l.text("    mov ecx, -11");
    l.call("GetStdHandle");
    l.mem("    mov [", "__axiom_hStdOut", 0, "], rax");
    l.text("    ; Cache default Process Heap handle");
    l.call("GetProcessHeap");
    l.mem("    mov [", "__axiom_hHeap", 0, "], rax");
    close_routine(l, 32);
    assert(l.lines() =~= old(l).lines() + routine_lines(rt_init_routine()));
}

fn emit_claim_routine(l: &mut Listing)
    requires
        old(l).wf(),
    ensures
        final(l).wf(),
        final(l).lines() == old(l).lines() + routine_lines(claim_routine()),
{
    l.text("; __axiom_claim(rcx: size) -> rax: pointer");
    open_routine(l, claim_symbol(), 32);
    l.text("    mov r8, rcx");
    l.mem("    mov rcx, [", "__axiom_hHeap", 0, "]");
    l.text("    mov edx, 8");
    l.call("HeapAlloc");
    close_routine(l, 32);
    assert(l.lines() =~= old(l).lines() + routine_lines(claim_routine()));
}

fn emit_purge_routine(l: &mut Listing)
    requires
        old(l).wf(),
    ensures
        final(l).wf(),
        final(l).lines() == old(l).lines() + routine_lines(purge_routine()),
{
    l.text("; __axiom_purge(rcx: pointer)");
    open_routine(l, purge_symbol(), 32);
    l.text("    test rcx, rcx");
    l.jump("jz", ".free_done");
    l.text("    mov r8, rcx");
    l.mem("    mov rcx, [", "__axiom_hHeap", 0, "]");
    l.text("    xor edx, edx");
    l.call("HeapFree");
    l.label(".free_done");
    close_routine(l, 32);
    assert(l.lines() =~= old(l).lines() + routine_lines(purge_routine()));
}

fn emit_print_int_routine(l: &mut Listing)
    requires
        old(l).wf(),
    ensures
        final(l).wf(),
        final(l).lines() == old(l).lines() + routine_lines(print_int_routine()),
{
    l.text("; __axiom_print_int(rcx: int64)");
    open_routine(l, print_int_symbol(), 48);
    l.text("    mov rax, rcx");
    l.mem("    lea rdi, [", "__axiom_print_buf", 31, "]");
    l.text("    mov byte [rdi], 0");
    l.text("    mov byte [rdi - 1], 10");
    l.text("    mov byte [rdi - 2], 13");
    l.text("    sub rdi, 2");
    l.text("    test rax, rax");
    l.jump("jns", ".int_pos");
    l.text("    neg rax");
    l.text("    mov r8b, 1");
    l.jump("jmp", ".int_loop");
    l.label(".int_pos");
    l.text("    xor r8b, r8b");
    l.label(".int_loop");
    l.text("    xor edx, edx");
    l.text("    mov rbx, 10");
    l.text("    div rbx");
    l.text("    add dl, '0'");
    l.text("    dec rdi");
    l.text("    mov [rdi], dl");
    l.text("    test rax, rax");
    l.jump("jnz", ".int_loop");
    l.text("    test r8b, r8b");
    l.jump("jz", ".int_write");
    l.text("    dec rdi");
    l.text("    mov byte [rdi], '-'");
    l.label(".int_write");
    l.mem("    lea rax, [", "__axiom_print_buf", 31, "]");
    l.text("    sub rax, rdi");
    l.mem("    mov rcx, [", "__axiom_hStdOut", 0, "]");
    l.text("    mov rdx, rdi");
    l.text("    mov r8, rax");
    l.mem("    lea r9, [", "__axiom_bytes_written", 0, "]");
    l.text("    mov qword [rsp + 32], 0");
    l.call("WriteFile");
    close_routine(l, 48);
    assert(l.lines() =~= old(l).lines() + routine_lines(print_int_routine()));
}

fn emit_print_string_routine(l: &mut Listing)
    requires
        old(l).wf(),
    ensures
        final(l).wf(),
        final(l).lines() == old(l).lines() + routine_lines(print_string_routine()),
{
    l.text("; __axiom_print_string(rcx: const char*)");
    open_routine(l, print_string_symbol(), 48);
    l.text("    test rcx, rcx");
    l.jump("jz", ".str_done");
    l.text("    mov rsi, rcx");
    l.text("    xor r8, r8");
    l.label(".str_len");
    l.text("    cmp byte [rsi + r8], 0");
    l.jump("je", ".str_write");
    l.text("    inc r8");
    l.jump("jmp", ".str_len");
    l.label(".str_write");
    l.mem("    mov rcx, [", "__axiom_hStdOut", 0, "]");
    l.text("    mov rdx, rsi");
    l.mem("    lea r9, [", "__axiom_bytes_written", 0, "]");
    l.text("    mov qword [rsp + 32], 0");
    l.call("WriteFile");
    l.text("    ; Print CRLF");
    l.mem("    mov rcx, [", "__axiom_hStdOut", 0, "]");
    l.mem("    lea rdx, [", "__axiom_crlf", 0, "]");
    l.text_number("    mov r8, ", 2);
    l.mem("    lea r9, [", "__axiom_bytes_written", 0, "]");
    l.text("    mov qword [rsp + 32], 0");
    l.call("WriteFile");
    l.label(".str_done");
    close_routine(l, 48);
    assert(l.lines() =~= old(l).lines() + routine_lines(print_string_routine()));
}

fn emit_print_bool_routine(l: &mut Listing)
    requires
        old(l).wf(),
    ensures
        final(l).wf(),
        final(l).lines() == old(l).lines() + routine_lines(print_bool_routine()),
{
    l.text("; __axiom_print_bool(rcx: bool flag)");
    open_routine(l, print_bool_symbol(), 48);
    l.text("    test rcx, rcx");
    l.jump("jz", ".bool_no");
    l.mem("    lea rdx, [", "__axiom_str_yes", 0, "]");
    l.text_number("    mov r8, ", 5);
    l.jump("jmp", ".bool_print");
    l.label(".bool_no");
    l.mem("    lea rdx, [", "__axiom_str_no", 0, "]");
    l.text_number("    mov r8, ", 4);
    l.label(".bool_print");
    l.mem("    mov rcx, [", "__axiom_hStdOut", 0, "]");
    l.mem("    lea r9, [", "__axiom_bytes_written", 0, "]");
    l.text("    mov qword [rsp + 32], 0");
    l.call("WriteFile");
    close_routine(l, 48);
    assert(l.lines() =~= old(l).lines() + routine_lines(print_bool_routine()));
}

fn emit_print_double_routine(l: &mut Listing)
    requires
        old(l).wf(),
    ensures
        final(l).wf(),
        final(l).lines() == old(l).lines() + routine_lines(print_double_routine()),
{
    l.text("; __axiom_print_double(xmm0: double)");
    open_routine(l, print_double_symbol(), 48);
    l.text("    cvttsd2si rcx, xmm0");
    l.call(print_int_symbol());
    close_routine(l, 48);
    assert(l.lines() =~= old(l).lines() + routine_lines(print_double_routine()));
}

impl WindowsRuntimeEmitter {
    pub fn new() -> (r: Self)
        ensures
            r == WindowsRuntimeEmitter,
    {
        WindowsRuntimeEmitter
    }
}

impl Default for WindowsRuntimeEmitter {
    fn default() -> (r: Self)
        ensures
            r == WindowsRuntimeEmitter,
    {
        Self::new()
    }
}

impl RuntimeEmitter for WindowsRuntimeEmitter {
    open spec fn description(&self) -> Seq<char> {
        "Windows x86-64 Native Runtime (kernel32.dll)"@
    }

    open spec fn alloc_label(&self) -> Seq<char> {
        claim_name()
    }

    open spec fn free_label(&self) -> Seq<char> {
        purge_name()
    }

    open spec fn print_int_label(&self) -> Seq<char> {
        print_int_name()
    }

    open spec fn print_double_label(&self) -> Seq<char> {
        print_double_name()
    }

    open spec fn print_string_label(&self) -> Seq<char> {
        print_string_name()
    }

    open spec fn print_bool_label(&self) -> Seq<char> {
        print_bool_name()
    }

    open spec fn externs_listing(&self) -> Seq<AsmLine> {
        externs_lines()
    }

    open spec fn globals_listing(&self) -> Seq<AsmLine> {
        globals_lines()
    }

    open spec fn data_listing(&self) -> Seq<AsmLine> {
        data_lines()
    }

    open spec fn bss_listing(&self) -> Seq<AsmLine> {
        bss_lines()
    }

    open spec fn prologue_listing(&self) -> Seq<AsmLine> {
        prologue_lines()
    }

    open spec fn exit_listing(&self, code: i32) -> Seq<AsmLine> {
        exit_lines(code)
    }

    open spec fn runtime_listing(&self) -> Seq<AsmLine> {
        runtime_lines()
    }

    fn name(&self) -> (s: &'static str) {
        "Windows x86-64 Native Runtime (kernel32.dll)"
    }

    fn alloc_symbol(&self) -> (s: &'static str) {
        claim_symbol()
    }

    fn free_symbol(&self) -> (s: &'static str) {
        purge_symbol()
    }

    fn print_int_symbol(&self) -> (s: &'static str) {
        print_int_symbol()
    }

    fn print_double_symbol(&self) -> (s: &'static str) {
        print_double_symbol()
    }

    fn print_string_symbol(&self) -> (s: &'static str) {
        print_string_symbol()
    }

    fn print_bool_symbol(&self) -> (s: &'static str) {
        print_bool_symbol()
    }

    fn emit_externs(&self, out: &mut String) {
        let mut l = Listing::new();
        l.text("; --- Windows kernel32.dll API Imports ---");
        l.extern_decl("GetProcessHeap");
        l.extern_decl("HeapAlloc");
        l.extern_decl("HeapFree");
        l.extern_decl("GetStdHandle");
        l.extern_decl("WriteFile");
        l.extern_decl("ExitProcess");
        l.blank();
        assert(l.lines() =~= externs_lines());
        l.write_to(out);
    }

    fn emit_globals(&self, out: &mut String) {
        let mut l = Listing::new();
        l.text("; --- Axiom Runtime Exported Functions ---");
        l.global_decl(rt_init_symbol());
        l.global_decl(claim_symbol());
        l.global_decl(purge_symbol());
        l.global_decl(print_int_symbol());
        l.global_decl(print_double_symbol());
        l.global_decl(print_string_symbol());
        l.global_decl(print_bool_symbol());
        l.blank();
        assert(l.lines() =~= globals_lines());
        l.write_to(out);
    }

    fn emit_data(&self, out: &mut String) {
        let mut l = Listing::new();
        l.text("    ; Axiom Runtime Static Literals");
        l.crlf_string("__axiom_crlf", "");
        l.crlf_string("__axiom_str_yes", "yes");
        l.crlf_string("__axiom_str_no", "no");
        l.blank();
        assert(l.lines() =~= data_lines());
        l.write_to(out);
    }

    fn emit_bss(&self, out: &mut String) {
        let mut l = Listing::new();
        l.text("    ; Axiom Runtime Internal State");
        l.reserve("__axiom_hHeap", true, 1);
        l.reserve("__axiom_hStdOut", true, 1);
        l.reserve("__axiom_bytes_written", true, 1);
        l.reserve("__axiom_print_buf", false, 64);
        l.blank();
        assert(l.lines() =~= bss_lines());
        l.write_to(out);
    }

    fn emit_startup_prologue(&self, out: &mut String) {
        let mut l = Listing::new();
        l.text("    ; Initialize Axiom Runtime (heap & stdout handles)");
        l.call(rt_init_symbol());
        assert(l.lines() =~= prologue_lines());
        l.write_to(out);
    }

    fn emit_exit(&self, out: &mut String, code: i32) {
        let mut l = Listing::new();
        l.text("    ; Exit process via Windows API");
        l.text_number("    mov ecx, ", code);
        l.call("ExitProcess");
        assert(l.lines() =~= exit_lines(code));
        l.write_to(out);
    }

    fn emit_runtime_text(&self, out: &mut String) {
        let mut l = Listing::new();
        emit_banner(&mut l);
        emit_rt_init_routine(&mut l);
        emit_claim_routine(&mut l);
        emit_purge_routine(&mut l);
        emit_print_int_routine(&mut l);
        emit_print_string_routine(&mut l);
        emit_print_bool_routine(&mut l);
        emit_print_double_routine(&mut l);
        assert(l.lines() =~= runtime_lines());
        l.write_to(out);
    }
}

} // verus!
