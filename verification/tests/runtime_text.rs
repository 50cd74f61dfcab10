use axiom_rt::decimal::{append_decimal, append_digits};
use axiom_rt::runtime::{RuntimeEmitter, WindowsRuntimeEmitter};

/// The text that a sequence of `writeln!` calls with these lines produces.
fn text_of(lines: &[&str]) -> String {
    let mut s = String::new();
    for l in lines {
        s.push_str(l);
        s.push('\n');
    }
    s
}

fn expected_externs() -> Vec<&'static str> {
    vec![
        "; --- Windows kernel32.dll API Imports ---",
        "extern GetProcessHeap",
        "extern HeapAlloc",
        "extern HeapFree",
        "extern GetStdHandle",
        "extern WriteFile",
        "extern ExitProcess",
        "",
    ]
}

fn expected_globals() -> Vec<&'static str> {
    vec![
        "; --- Axiom Runtime Exported Functions ---",
        "global __axiom_rt_init",
        "global __axiom_claim",
        "global __axiom_purge",
        "global __axiom_print_int",
        "global __axiom_print_double",
        "global __axiom_print_string",
        "global __axiom_print_bool",
        "",
    ]
}

fn expected_data() -> Vec<&'static str> {
    vec![
        "    ; Axiom Runtime Static Literals",
        "    __axiom_crlf: db 13, 10",
        "    __axiom_str_yes: db 'yes', 13, 10",
        "    __axiom_str_no: db 'no', 13, 10",
        "",
    ]
}

fn expected_bss() -> Vec<&'static str> {
    vec![
        "    ; Axiom Runtime Internal State",
        "    __axiom_hHeap: resq 1",
        "    __axiom_hStdOut: resq 1",
        "    __axiom_bytes_written: resq 1",
        "    __axiom_print_buf: resb 64",
        "",
    ]
}

fn expected_startup_prologue() -> Vec<&'static str> {
    vec![
        "    ; Initialize Axiom Runtime (heap & stdout handles)",
        "    call __axiom_rt_init",
    ]
}

fn expected_runtime_text() -> Vec<&'static str> {
    vec![
        "; ===================================================================",
        "; Axiom Runtime Library - Windows x64 Native Implementation",
        "; Freestanding / Zero C Runtime",
        "; ===================================================================",
        "",
        "__axiom_rt_init:",
        "    push rbp",
        "    mov rbp, rsp",
        "    sub rsp, 32",
        "    ; Cache STD_OUTPUT_HANDLE (-11)",
        "    mov ecx, -11",
        "    call GetStdHandle",
        "    mov [__axiom_hStdOut], rax",
        "    ; Cache default Process Heap handle",
        "    call GetProcessHeap",
        "    mov [__axiom_hHeap], rax",
        "    add rsp, 32",
        "    pop rbp",
        "    ret",
        "",
        "; __axiom_claim(rcx: size) -> rax: pointer",
        "__axiom_claim:",
        "    push rbp",
        "    mov rbp, rsp",
        "    sub rsp, 32",
        "    mov r8, rcx",
        "    mov rcx, [__axiom_hHeap]",
        "    mov edx, 8",
        "    call HeapAlloc",
        "    add rsp, 32",
        "    pop rbp",
        "    ret",
        "",
        "; __axiom_purge(rcx: pointer)",
        "__axiom_purge:",
        "    push rbp",
        "    mov rbp, rsp",
        "    sub rsp, 32",
        "    test rcx, rcx",
        "    jz .free_done",
        "    mov r8, rcx",
        "    mov rcx, [__axiom_hHeap]",
        "    xor edx, edx",
        "    call HeapFree",
        ".free_done:",
        "    add rsp, 32",
        "    pop rbp",
        "    ret",
        "",
        "; __axiom_print_int(rcx: int64)",
        "__axiom_print_int:",
        "    push rbp",
        "    mov rbp, rsp",
        "    sub rsp, 48",
        "    mov rax, rcx",
        "    lea rdi, [__axiom_print_buf + 31]",
        "    mov byte [rdi], 0",
        "    mov byte [rdi - 1], 10",
        "    mov byte [rdi - 2], 13",
        "    sub rdi, 2",
        "    test rax, rax",
        "    jns .int_pos",
        "    neg rax",
        "    mov r8b, 1",
        "    jmp .int_loop",
        ".int_pos:",
        "    xor r8b, r8b",
        ".int_loop:",
        "    xor edx, edx",
        "    mov rbx, 10",
        "    div rbx",
        "    add dl, '0'",
        "    dec rdi",
        "    mov [rdi], dl",
        "    test rax, rax",
        "    jnz .int_loop",
        "    test r8b, r8b",
        "    jz .int_write",
        "    dec rdi",
        "    mov byte [rdi], '-'",
        ".int_write:",
        "    lea rax, [__axiom_print_buf + 31]",
        "    sub rax, rdi",
        "    mov rcx, [__axiom_hStdOut]",
        "    mov rdx, rdi",
        "    mov r8, rax",
        "    lea r9, [__axiom_bytes_written]",
        "    mov qword [rsp + 32], 0",
        "    call WriteFile",
        "    add rsp, 48",
        "    pop rbp",
        "    ret",
        "",
        "; __axiom_print_string(rcx: const char*)",
        "__axiom_print_string:",
        "    push rbp",
        "    mov rbp, rsp",
        "    sub rsp, 48",
        "    test rcx, rcx",
        "    jz .str_done",
        "    mov rsi, rcx",
        "    xor r8, r8",
        ".str_len:",
        "    cmp byte [rsi + r8], 0",
        "    je .str_write",
        "    inc r8",
        "    jmp .str_len",
        ".str_write:",
        "    mov rcx, [__axiom_hStdOut]",
        "    mov rdx, rsi",
        "    lea r9, [__axiom_bytes_written]",
        "    mov qword [rsp + 32], 0",
        "    call WriteFile",
        "    ; Print CRLF",
        "    mov rcx, [__axiom_hStdOut]",
        "    lea rdx, [__axiom_crlf]",
        "    mov r8, 2",
        "    lea r9, [__axiom_bytes_written]",
        "    mov qword [rsp + 32], 0",
        "    call WriteFile",
        ".str_done:",
        "    add rsp, 48",
        "    pop rbp",
        "    ret",
        "",
        "; __axiom_print_bool(rcx: bool flag)",
        "__axiom_print_bool:",
        "    push rbp",
        "    mov rbp, rsp",
        "    sub rsp, 48",
        "    test rcx, rcx",
        "    jz .bool_no",
        "    lea rdx, [__axiom_str_yes]",
        "    mov r8, 5",
        "    jmp .bool_print",
        ".bool_no:",
        "    lea rdx, [__axiom_str_no]",
        "    mov r8, 4",
        ".bool_print:",
        "    mov rcx, [__axiom_hStdOut]",
        "    lea r9, [__axiom_bytes_written]",
        "    mov qword [rsp + 32], 0",
        "    call WriteFile",
        "    add rsp, 48",
        "    pop rbp",
        "    ret",
        "",
        "; __axiom_print_double(xmm0: double)",
        "__axiom_print_double:",
        "    push rbp",
        "    mov rbp, rsp",
        "    sub rsp, 48",
        "    cvttsd2si rcx, xmm0",
        "    call __axiom_print_int",
        "    add rsp, 48",
        "    pop rbp",
        "    ret",
        "",
    ]
}

fn expected_exit(code: &str) -> String {
    text_of(&["    ; Exit process via Windows API", &format!("    mov ecx, {}", code), "    call ExitProcess"])
}

fn emitted(f: impl Fn(&WindowsRuntimeEmitter, &mut String)) -> String {
    let rt = WindowsRuntimeEmitter::new();
    let mut out = String::new();
    f(&rt, &mut out);
    out
}

#[test]
fn externs_section_text() {
    assert_eq!(emitted(|r, o| r.emit_externs(o)), text_of(&expected_externs()));
}

#[test]
fn globals_section_text() {
    assert_eq!(emitted(|r, o| r.emit_globals(o)), text_of(&expected_globals()));
}

#[test]
fn data_section_text() {
    assert_eq!(emitted(|r, o| r.emit_data(o)), text_of(&expected_data()));
}

#[test]
fn bss_section_text() {
    assert_eq!(emitted(|r, o| r.emit_bss(o)), text_of(&expected_bss()));
}

#[test]
fn startup_prologue_text() {
    assert_eq!(emitted(|r, o| r.emit_startup_prologue(o)), text_of(&expected_startup_prologue()));
}

#[test]
fn runtime_text_is_exact() {
    assert_eq!(emitted(|r, o| r.emit_runtime_text(o)), text_of(&expected_runtime_text()));
}

#[test]
fn runtime_text_line_count() {
    let text = emitted(|r, o| r.emit_runtime_text(o));
    assert_eq!(text.lines().count(), 158);
    assert!(text.ends_with("    ret\n\n"));
}

#[test]
fn exit_with_zero() {
    assert_eq!(emitted(|r, o| r.emit_exit(o, 0)), expected_exit("0"));
}

#[test]
fn exit_with_positive_codes() {
    assert_eq!(emitted(|r, o| r.emit_exit(o, 1)), expected_exit("1"));
    assert_eq!(emitted(|r, o| r.emit_exit(o, 42)), expected_exit("42"));
    assert_eq!(emitted(|r, o| r.emit_exit(o, 100)), expected_exit("100"));
    assert_eq!(emitted(|r, o| r.emit_exit(o, i32::MAX)), expected_exit("2147483647"));
}

#[test]
fn exit_with_negative_codes() {
    assert_eq!(emitted(|r, o| r.emit_exit(o, -1)), expected_exit("-1"));
    assert_eq!(emitted(|r, o| r.emit_exit(o, -305)), expected_exit("-305"));
    assert_eq!(emitted(|r, o| r.emit_exit(o, i32::MIN)), expected_exit("-2147483648"));
}

#[test]
fn exit_code_reads_back() {
    for code in [0, 7, -7, 10, -10, 99999, -100000, i32::MAX, i32::MIN] {
        let text = emitted(|r, o| r.emit_exit(o, code));
        let line = text.lines().nth(1).unwrap();
        let operand = line.strip_prefix("    mov ecx, ").unwrap();
        assert_eq!(operand.parse::<i32>().unwrap(), code);
    }
}

#[test]
fn emitting_appends_after_existing_text() {
    let rt = WindowsRuntimeEmitter::new();
    let mut out = String::from("section .text\n");
    rt.emit_startup_prologue(&mut out);
    rt.emit_exit(&mut out, 3);
    let mut expected = String::from("section .text\n");
    expected.push_str(&text_of(&expected_startup_prologue()));
    expected.push_str(&expected_exit("3"));
    assert_eq!(out, expected);
}

#[test]
fn runtime_name_and_symbols() {
    let rt = WindowsRuntimeEmitter::new();
    assert_eq!(rt.name(), "Windows x86-64 Native Runtime (kernel32.dll)");
    assert_eq!(rt.alloc_symbol(), "__axiom_claim");
    assert_eq!(rt.free_symbol(), "__axiom_purge");
    assert_eq!(rt.print_int_symbol(), "__axiom_print_int");
    assert_eq!(rt.print_double_symbol(), "__axiom_print_double");
    assert_eq!(rt.print_string_symbol(), "__axiom_print_string");
    assert_eq!(rt.print_bool_symbol(), "__axiom_print_bool");
}

#[test]
fn default_is_the_same_emitter() {
    let a = WindowsRuntimeEmitter::default();
    let mut x = String::new();
    let mut y = String::new();
    a.emit_runtime_text(&mut x);
    WindowsRuntimeEmitter::new().emit_runtime_text(&mut y);
    assert_eq!(x, y);
}

#[test]
fn interface_symbols_are_exported_and_defined() {
    let rt = WindowsRuntimeEmitter::new();
    let globals = emitted(|r, o| r.emit_globals(o));
    let text = emitted(|r, o| r.emit_runtime_text(o));
    for sym in [
        rt.alloc_symbol(),
        rt.free_symbol(),
        rt.print_int_symbol(),
        rt.print_double_symbol(),
        rt.print_string_symbol(),
        rt.print_bool_symbol(),
        "__axiom_rt_init",
    ] {
        assert!(globals.lines().any(|l| l == format!("global {}", sym)));
        assert!(text.lines().any(|l| l == format!("{}:", sym)));
    }
}

#[test]
fn every_global_is_defined() {
    let globals = emitted(|r, o| r.emit_globals(o));
    let text = emitted(|r, o| r.emit_runtime_text(o));
    let mut n = 0;
    for l in globals.lines() {
        if let Some(sym) = l.strip_prefix("global ") {
            n += 1;
            assert!(text.lines().any(|t| t == format!("{}:", sym)));
        }
    }
    assert_eq!(n, 7);
}

#[test]
fn every_call_resolves() {
    let externs = emitted(|r, o| r.emit_externs(o));
    let mut code = emitted(|r, o| r.emit_runtime_text(o));
    let text = code.clone();
    let rt = WindowsRuntimeEmitter::new();
    rt.emit_startup_prologue(&mut code);
    rt.emit_exit(&mut code, 0);
    let mut n = 0;
    for l in code.lines() {
        if let Some(target) = l.strip_prefix("    call ") {
            n += 1;
            let imported = externs.lines().any(|e| e == format!("extern {}", target));
            let defined = text.lines().any(|t| t == format!("{}:", target));
            assert!(imported || defined, "unresolved call {}", target);
        }
    }
    assert_eq!(n, 11);
}

#[test]
fn every_jump_resolves() {
    let text = emitted(|r, o| r.emit_runtime_text(o));
    let mut n = 0;
    for l in text.lines() {
        for j in ["    jz ", "    jnz ", "    jns ", "    jmp ", "    je "] {
            if let Some(target) = l.strip_prefix(j) {
                n += 1;
                assert!(text.lines().any(|t| t == format!("{}:", target)));
            }
        }
    }
    assert_eq!(n, 10);
}

#[test]
fn frames_are_reserved_and_released() {
    let text = emitted(|r, o| r.emit_runtime_text(o));
    let subs: Vec<u32> = text
        .lines()
        .filter_map(|l| l.strip_prefix("    sub rsp, "))
        .map(|n| n.parse().unwrap())
        .collect();
    let adds: Vec<u32> = text
        .lines()
        .filter_map(|l| l.strip_prefix("    add rsp, "))
        .map(|n| n.parse().unwrap())
        .collect();
    assert_eq!(subs, vec![32, 32, 32, 48, 48, 48, 48]);
    assert_eq!(subs, adds);
    for f in subs {
        assert!(f >= 32 && f % 16 == 0);
    }
}

#[test]
fn labels_are_unique() {
    let text = emitted(|r, o| r.emit_runtime_text(o));
    let labels: Vec<&str> = text.lines().filter(|l| l.ends_with(':') && !l.starts_with(' ')).collect();
    assert_eq!(labels.len(), 16);
    for (i, a) in labels.iter().enumerate() {
        for b in labels.iter().skip(i + 1) {
            assert_ne!(a, b);
        }
    }
}

#[test]
fn decimal_digits() {
    let mut s = String::new();
    append_digits(&mut s, 0);
    assert_eq!(s, "0");
    let mut s = String::from("x=");
    append_digits(&mut s, 4096);
    assert_eq!(s, "x=4096");
    let mut s = String::new();
    append_digits(&mut s, u32::MAX);
    assert_eq!(s, "4294967295");
}

#[test]
fn decimal_signed() {
    for v in [0, 5, 9, 10, -9, -10, 123456, -123456, i32::MAX, i32::MIN] {
        let mut s = String::from("[");
        append_decimal(&mut s, v);
        assert_eq!(s, format!("[{}", v));
    }
}

fn data_strings() -> Vec<(String, usize)> {
    let data = emitted(|r, o| r.emit_data(o));
    let mut out = Vec::new();
    for l in data.lines() {
        if let Some((name, ops)) = l.trim_start().split_once(": db ") {
            let mut len = 0;
            for part in ops.split(", ") {
                if part.starts_with('\'') {
                    len += part.len() - 2;
                } else {
                    len += 1;
                }
            }
            out.push((name.to_string(), len));
        }
    }
    out
}

#[test]
fn printed_lengths_match_strings() {
    let strings = data_strings();
    assert_eq!(
        strings,
        vec![
            ("__axiom_crlf".to_string(), 2),
            ("__axiom_str_yes".to_string(), 5),
            ("__axiom_str_no".to_string(), 4),
        ]
    );
    let text = emitted(|r, o| r.emit_runtime_text(o));
    let lines: Vec<&str> = text.lines().collect();
    let mut n = 0;
    for (i, l) in lines.iter().enumerate() {
        if let Some(rest) = l.strip_prefix("    lea rdx, [") {
            let name = rest.strip_suffix(']').unwrap();
            let len = strings.iter().find(|(s, _)| s == name).unwrap().1;
            assert_eq!(lines[i + 1], format!("    mov r8, {}", len));
            n += 1;
        }
    }
    assert_eq!(n, 3);
}

#[test]
fn memory_operands_are_stored() {
    let data = emitted(|r, o| r.emit_data(o));
    let bss = emitted(|r, o| r.emit_bss(o));
    let text = emitted(|r, o| r.emit_runtime_text(o));
    let mut n = 0;
    for l in text.lines() {
        if let Some(start) = l.find("[__axiom_") {
            let inner = &l[start + 1..l.find(']').unwrap()];
            let (name, offset) = match inner.split_once(" + ") {
                Some((a, b)) => (a, b.parse::<usize>().unwrap()),
                None => (inner, 0),
            };
            let in_data = data.lines().any(|d| d.trim_start().starts_with(&format!("{}: db", name)));
            let reserved = bss.lines().find_map(|b| b.trim_start().strip_prefix(&format!("{}: ", name)).map(|r| r.to_string()));
            match reserved {
                Some(r) => {
                    let (unit, count) = r.split_once(' ').unwrap();
                    let count: usize = count.parse().unwrap();
                    let bytes = if unit == "resq" { 8 * count } else { count };
                    assert!(offset < bytes);
                }
                None => assert!(in_data && offset == 0),
            }
            n += 1;
        }
    }
    assert_eq!(n, 17);
}

#[test]
fn section_names_are_distinct() {
    let data = emitted(|r, o| r.emit_data(o));
    let bss = emitted(|r, o| r.emit_bss(o));
    let globals = emitted(|r, o| r.emit_globals(o));
    let externs = emitted(|r, o| r.emit_externs(o));
    let mut names: Vec<String> = Vec::new();
    for l in globals.lines() {
        if let Some(x) = l.strip_prefix("global ") {
            names.push(x.to_string());
        }
    }
    for l in data.lines().chain(bss.lines()) {
        if let Some((name, _)) = l.trim_start().split_once(": ") {
            names.push(name.to_string());
        }
    }
    assert_eq!(names.len(), 14);
    for (i, a) in names.iter().enumerate() {
        assert!(a.starts_with("__axiom_"));
        assert!(!externs.lines().any(|e| e == format!("extern {}", a)));
        for b in names.iter().skip(i + 1) {
            assert_ne!(a, b);
        }
    }
}

#[test]
fn imports_are_kernel32_only() {
    let externs = emitted(|r, o| r.emit_externs(o));
    let imported: Vec<&str> = externs.lines().filter_map(|l| l.strip_prefix("extern ")).collect();
    assert_eq!(imported, vec!["GetProcessHeap", "HeapAlloc", "HeapFree", "GetStdHandle", "WriteFile", "ExitProcess"]);
    let mut code = emitted(|r, o| r.emit_runtime_text(o));
    let rt = WindowsRuntimeEmitter::new();
    rt.emit_startup_prologue(&mut code);
    rt.emit_exit(&mut code, 1);
    for f in &imported {
        assert!(code.lines().any(|l| l == format!("    call {}", f)));
    }
    for c in ["malloc", "calloc", "realloc", "free", "printf", "puts", "exit"] {
        assert!(!code.lines().any(|l| l == format!("    call {}", c)));
        assert!(!imported.contains(&c));
    }
}

#[test]
fn init_routine_stores_handles() {
    let text = emitted(|r, o| r.emit_runtime_text(o));
    let lines: Vec<&str> = text.lines().collect();
    let start = lines.iter().position(|l| *l == "__axiom_rt_init:").unwrap();
    let end = start + lines[start..].iter().position(|l| *l == "    ret").unwrap();
    let init = &lines[start..end];
    assert!(init.contains(&"    mov [__axiom_hStdOut], rax"));
    assert!(init.contains(&"    mov [__axiom_hHeap], rax"));
    let stores = lines.iter().filter(|l| l.starts_with("    mov [__axiom_")).count();
    assert_eq!(stores, 2);
    let prologue = emitted(|r, o| r.emit_startup_prologue(o));
    assert_eq!(prologue.lines().nth(1), Some("    call __axiom_rt_init"));
}

#[test]
fn runtime_symbols_defined_once_in_text() {
    let rt = WindowsRuntimeEmitter::new();
    let text = emitted(|r, o| r.emit_runtime_text(o));
    for sym in [
        rt.alloc_symbol(),
        rt.free_symbol(),
        rt.print_int_symbol(),
        rt.print_double_symbol(),
        rt.print_string_symbol(),
        rt.print_bool_symbol(),
        "__axiom_rt_init",
    ] {
        assert_eq!(text.lines().filter(|l| *l == format!("{}:", sym)).count(), 1);
    }
}
