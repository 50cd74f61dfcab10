# axiom_rt

The Windows x86-64 runtime library emitter of the Axiom compiler. It
produces the NASM source of a freestanding runtime that calls kernel32.dll
directly (HeapAlloc/HeapFree, WriteFile, ExitProcess).

- `src/decimal.rs`: decimal text of integers, with a proof that it reads back.
- `src/listing.rs`: a line model of assembly text and a builder that writes
  the text of the lines it is given.
- `src/runtime.rs`: the `RuntimeEmitter` interface and `WindowsRuntimeEmitter`;
  each section's text is stated exactly in its contract.
- `src/laws.rs`: properties across sections: every interface symbol is
  exported and defined, every call and jump resolves, labels are defined
  once, frames follow the Windows x64 convention, and exit codes are kept.
- `src/linkage.rs`: how the sections fit together: memory operands reach
  data or bss storage, printed lengths match the strings, names are defined
  once across sections, and only kernel32.dll functions are imported.
- `src/text_laws.rs`: the emitted text, split at its line feeds, is the text
  of the modelled lines, so the laws hold of the text itself.
- `app/main.rs`: writes the runtime library to `axiom_rt.asm`.
