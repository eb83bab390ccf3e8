# amd64_semantic

Verified IL semantics for a part of the AMD64 instruction set.

Each instruction function appends the IL statements that describe the
instruction to a code generator; its contract gives those statements
exactly, together with the temporaries it allocates.

- `src/value.rs`: values (`Rvalue`) and places (`Lvalue`) of the IL.
- `src/amd64.rs`: registers, processor modes, operand sizes, condition codes.
- `src/codegen.rs`: IL operations and statements; the code generator.
- `src/disassembler.rs`: decoder state with mnemonics and jumps.
- `src/semantic.rs`: the instruction semantics and the specifications of
  the code each instruction emits.
- `src/machine.rs`: an IL machine (a spec-level interpreter of statements).
- `src/laws.rs`: proofs of what the emitted code computes on that machine.

The IL machine of `src/machine.rs` computes on unbounded integers and
stores a written value as it is: it does not reduce the value to the
width of the place written, so a 1-bit flag can hold any integer and
`sub` may leave a negative value. Laws that depend on a place holding a
value of its width say so in their premises (for example a flag holding
0 or 1, or operands below `2^w`).
