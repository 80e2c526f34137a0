# lagertha_runtime

The core of a Java virtual machine runtime, written in Verus. The functions
in `src/` carry `requires`/`ensures` contracts that Verus proves; a few
trusted items stand where the library calls std or lasso (see below).

## Layout

- `src/heap.rs` — the object heap: a byte memory of object headers, instance
  fields and array elements (little-endian), with allocation on 8-byte
  boundaries, field and element access, array copies and clones.
  `src/java_string.rs` keeps Java strings on it (Latin-1 or UTF-16 coder,
  the string pool).
- `src/frame.rs`, `src/handlers.rs`, `src/interpreter.rs`,
  `src/instruction.rs` — the frame of a method call, the effect of each
  bytecode instruction, and the interpreter that carries instructions out,
  passes arguments, picks native method keys and finds exception handlers.
- `src/dispatch.rs` — the instructions that need the method area (fields,
  statics, `new`, arrays, `ldc`, `instanceof`, calls): the caller hands over
  what the method area answers as plain values, the step is carried out and
  verified here, and what only the method area can do (storing a static,
  running a method, loading a class) is handed back to finish the
  instruction afterwards. Floating-point instructions are handed back too.
- `src/constant_pool.rs` — the runtime constant pool and the resolution of
  its entries to interned names.
- `src/class.rs`, `src/class_init.rs`, `src/method.rs` — loaded classes,
  their initialization as a step machine (superclass and interfaces first,
  each class initializer handed out once), and methods with their code,
  exception tables and line numbers.
- `src/natives.rs`, `src/native_methods.rs` — the registry of native methods
  and what those natives compute (`fillInStackTrace` with the choice of the
  thread's frames, `initStackTraceElements`, `arraycopy`, `String.intern`,
  ...).
- `src/bootstrap_registry.rs`, `src/error.rs`, `src/value.rs`, `src/keys.rs`,
  `src/text.rs`, `src/interner.rs` — interned well-known names, errors and
  Java exceptions, values, identifiers, text building, and the string
  interner.
- `app/` — what stays outside verification: the loops that run a method
  and a native method against the host's method area, and class
  initialization, floating-point instructions, file system
  and standard stream natives, and `Display` forms of errors.
- `tests/` — tests of the library on concrete values.

## Trusted items

Verus believes these contracts without proof: the lasso interner's
`try_get_or_intern` and `try_resolve` (`src/interner.rs`, with the
declarations of `ThreadedRodeo` and `Spur`), std's
`String::from_utf16_lossy` (`src/java_string.rs`), `String::push`
(`src/text.rs`), `Path::file_name` (`src/native_methods.rs`) and the
`Debug` text of an error (`src/error.rs`).

## Not covered

`ExceptionMessage::MethodNotFound` messages are not rendered
(`into_resolved` and `into_pretty_string` require other messages): their
text is a method descriptor turned into a Java signature, and the
descriptor parser that does this lives in a crate of the original project
that this library does not have. Instruction decoding from bytecode is left
to the host for the same reason (`app/driver.rs` asks it for each
instruction).

Laws of the library (read after write on the heap, stable resolution, the
order of class initialization, the backtrace read back after
`fillInStackTrace`, ...) are public proof functions named `law_*`, or
clauses of the contracts they concern.
