# ocelotter

A small Java virtual machine written in Verus: it parses class files, keeps a
repository of loaded classes, allocates objects and arrays on a simple heap and
interprets integer, long, object, array and control-flow bytecodes.

## Layout

- `src/` is the verified library. Every executable function there carries a
  `requires` / `ensures` contract over a mathematical model (`Seq`, `Map`,
  `int`), and the public `law_*` proof functions state properties that span
  several operations (a load after a store, a lookup after an add, stepping a
  thread keeps the heap's objects, and so on).
  - `class_format`, `klass_parser`: the class-file format as spec functions on
    bytes, and the parser proved against them. Big-endian reads go through
    `byteorder`.
  - `klass_repo`, `klass_names`: the class repository and the grammar of
    class names.
  - `object`, `simple_heap`: objects, arrays and the heap.
  - `stack_ops`, `frame`, `heap_ops`, `object_ops`, `interpreter`: one
    instruction step as a function from state to state, and the loop that
    runs a method.
- `app/` is the command-line program: argument parsing (`structopt`), reading
  class files and jar archives (`zip`), the floating-point instructions and
  printing the result.
- `tests/` runs the library on hand-built class files and bytecode.
