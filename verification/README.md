# golem_wasm_ast

Gathers the exports of a WebAssembly component together with the types of their
functions: `AnalysisContext::get_top_level_exports` lists each exported function with
its parameter and result types, and each exported instance with the functions of the
component it instantiates. Exports of other kinds are skipped with a warning; resource
handles get an identifier per resource type.

The library is written in Verus. `context` specifies the analysis; `analyse` and
`resolve` implement it and are proved to meet that specification. A component is given
as its list of sections (`component`), from which its index spaces are read.

`laws`, `fuel`, `growth` and `replay` state and prove properties across functions:
constructor, method and static-method names exclude each other; resource identifiers are
stable across later steps and distinct; the analysis only appends to its warnings and
resource types; analysing a second time gives the same exports; and the answer does not
depend on the fuel that bounds its recursion in the specification.
