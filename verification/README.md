# spv

Build SPIR-V shader modules at runtime from recorded instructions.

A shader is recorded in two stages. Stage one records, for each shader
function, a list of instructions over numbered variables; stage two lowers
that list to SPIR-V words through the `rspirv` module builder. Two recorded
instruction sets are provided:

- `ir`, recorded through `builder::BuilderInner` over shader types
  (`types::Type`), checked by `check` and lowered by `lower`, with the
  instruction choice of each operation in `select` and the module layout in
  `compile`;
- `prim_ir`, over primitive types (`prim::PrimitiveType`) and data types
  (`data::DataType`), checked by `prim_ir::check_list`, lowered by
  `prim_lower` and assembled into a single-entry module by `prim_module`.

`emit` declares types and constants in the module builder and caches struct
types; `typing` holds the typing rules of the typed front end; `layout` gives
the member layout a struct derive computes from Rust field types.

The library is verified with Verus: `src/` holds the verified code, and
`spirv_api.rs` and `scope.rs` hold the trusted declarations of the `rspirv`
and `slab` calls it makes. Their contracts speak of what the module builder
holds (`spirv_api::module_view`: the global section of types, constants and
variables, decorations, capabilities, entry points, execution modes and
names, the result id and blocks of each function, the selected function and
block), so the declaring and lowering functions state which types,
constants and instructions they add. The two `compile` functions state that
the words they return assemble a module built from the recorded program:
its declared inputs and outputs, its entry points on their functions with
their interfaces, and each function's instructions lowered in order, each
step stating the instructions it ends the block with. A conditional or loop
inside a lowered list is stated where it is lowered (`lower_if`,
`process_loop`, `process_chain`), not again in the list's steps. `app/` is the closure-based front end built on the
library, and `tests/` exercises the library on concrete inputs.
