# weldgen

Generates Rust source from Smithy models: type declarations, and for each
service its interface, its receiver and its sender. Also holds the feature
flags of the wasmCloud host.

The library (`src/`) is verified with Verus. Each function that writes states
the exact text it appends and, where it stops, the error it stops at.

- `features`: the feature flags.
- `text`: dictionary order, cutting a text into pieces, the output buffer.
- `emission`: what a generation step appends, and how steps follow one another.
- `error`: why generation stops.
- `smithy`: the parts of a model that generation reads.
- `order`: the order of declarations.
- `codegen`: the generator, the head of a file, comments and documentation.
- `types`, `declare`, `service`: types, declarations and services.
- `laws`: what holds of the generator as a whole.
- `outside`: calls into `std` and `atelier_core` whose contracts are trusted.

`app/` reads models of `atelier_core`, decodes trait values and runs rustfmt.
