# am_workspace

The logic of the Agentic Memory workspace — its note and board store, markdown vault,
graph routes, UI session state and repository code indexer — written in Verus. Public
functions carry `requires` / `ensures` contracts that Verus proves; where a result comes
from an outside crate (a hash, a parser, the clock, a random identifier), the contract
names that result rather than restating it, and says so in its doc comment.

## Layout

- `src/` — the verified library.
  - Records and store: `model`, `store`, `vault` (paths, vault file names, slugs,
    frontmatter), `text` (character-sequence primitives).
  - Graph and search: `graph` (local note and board neighbourhoods, merging), `search`
    (route envelopes, local search), `ladybug` and `shim` (graph queries over the
    Ladybug client), `cypher` (escaping, keyword extraction, the read-only query shell),
    `shell`, `agent`, `diagnostics`, `observability`, `config`.
  - UI state: `session` (the workspace session as a request/answer protocol),
    `sidebar`, `editor`, `canvas`, `canvas_state`, `panels`, `preview`, `markdown`,
    `api` (request paths).
  - Code indexer: `code` (syntax-tree chunking), `paths`, `ids`, `codegraph` (Cypher
    statements), `code_writes` (document, file, node and chunk writes), `file_index`
    (indexing one file as a request/answer protocol), `jina` (embedding requests and
    the order of their answers), `registry` (function anchors),
    `scip` (call edges from a SCIP index), `calls_write` (writing those edges), `indexer` (run settings and checks).
- `tests/` — tests run against the compiled library.
- `app/` — the HTTP server around the library: routes, the file-system store and git
  history of the vault, and JSON wire types. The code indexer's request/answer protocols
  (`FileIndexer`, `CallsWriter`) and embedding requests have no host here: the native graph
  database client (`lbug`) they would drive is not a dependency of this crate, so only
  the tests run them.
