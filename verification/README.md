# extension_gui

Panels that editor extensions draw for themselves: an extension builds a tree
of elements (containers, text, icons, images, inputs), the library flattens it
into the node list the host receives, the host renders that list, and user
events come back to the handlers the extension registered. Around that sit the
command palette's registry of extension commands, the decisions a panel host
makes (which tab to open, what to restore, which text fields and focus handles
to keep), and three panels built on it: git status, a symbol outline and a
project tree.

Every function in `src/` carries a contract. Verus proves them all except
those of the few `#[verifier::external_body]` wrappers round calls into `std`
(`String::push`, `str::to_lowercase`, `Path::file_name`) and `serde_json`:
their contracts are trusted, and each one's doc comment says what it claims.

- `elements`, `ui`: element types and their builders.
- `flatten`: turning an element tree into a node list whose child links point
  forward.
- `events`: handler registry and event dispatch.
- `renderer`: the host's model of styles, listeners and rendered elements.
- `commands`, `panel`, `host`: palette commands and filter, panel decisions,
  host request outcomes.
- `text`, `strings`, `json`: text helpers and the JSON calls made through
  `serde_json`.
- `git_panel`, `outline`, `project_panel`, `view`: the three panels.
- `laws`: properties that span several functions.

`app/` holds what cannot be verified: running processes, reading files,
colour conversions in floating point, and the `serde` copies of the library's
types. `tests/` exercises the library on concrete values.
