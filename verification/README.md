# mktools

Readers for the file formats of Mario Kart Wii tracks and models, verified with Verus:

- ARC archives (U8): a tree of directories and files (`src/format/arc.rs`);
- BRRES resource files: directories of subfiles (`src/format/brres.rs`);
- MDL0 models: bones and skeleton, vertex, normal, color and UV buffers, materials,
  TEVs, polygons with their GX bytecode, texture links (`src/format/mdl0/`);
- CHR0 bone animations and the headers of PAT0 texture pattern animations.

Every reader works on a `RefCursor` (`src/shared/util.rs`) and states, over the bytes
it reads, exactly when it succeeds and what it returns. Files are shown as a tree of
nodes (`src/node/`); the sections of BRRES files and MDL0 models are read when their
node is first evaluated. `src/node/root.rs` picks the reader for an opened file by its
magic (Yaz0-compressed files are refused as unsupported). The editor's state, with the
tree of tiles its panes are laid out in and the handling of a request for a new pane,
is in `src/editor/`.

`app/main.rs` is a command-line front end: it opens an ARC or BRRES file, evaluates
every node and prints the tree.
