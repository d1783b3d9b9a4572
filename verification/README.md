# speedy_transform

A verified library for the source transforms of a JavaScript build tool:

- `web_transform`: rewriting the imports of component libraries (each used
  component imported from its own module, with its style sheet; unused imports
  dropped), importing React when the code needs it, removing `useEffect` calls
  and calls of listed names, and the choice of parse and print settings. The
  library works on a view of a module made of its imports and its call
  statements. `web_transform::swc_module` parses source with swc, resolves its
  scopes, reads that view of swc's syntax tree, and prints the tree back with
  a source map; `app/` runs swc's visitors, which are impls of swc's traits,
  and writes the library's decisions back into the tree, carrying the parsed
  imports it keeps by position.
- `speedy_macro`: the text processing behind the `speedydebug` attribute.
- `sass`: setting up a libsass compilation and reading its outcome; `app/`
  makes the libsass calls.
- `str_ext`, `text`: string normalisation and the character-sequence
  operations the rest is built on.

`src/` is verified with Verus; `app/` holds the Node.js binding and its
JavaScript callbacks, swc's visitors, the proc-macro token handling and the
libsass calls.
