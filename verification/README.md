# Page load decisions for an HTML parser driver

A verified library for the logic of loading an HTML page: building the
document tree from the parser's callbacks, and deciding which style sheets,
scripts and images the page asks for.

- `src/tags.rs`: the table from tag names to element kinds.
- `src/dom.rs`: the document tree (an arena of nodes with parents and ordered
  children) and its consistency invariant.
- `src/builder.rs`: what each parser callback does to the tree and which
  requests it sends.
- `src/listeners.rs`: step functions for the style sheet listener, the script
  listener, a script download and the page download; results come back in
  the order they were requested.
- `src/messages.rs`: the messages exchanged.
- `app/lib.rs`: the threads and channels that run those steps; the HTML
  parser itself is a parameter.
- `tests/`: tests on concrete values.
