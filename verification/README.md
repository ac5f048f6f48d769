# zotero

A toolkit for Zotero libraries whose core is specified and proved with Verus.

- `src/` is the verified library: the data model of Zotero items and
  collections, the requests sent to the Zotero Local API, Better BibTeX and
  Better Notes, and the decisions taken on their answers (retries, status
  errors, paging), client-side search and sorting, duplicate and coverage
  analysis, BibTeX export, tag and relation edits, note conversion, text
  chunking for semantic indexing, the location of Zotero's database and
  PDF files, and the security policy that guards file access. Each public
  function states its result in its contract; the laws that span several
  functions are public proof functions.
- Calls into outside crates (MD5 digests, URL parsing, percent-encoding,
  HTTP status reasons) stand behind small trusted wrappers whose contracts
  say what the crates document.
- `tests/` runs the library on concrete values.
- `app/` is the command-line front end: it reads the environment, sends the
  library's requests with `reqwest`, decodes JSON with `serde`, and holds the
  floating-point parts (coverage percentages, embedding vectors).
