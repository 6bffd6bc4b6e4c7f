# wc_note

A small wiki-note server. Each page is an HTML file that carries its own
JSON document (in `<span id="page_json_str">`); the browser edits the
document and posts it back, and the server saves it with a copy per
revision.

- `src/` is the verified library (Verus): the JSON model and its read/write
  laws, HTTP request reading and routing, rendering a page from its
  document, reading a document back from a page (including older page
  forms), page creation and moving, the renewal of old pages (and the walk
  over the pages under a page that it makes), the
  clearing of old backups as step-by-step decisions, and their records.
- `app/` is the program around it: the TCP server and thread pool, the file
  reads and writes, and the loops that carry out the library's decisions.
- `tests/` exercise the library on concrete pages and requests.
