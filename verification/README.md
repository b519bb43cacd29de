# notepad

A notepad that runs in the browser: notes are kept in IndexedDB, pages are
drawn with yew and reached through yew-router.

- `src/` is the verified library (Verus): the route table and how addresses
  are read (`route`), the decimal text of note ids (`decimal`), notes and the
  edit form (`note`), the state machines of the home and edit pages (`home`,
  `edit`, `fetch_state`, `fetch_error`), and the store's layout, the record a
  new note is stored as and the collection of a cursor walk (`repository`).
- `app/` is the program around it: the yew components, which perform the
  effects that the page state machines return, and the IndexedDB calls.
- `tests/` runs the library on concrete values.
