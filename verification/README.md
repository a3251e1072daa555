# level frontend

The browser frontend of *level*, a secure app for tracking personal finances.

- `src/` is the library `level_frontend`: the state and text logic of the
  frontend's components, written in Verus with contracts and proofs. It covers
  number entry (parsing, precision and bounds of typed numbers), option
  matching for chips inputs, keyboard navigation of selects and chips,
  steppers, tabs, dialogs, subview stacks, the value runtime, async and
  command states, alerts, theme styling, file selection arguments, the
  ordering and merging of saves and transactions, and the list editors of
  categories, subcategories, tags and institutions.
- `app/` is the Yew application around the library: components, hooks, DOM
  and JavaScript access.
- `tests/` exercises the library on concrete values.
