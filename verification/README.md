# helix_term: completion popup logic

A Verus library holding the decisions of a terminal editor's completion popup,
each with a contract proved by Verus:

- `geometry`: positions and rectangles of terminal cells, and their intersection.
- `input`: key and terminal events as the editor sees them.
- `popup`: a popup anchored at the cursor: placement in the viewport, scrolling,
  key handling, and the clipped area it draws in.
- `item`: completion items, the text they are filtered and sorted by, and their menu row.
- `text`: prefix tests, prefix stripping and character slices on strings.
- `edit`: the change of the document that showing or accepting an item makes,
  and a model of how the editor carries the menu's plans out (restore, savepoint,
  changes), over which showing a second item, or dismissing the menu, is proved
  to undo the first item's change.
- `docs`: the markdown of an item's documentation and where it is placed.
- `completion`: a completion in progress: which filtering it asks of its menu
  as the user types, its events, and its documentation popup. The menu is the
  user's: the `CompletionMenu` trait states what an implementation promises
  (scoring records the pattern and leaves no item exactly where the pattern
  matches none, clearing empties the menu, neither changes what a later scoring
  leaves, `is_empty` answers emptiness), and the proofs rely on that promise without checking it.

`app/` converts terminal events (crossterm) and protocol completion items
(lsp-types) into the library's types. Drawing, the document, and the menu's
matching are left to the editor that uses the library.
