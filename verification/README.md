# dnd_spells

A D&D 5e spell book: the spells of the Player's Handbook and the other
books, the user's own spells, and characters that know and prepare them.

`src/` is the library, verified with Verus:

- `spells/` — the data that describes a spell (classes, schools, levels,
  casting times, components, sources) with their text forms, the program's
  and the user's spells, and looking a spell up by name;
- `search.rs` — the search bar and the advanced search's filters, and the
  search page's results;
- `character.rs` — a character's spells by level, prepared or not, spell
  slots, saving and reading back a character, and the character's page;
- `settings.rs` — closed characters and the editor of the user's spells;
- `window.rs` — the state of the whole window and what each message does to
  it, with the history of saved states behind undo and redo;
- `hotkey.rs`, `tab.rs`, `tabs.rs`, `style.rs`, `icon.rs`, `utils.rs` — the
  keyboard shortcuts, tabs, themes, icons and small helpers;
- `update.rs` — whether a newer release is out;
- `text.rs`, `sort.rs` — characters, numbers, and sorted lists.

`app/` reads the spell data and the saved files, runs the window state on
commands from standard input, and writes the files back.
