# linux_clipboard

The decision-making core of a Linux clipboard-history manager (history list,
emoji picker, paste into the previously focused window), written in Verus
with each function's behaviour stated in its contract and proved.

- `src/` — the library: text utilities (`text`, `decimal`), pasting and focus
  (`simulator`), dark-mode detection (`theme`), window placement and
  auto-hide (`placement`, `focus_watch`), the watcher's timetable
  (`schedule`), history entries and previews (`clips`), the emoji picker
  (`emoji`), stored images (`image`), the single-instance protocol (`ipc`),
  text recognition results (`ocr`) and the shortcut set-up screen
  (`shortcuts`).
- `tests/` — tests of the library on concrete values.
- `app/` — the program around it: commands, `/dev/uinput`, the Unix socket,
  Tesseract.
