# rust-clipboard-uploader

A desktop tool that takes an image from the clipboard, uploads it to an image
host and hands out the link. The rules it works by are a Verus library: what
each function does is stated in its contract, and Verus proves it.

## The library, `src/`

| Module | What it holds |
| --- | --- |
| `config` | the settings, their defaults and what an absent setting means |
| `request` | what an upload sends |
| `response` | what a server's answer means, and how a link is read from it |
| `json` | JSON values as plain data |
| `hotkey` | keyboard shortcuts written as text |
| `clipboard` | fingerprints, PNG files and the watch over the clipboard |
| `task` | upload tasks and the stages they go through |
| `state` | the state of the program and how uploads and retries move it |
| `events` | what reaches the program, and what it does about it |
| `window` | time passing, clicks, closing and changes of the settings |
| `tray` | the tray's icon, its menu and what its entries mean |
| `theme`, `view` | colours, badges, banners and cards |
| `lifecycle` | requests to show the window, one instance at a time, the log |
| `shell` | the settings as the second shell knows them |
| `laws` | what every operation keeps, and what the program promises |
| `system` | the program with its uploads and waits, through every course of events |
| `text`, `digits` | character-level text and numbers |

A state is described by its model (`StateView`), an operation by a function on
models; the contracts say that the executable code does the same, and the laws
speak of the models. Moments are nanoseconds since the start of the program.

Where the library calls another crate, the call stands in a small wrapper whose
contract is taken on trust and says in its comment what it takes for granted:
`serde_json` for parsing and rendering, `image` for PNG files, `reqwest` for the
words of a status code, `global_hotkey` and `keyboard_types` for shortcuts.

## The program, `app/`

The window, the tray, threads, files, the network, the clipboard and the history
database. It asks the library what to do and does it. `app/tauri_shell.rs` is the
root of a second, smaller program.

## Tests, `tests/`

They run the library on concrete values, with the other crates linked.
