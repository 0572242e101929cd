# euvd

A terminal browser for the [ENISA EU Vulnerability Database (EUVD)](https://euvd.enisa.europa.eu/)
with a verified core.

- `src/` is the library. All that the program decides stands there, with contracts
  that Verus proves: what a key does, what a reply does, what is asked of the API, what
  the screen shows and where. `laws.rs` states what holds of the program as a whole.
- `app/` is the program around it: the terminal, the HTTP client, the JSON records.
- `tests/` holds the tests of the library.

| Module | What it holds |
|--------|---------------|
| `text`, `pieces`, `number`, `dates`, `clock` | texts, numbers, dates and times of the day |
| `score` | CVSS and EPSS figures, by their bits |
| `edit`, `keys` | text inputs and key presses |
| `api` | records, requests and replies of the API |
| `table`, `search`, `state` | the state of the program |
| `steps` | how the state changes, as mathematical functions |
| `app` | the code that changes it |
| `style`, `layout`, `lines`, `ui` | the screen |
| `laws` | laws of the whole |

The library trusts a few calls that Verus does not look into: `String::push` and
`char::is_whitespace` of the standard library, the printing of times by `chrono`, the
printing of status codes by `ureq`, and the character widths and the layout solver of
`ratatui`. Each stands behind a declaration that says what it is trusted for.

Floating-point numbers stay outside: the program reads and prints them and hands the
library their bits and their texts.
