# spotify_tui

A brutalist terminal controller for Spotify on macOS. The desktop player is
driven through AppleScript; playlists, the queue, liked songs, search and
devices come from the Spotify Web API after an OAuth sign-in with PKCE.

The crate is written in Verus. `src/` is the verified library:

- `state`, `transitions`, `messages`: the interface as a state machine. Every
  key press, background message and clock tick is a function from the abstract
  state (`AppView`) and the event to the next state and a list of `Effect`s
  that the program carries out. `laws` states what holds of every transition.
- `text`, `grid`, `panel`: pagination, truncation, padding, the grid layout and
  the now-playing panel's text.
- `update`: reading and comparing release tags, and the release-check cache.
- `oauth`, `form`: PKCE values, the authorization URL and how its query reads
  back, the callback, the token answer.
- `api`, `error`, `types`: Web API paths, bodies, answers and records.
- `player`: AppleScript commands and the reading of the player's status.
- `strs`: trimming, splitting, number parsing and formatting on characters.

`app/` is the program around it: the terminal loop, drawing with ratatui,
threads, HTTP, JSON, files and AppleScript.
