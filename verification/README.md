# hnr

A terminal client for Hacker News: feeds, threaded comments, search, a reader mode for
articles, voting, replies, bookmarks and read-story tracking.

The program is split in two:

- `src/` is a library verified with Verus. It holds the program's state and every
  decision it makes: what each key does, how a feed, a comment tree or a search result
  becomes the shown state, how comments collapse and scroll, how an article's HTML
  becomes reader blocks, how the login cookie, vote token and reply token are read out of
  HN's pages, how sessions and read stories are kept as text, and how versions compare.
  Each public function states its result in its contract; `law_*` proof functions state
  what holds across calls (toggling twice, keeping and reading back, cursor bounds).
- `app/` is the terminal front end: it reads keys, performs the network, file,
  clipboard and browser work the library asks for, and draws the screen with ratatui.

Modules of the library:

| module     | what it holds |
|------------|---------------|
| `text`     | character-sequence helpers: search, replace, trim, decimal numbers |
| `clock`    | the monotonic clock that times waits |
| `api`      | items and users, how they are shown, HN addresses and page scraping |
| `comments` | the comment tree, its visible rows, collapsing |
| `reader`   | HTML to reader blocks and section offsets |
| `screen`   | the text the screen shows: lines, previews, titles, reader lines |
| `version`  | release version comparison |
| `session`  | the kept login session |
| `seen`     | the kept set of read stories |
| `shimmer`  | the progress indicator's text |
| `app`      | the application state and its basic operations |
| `flows`    | the steps of each network operation, as state changes |
| `keys`     | what each key and slash command does |
