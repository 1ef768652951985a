# hacksawdio

The verified core of Hacksawdio, an offline-first, album-oriented music client
for Jellyfin.

- `src/` is the library, verified with Verus:
  - `search`: online search results (distinct albums of the title and artist
    searches, sorted by name, paged) and their downloaded state; offline
    results from the local database.
  - `naming`: track file names and album directories.
  - `requests`: the HTTP requests the client sends to the server.
  - `download`: the state machines of an album download and of the download
    queue's worker.
  - `deletion`: the state machine that deletes a local album.
  - `library`: album details, new album rows, sessions and server errors.
  - `models`, `errors`, `text`: data types, errors and string helpers.
- `app/` is the application around it: the HTTP client, the SQLite database,
  the download worker thread and the commands of the user interface.
- `tests/` runs the library on concrete values.
