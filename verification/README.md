# tempo

The core of the tempo music server as a verified library: the logic that
decides what the server stores and answers, with its behaviour stated in
contracts and proved.

- `src/jsonapi.rs`, `src/documents.rs`, `src/names.rs`, `src/columns.rs`:
  JSON:API documents and listing queries (includes, filters, sorting,
  pages, cursors and links).
- `src/search_result.rs`, `src/musicbrainz.rs`, `src/dates.rs`,
  `src/dedup.rs`: turning MusicBrainz release lookups into library records.
- `src/rank_releases.rs`: scoring candidate releases and matching tracks.
- `src/covers.rs`, `src/artist_url.rs`, `src/lastfm.rs`: cover candidates,
  artist links and Last.fm call signatures.
- `src/lastfm_images.rs`, `src/requests.rs`: artist images from Last.fm
  galleries and the addresses of the outside services.
- `src/tempo/`, `src/auth.rs`, `src/extract.rs`, `src/api_error.rs`,
  `src/internal.rs`, `src/resources.rs`, `src/included.rs`: what the API
  handlers decide and the resources they answer with.
- `src/imports.rs`, `src/downloads.rs`, `src/track_relations.rs`,
  `src/populate.rs`: imports
  of downloaded directories: listing them, the records an import found and
  the relations a track import stores.
- `src/search_index.rs`: the documents and fields of the search index.
- `app/main.rs`: a command-line front end that reads files and query
  strings, hashes passwords, and prints what the library decides.
