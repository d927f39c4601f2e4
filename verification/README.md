# novel_downloader

A web-novel downloader: it searches many Chinese and Japanese novel sites,
reads a book's metadata and table of contents, fetches its chapters with a
bounded number of requests in flight, and writes them out in order.

## Layout

- `src/` — the library, verified with Verus.
  - `text.rs`, `markup.rs`: string operations and the HTML-to-text rendering
    used for chapter bodies, specified over `Seq<char>`.
  - `html.rs`, `json.rs`, `charset.rs`, `clock.rs`: the points where the
    library calls `scraper`, `serde_json`, `encoding_rs` and the standard
    library's clock and hashers; each call sits behind a small trusted
    function whose contract names or states its result. `scraper` is built
    with its `deterministic` feature, so attributes keep their source order
    and a selection's result depends on the page alone.
  - `providers/`: one module per site. Each turns the site's pages (HTML or
    JSON text) into search results, book information and chapters, with a
    contract that states the result exactly. `providers/mod.rs` holds the
    registry of sites: all 83 of the downloader's list, in its order.
    For 31 of them (named in the documentation of `all_sites`) this library
    holds no page rules: they keep their place in the list with their
    identifier, but with an empty address and as not searchable, and
    reading them fails. This is a known departure from the downloader's
    full behaviour for those sites.
  - `download.rs`: the ordered delivery queue behind a download (at most
    twelve requests in flight, chapters handed out strictly in order), the
    flattened table of contents, and the text-file layout.
  - `lib.rs`: the site listing, lookup by name, and the choice of the best
    search result.
- `app/` — the command-line program and the network side: HTTP requests,
  the asynchronous download loop that drives the delivery queue, and the
  serde copies of the library's types.
- `tests/` — tests of the library on concrete pages and answers.
