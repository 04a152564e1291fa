# docs_site

Build-time logic of the fandhe-frontend documentation site, written in Verus
with its contracts proved.

- `src/redirect.rs`: the `site/redirects.toml` parser (a small TOML subset),
  the path rules for old and new URLs, the check against the site's pages,
  the error messages and the "page has moved" document.
- `src/script.rs`: the two scripts the site ships and the check that they can
  be embedded as escaped text inside `<script>`.
- `src/search_index.rs`: body text extraction, white space normalisation,
  UTF-8-safe truncation, JSON string escaping and the hand-written JSON of the
  search index, with its size check.
- `src/showcase.rs`: the registry of component page paths.
- `src/node.rs`: the document tree.
- `src/text.rs`: character helpers (Unicode white space, UTF-8 widths,
  trimming, searching, decimal digits).

Each module states its behaviour as spec functions over `Seq<char>`; the
public functions are proved equal to them, and the `lemma_*` proof functions
state the properties the site relies on: safe redirect paths and distinct
`from`s, one declaration per `[[redirect]]` table, quoted values that read
back unchanged, a `from` rule that is the `to` rule without the site root,
one-line syntax errors, escape-safe scripts, JSON strings that decode back to
their text and hold no `<`, `>` or `&`, idempotent normalisation, unique
component paths.

## Choices

- A rejected redirect path (`RedirectError::UnsafePath`) carries the 1-based
  line of the `from` or `to` key that declared it.
- `validate_against_nav` compares paths with a trailing `/` ignored, so that
  `/a/` and `/a` count as the same page.
- The sets of paths (the `from`s accepted so far, the site's page paths) are
  kept in a `Vec` and searched in order. Membership is then stated and proved
  over sequences of characters; a `BTreeSet<String>` would leave its lookups
  unproved, since nothing is known of the order of `String` keys.

## Not in this crate

- The navigation tree, the page layout and the site build. So
  `validate_against_nav` takes the list of page paths, `page_entry` takes the
  headings already collected from the page, and `redirect_document` takes the
  finished target href (joining it to the base path is the layout's work, and
  with it the `redirect_page` wrapper).
- Everything built from the component crates (`fandhe_frontend_core`,
  `fandhe_frontend_pre_styled_ui`, `fandhe_frontend_wireframe_ui`): the
  showcase sections and wireframe demos, the generated page content, the
  typography rules (`typography_css`, `push_typography_rule`), the assembled
  style sheets (the three `stylesheet` functions, the docs theme, the skip
  link sheet) and `SiteThemeError`. They are compositions of calls into those
  crates, their themes hold colours and sizes as floating point, and this
  crate does not depend on them. Only the structural CSS, which is plain
  text, is here.
