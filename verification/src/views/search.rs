//! The bounded shared search.

use vstd::prelude::*;
use vstd::string::StringExecFns;

use crate::text::{decimal, decimal_len, decimal_text, escape, escape_text};
use crate::view_model::{
    CategoryVM, CollectionState, Opaque, SearchMatchSource, SearchQueryState, SearchResultVM,
    SearchShared, SearchView, SearchViewerState, ThreadScope,
};
use crate::views::{
    collection_note, collection_note_html, note, note_html, shared_chips, shared_chips_html, t,
    t_html, thread_href, thread_href_text,
};
use crate::views::forum::{is_selected, selects};
use crate::views::personal::{row_byline, row_byline_html};
use crate::views::shell::{ShellAssets, page, page_html};

verus! {

/// The categories a search can be narrowed to.
pub open spec fn category_options_html(cats: Seq<CategoryVM>, selected: Option<&Opaque>) -> Seq<char>
    decreases cats.len(),
{
    if cats.len() == 0 {
        Seq::empty()
    } else {
        let item = cats.last();
        category_options_html(cats.drop_last(), selected)
            + (r#"<option value=""#@ + escape_text(item.category.id.0@) + r#"""#@ + (if is_selected(selected, item.category.id.0@) {
            " selected"@
        } else {
            ""@
        }) + ">"@ + t_html(&item.category.name) + "</option>"@)
    }
}

/// The categories a search can be narrowed to.
pub(crate) fn category_options(cats: &Vec<CategoryVM>, selected: Option<&Opaque>) -> (out: String)
    ensures
        out@ == category_options_html(cats@, selected),
{
    let mut out = String::new();
    let mut i: usize = 0;
    assert(out@ =~= category_options_html(cats@.take(0), selected));
    while i < cats.len()
        invariant
            0 <= i <= cats@.len(),
            out@ == category_options_html(cats@.take(i as int), selected),
        decreases cats@.len() - i,
    {
        assert(cats@.take(i + 1).drop_last() =~= cats@.take(i as int));
        let item = &cats[i];
        let part: String = {
            let mut out: String = r#"<option value=""#.to_owned();
            out.append(escape(item.category.id.0.as_str()).as_str());
            out.append(r#"""#);
            let part = if selects(selected, item.category.id.0.as_str()) {
                " selected"
            } else {
                ""
            };
            out.append(part);
            out.append(">");
            out.append(t(&item.category.name).as_str());
            out.append("</option>");
            out
        };
        out.append(part.as_str());
        i = i + 1;
    }
    assert(cats@.take(i as int) =~= cats@);
    out
}

/// The answer states a search can be narrowed to.
pub open spec fn status_options_html(scope: ThreadScope) -> Seq<char> {
    r#"<option value="""#@ + (if scope == ThreadScope::Any || scope == ThreadScope::Questions {
        " selected"@
    } else {
        ""@
    }) + r#">Any status</option><option value="unanswered""#@ + (if scope == ThreadScope::Unanswered {
        " selected"@
    } else {
        ""@
    }) + r#">Unanswered</option><option value="answered""#@ + (if scope == ThreadScope::Answered {
        " selected"@
    } else {
        ""@
    }) + ">Answered</option>"@
}

/// The answer states a search can be narrowed to.
pub(crate) fn status_options(scope: ThreadScope) -> (out: String)
    ensures
        out@ == status_options_html(scope),
{
    let mut out: String = r#"<option value="""#.to_owned();
    let part = if scope == ThreadScope::Any || scope == ThreadScope::Questions {
        " selected"
    } else {
        ""
    };
    out.append(part);
    out.append(r#">Any status</option><option value="unanswered""#);
    let part = if scope == ThreadScope::Unanswered {
        " selected"
    } else {
        ""
    };
    out.append(part);
    out.append(r#">Unanswered</option><option value="answered""#);
    let part = if scope == ThreadScope::Answered {
        " selected"
    } else {
        ""
    };
    out.append(part);
    out.append(">Answered</option>");
    out
}

/// The search form.
pub open spec fn search_form_html(cats: Seq<CategoryVM>, vs: &SearchViewerState) -> Seq<char> {
    r#"<form class="ag-form ag-search-form" method="get" action="/search" role="search">
  <label class="ag-form__label" for="ag-search-q">Search</label>
  <div class="ag-form__row">
    <input id="ag-search-q" type="search" name="q" maxlength="160" value=""#@ + t_html(&vs.query)
        + r#"" placeholder="Search discussions" autocomplete="off">
    <select name="category" aria-label="Category"><option value="""#@
        + (if vs.selected_category is None {
        " selected"@
    } else {
        ""@
    }) + ">All categories</option>"@ + category_options_html(cats, (match vs.selected_category {
        Some(inner) => Some(&inner), None => None
    })) + r#"</select>
    <select name="status" aria-label="Answer status">"#@ + status_options_html(vs.scope) + r#"</select>
    <button class="btn btn-primary" type="submit">Search</button>
  </div>
</form>"#@
}

/// The search form.
pub(crate) fn search_form(cats: &Vec<CategoryVM>, vs: &SearchViewerState) -> (out: String)
    ensures
        out@ == search_form_html(cats@, vs),
{
    let mut out: String = r#"<form class="ag-form ag-search-form" method="get" action="/search" role="search">
  <label class="ag-form__label" for="ag-search-q">Search</label>
  <div class="ag-form__row">
    <input id="ag-search-q" type="search" name="q" maxlength="160" value=""#.to_owned();
    out.append(t(&vs.query).as_str());
    out.append(r#"" placeholder="Search discussions" autocomplete="off">
    <select name="category" aria-label="Category"><option value="""#);
    let part = if vs.selected_category.is_none() {
        " selected"
    } else {
        ""
    };
    out.append(part);
    out.append(">All categories</option>");
    out.append(category_options(cats, vs.selected_category.as_ref()).as_str());
    out.append(r#"</select>
    <select name="status" aria-label="Answer status">"#);
    out.append(status_options(vs.scope).as_str());
    out.append(r#"</select>
    <button class="btn btn-primary" type="submit">Search</button>
  </div>
</form>"#);
    out
}

/// Which body matched, in words.
pub open spec fn source_label_text(source: SearchMatchSource) -> Seq<char> {
    (match source {
        SearchMatchSource::Topic => {
            "Matched in the topic"@
        },
        SearchMatchSource::AcceptedAnswer => {
            "Matched in the accepted answer"@
        },
    })
}

/// Which body matched, in words.
pub(crate) fn source_label(source: SearchMatchSource) -> (out: &'static str)
    ensures
        out@ == source_label_text(source),
{
    match source {
        SearchMatchSource::Topic => {
            "Matched in the topic"
        },
        SearchMatchSource::AcceptedAnswer => {
            "Matched in the accepted answer"
        },
    }
}

/// One search result.
pub open spec fn result_row_html(r: &SearchResultVM, now: i64) -> Seq<char> {
    r#"<li class="ag-search-hit ag-key-shared">
  <div class="ag-row__chips">"#@ + shared_chips_html(r.thread.kind, r.thread.answer_state)
        + r#"<span class="badge ag-chip-shared ag-search-source">"#@
        + escape_text(source_label_text(r.source)) + r#"</span></div>
  <a class="ag-row__title" href=""#@ + escape_text(thread_href_text(&r.thread.id)) + r#"">"#@
        + t_html(&r.thread.title) + r#"</a>
  <p class="ag-row__by">"#@ + row_byline_html(&r.thread, now) + r#"</p>
  <p class="ag-search-hit__excerpt">"#@ + t_html(&r.excerpt) + r#"</p>
</li>"#@
}

/// One search result.
pub(crate) fn result_row(r: &SearchResultVM, now: i64) -> (out: String)
    ensures
        out@ == result_row_html(r, now),
{
    let mut out: String = r#"<li class="ag-search-hit ag-key-shared">
  <div class="ag-row__chips">"#.to_owned();
    out.append(shared_chips(r.thread.kind, r.thread.answer_state).as_str());
    out.append(r#"<span class="badge ag-chip-shared ag-search-source">"#);
    out.append(escape(source_label(r.source)).as_str());
    out.append(r#"</span></div>
  <a class="ag-row__title" href=""#);
    out.append(escape(thread_href(&r.thread.id).as_str()).as_str());
    out.append(r#"">"#);
    out.append(t(&r.thread.title).as_str());
    out.append(r#"</a>
  <p class="ag-row__by">"#);
    out.append(row_byline(&r.thread, now).as_str());
    out.append(r#"</p>
  <p class="ag-search-hit__excerpt">"#);
    out.append(t(&r.excerpt).as_str());
    out.append(r#"</p>
</li>"#);
    out
}

/// The search results.
pub open spec fn result_rows_html(results: Seq<SearchResultVM>, now: i64) -> Seq<char>
    decreases results.len(),
{
    if results.len() == 0 {
        Seq::empty()
    } else {
        let item = results.last();
        result_rows_html(results.drop_last(), now) + (result_row_html(&item, now))
    }
}

/// The search results.
pub(crate) fn result_rows(results: &Vec<SearchResultVM>, now: i64) -> (out: String)
    ensures
        out@ == result_rows_html(results@, now),
{
    let mut out = String::new();
    let mut i: usize = 0;
    assert(out@ =~= result_rows_html(results@.take(0), now));
    while i < results.len()
        invariant
            0 <= i <= results@.len(),
            out@ == result_rows_html(results@.take(i as int), now),
        decreases results@.len() - i,
    {
        assert(results@.take(i + 1).drop_last() =~= results@.take(i as int));
        let item = &results[i];
        let part: String = result_row(item, now);
        out.append(part.as_str());
        i = i + 1;
    }
    assert(results@.take(i as int) =~= results@);
    out
}

/// The note of a search without results.
pub open spec fn no_matches_html(state: CollectionState) -> Seq<char> {
    (match collection_note_html(state, "No threads matched this search."@) {
        Some(text) => text, None => note_html("No matches"@, "No threads matched this search."@),
    })
}

/// The note of a search without results.
pub(crate) fn no_matches(state: CollectionState) -> (out: String)
    ensures
        out@ == no_matches_html(state),
{
    match collection_note(state, "No threads matched this search.") {
        Some(text) => text, None => note("No matches", "No threads matched this search."),
    }
}

/// The results of a search, or why there are none.
pub open spec fn results_block_html(s: &SearchShared) -> Seq<char> {
    (if s.results.len() == 0 {
        no_matches_html(s.state)
    } else {
        r#"<section class="ag-search-results" aria-labelledby="ag-search-results-title">
  <h2 class="eyebrow ag-eyebrow" id="ag-search-results-title">Matching discussions</h2>
  <p class="muted ag-desk__bound">Showing "#@ + decimal_text(s.results.len() as int) + " · up to "@
            + decimal_text(s.visible_bound as int)
            + r#" results (a bounded set, not a total count)</p>
  <ul class="ag-search-list">"#@ + result_rows_html(s.results@, s.now) + r#"</ul>
</section>"#@
    })
}

/// The results of a search, or why there are none.
pub(crate) fn results_block(s: &SearchShared) -> (out: String)
    ensures
        out@ == results_block_html(s),
{
    if s.results.len() == 0 {
        no_matches(s.state)
    } else {
        let mut out: String = r#"<section class="ag-search-results" aria-labelledby="ag-search-results-title">
  <h2 class="eyebrow ag-eyebrow" id="ag-search-results-title">Matching discussions</h2>
  <p class="muted ag-desk__bound">Showing "#.to_owned();
        out.append(decimal_len(s.results.len()).as_str());
        out.append(" · up to ");
        out.append(decimal(s.visible_bound).as_str());
        out.append(r#" results (a bounded set, not a total count)</p>
  <ul class="ag-search-list">"#);
        out.append(result_rows(&s.results, s.now).as_str());
        out.append(r#"</ul>
</section>"#);
        out
    }
}

/// What a search shows under its form.
pub open spec fn search_body_html(s: &SearchShared) -> Seq<char> {
    (match s.query_state {
        SearchQueryState::Empty => {
            note_html("Search the amphitheatre"@, "Enter 2 to 160 characters to search thread titles, original posts, and accepted answers."@)
        },
        SearchQueryState::TooShort => {
            note_html("Keep typing"@, "Search needs at least 2 characters."@)
        },
        SearchQueryState::Invalid => {
            note_html("That search could not be run"@, "Adjust the query and try again."@)
        },
        SearchQueryState::Valid => {
            results_block_html(s)
        },
    })
}

/// What a search shows under its form.
pub(crate) fn search_body(s: &SearchShared) -> (out: String)
    ensures
        out@ == search_body_html(s),
{
    match s.query_state {
        SearchQueryState::Empty => {
            note("Search the amphitheatre", "Enter 2 to 160 characters to search thread titles, original posts, and accepted answers.")
        },
        SearchQueryState::TooShort => {
            note("Keep typing", "Search needs at least 2 characters.")
        },
        SearchQueryState::Invalid => {
            note("That search could not be run", "Adjust the query and try again.")
        },
        SearchQueryState::Valid => {
            results_block(s)
        },
    }
}

/// The main markup of the search page.
pub open spec fn search_main_html(s: &SearchShared, vs: &SearchViewerState) -> Seq<char> {
    r#"<div class="ag-desk-page">
  <header class="pagehead"><div class="pagehead__titles ag-head-tools__lead"><h1 class="ag-head__title">Search</h1></div></header>
  "#@ + search_form_html(s.categories@, vs) + r#"
  "#@ + search_body_html(s) + r#"
</div>"#@
}

/// The main markup of the search page.
pub(crate) fn search_main(s: &SearchShared, vs: &SearchViewerState) -> (out: String)
    ensures
        out@ == search_main_html(s, vs),
{
    let mut out: String = r#"<div class="ag-desk-page">
  <header class="pagehead"><div class="pagehead__titles ag-head-tools__lead"><h1 class="ag-head__title">Search</h1></div></header>
  "#.to_owned();
    out.append(search_form(&s.categories, vs).as_str());
    out.append(r#"
  "#);
    out.append(search_body(s).as_str());
    out.append(r#"
</div>"#);
    out
}

/// The search page.
pub open spec fn search_html(assets: &ShellAssets, v: &SearchView) -> Seq<char> {
    page_html(assets, &v.chrome, search_main_html(&v.shared, &v.viewer))
}

/// The search page.
pub fn search(assets: &ShellAssets, v: &SearchView) -> (out: String)
    ensures
        out@ == search_html(assets, v),
{
    page(assets, &v.chrome, search_main(&v.shared, &v.viewer).as_str())
}

} // verus!
