//! Shared forum pages: the home, categories, threads, and the composer.

use vstd::prelude::*;
use vstd::string::StringExecFns;

use crate::text::{decimal, decimal_len, decimal_text, escape, escape_text, same};
use crate::view_model::{
    AdminThreadToolbarVM, AnswerDaisVM, CategoryFocusFormVM, CategoryFocusLevelVM,
    CategoryPageShared, CategoryPageViewerState, CategoryRefVM, CategoryVM, CategoryView,
    CollectionState, ComposeMode, ComposeShared, ComposeView, ComposeViewerState, HomeShared,
    HomeView, Opaque, PostVM, ReadingProgressVM, ReplyFormVM, SubscriptionFormVM, SummaryStateVM,
    Text, ThreadFollowLevelVM, ThreadKind, ThreadListControlsVM, ThreadOrder, ThreadOrderLinkVM,
    ThreadRowVM, ThreadScope, ThreadScopeLinkVM, ThreadShared, ThreadView, ThreadViewerState,
};
use crate::views::{
    answer_dais, answer_dais_html, category_href, category_href_text, collection_note,
    collection_note_html, crumbs, crumbs_html, empty_note, empty_note_html, eyebrow, eyebrow_html,
    form_action, form_action_html, form_action_opt, form_action_opt_html, here, here_crumb,
    hidden_inputs, hidden_inputs_html, kind_chip, kind_chip_html, link_action_opt,
    link_action_opt_html, link_crumb, linked, o, o_html, pagination, pagination_html, post,
    post_html, private_marker, private_marker_html, replies_suffix, replies_suffix_html,
    shared_chips, shared_chips_html, t, t_html, thread_list, thread_list_html, thread_row,
    thread_row_html, time_el, time_el_html, trail2, trail3, unread_label, unread_label_text,
};
use crate::views::shell::{ShellAssets, page, page_html};

verus! {

/// The label of a list order.
pub open spec fn order_label_text(order: ThreadOrder) -> Seq<char> {
    (match order {
        ThreadOrder::Latest => {
            "Latest"@
        },
        ThreadOrder::Top => {
            "Top"@
        },
        ThreadOrder::Hot => {
            "Hot"@
        },
    })
}

/// The label of a list order.
pub(crate) fn order_label(order: ThreadOrder) -> (out: &'static str)
    ensures
        out@ == order_label_text(order),
{
    match order {
        ThreadOrder::Latest => {
            "Latest"
        },
        ThreadOrder::Top => {
            "Top"
        },
        ThreadOrder::Hot => {
            "Hot"
        },
    }
}

/// The wire name of a list order.
pub open spec fn order_key_text(order: ThreadOrder) -> Seq<char> {
    (match order {
        ThreadOrder::Latest => {
            "latest"@
        },
        ThreadOrder::Top => {
            "top"@
        },
        ThreadOrder::Hot => {
            "hot"@
        },
    })
}

/// The wire name of a list order.
pub(crate) fn order_key(order: ThreadOrder) -> (out: &'static str)
    ensures
        out@ == order_key_text(order),
{
    match order {
        ThreadOrder::Latest => {
            "latest"
        },
        ThreadOrder::Top => {
            "top"
        },
        ThreadOrder::Hot => {
            "hot"
        },
    }
}

/// The label of a question-state scope.
pub open spec fn scope_label_text(scope: ThreadScope) -> Seq<char> {
    (match scope {
        ThreadScope::Any => {
            "All"@
        },
        ThreadScope::Questions => {
            "Questions"@
        },
        ThreadScope::Answered => {
            "Answered"@
        },
        ThreadScope::Unanswered => {
            "Unanswered"@
        },
    })
}

/// The label of a question-state scope.
pub(crate) fn scope_label(scope: ThreadScope) -> (out: &'static str)
    ensures
        out@ == scope_label_text(scope),
{
    match scope {
        ThreadScope::Any => {
            "All"
        },
        ThreadScope::Questions => {
            "Questions"
        },
        ThreadScope::Answered => {
            "Answered"
        },
        ThreadScope::Unanswered => {
            "Unanswered"
        },
    }
}

/// The tabs of the list orders.
pub open spec fn order_tabs_html(links: Seq<ThreadOrderLinkVM>, active: ThreadOrder) -> Seq<char>
    decreases links.len(),
{
    if links.len() == 0 {
        Seq::empty()
    } else {
        let item = links.last();
        order_tabs_html(links.drop_last(), active)
            + (r#"<a class="tab"#@ + (if item.order == active {
            " is-active"@
        } else {
            ""@
        }) + r#"""#@ + (if item.order == active {
            r#" aria-current="page""#@
        } else {
            ""@
        }) + r#" data-sort-tab=""#@ + order_key_text(item.order) + r#"" href=""#@ + o_html(&item.href) + r#"">"#@ + order_label_text(item.order) + "</a>"@)
    }
}

/// The tabs of the list orders.
pub(crate) fn order_tabs(links: &Vec<ThreadOrderLinkVM>, active: ThreadOrder) -> (out: String)
    ensures
        out@ == order_tabs_html(links@, active),
{
    let mut out = String::new();
    let mut i: usize = 0;
    assert(out@ =~= order_tabs_html(links@.take(0), active));
    while i < links.len()
        invariant
            0 <= i <= links@.len(),
            out@ == order_tabs_html(links@.take(i as int), active),
        decreases links@.len() - i,
    {
        assert(links@.take(i + 1).drop_last() =~= links@.take(i as int));
        let item = &links[i];
        let part: String = {
            let mut out: String = r#"<a class="tab"#.to_owned();
            let part = if item.order == active {
                " is-active"
            } else {
                ""
            };
            out.append(part);
            out.append(r#"""#);
            let part = if item.order == active {
                r#" aria-current="page""#
            } else {
                ""
            };
            out.append(part);
            out.append(r#" data-sort-tab=""#);
            out.append(order_key(item.order));
            out.append(r#"" href=""#);
            out.append(o(&item.href).as_str());
            out.append(r#"">"#);
            out.append(order_label(item.order));
            out.append("</a>");
            out
        };
        out.append(part.as_str());
        i = i + 1;
    }
    assert(links@.take(i as int) =~= links@);
    out
}

/// The tabs of the question-state scopes.
pub open spec fn scope_tabs_html(links: Seq<ThreadScopeLinkVM>, active: ThreadScope) -> Seq<char>
    decreases links.len(),
{
    if links.len() == 0 {
        Seq::empty()
    } else {
        let item = links.last();
        scope_tabs_html(links.drop_last(), active)
            + (r#"<a class="tab"#@ + (if item.scope == active {
            " is-active"@
        } else {
            ""@
        }) + r#"""#@ + (if item.scope == active {
            r#" aria-current="page""#@
        } else {
            ""@
        }) + r#" href=""#@ + o_html(&item.href) + r#"">"#@ + scope_label_text(item.scope) + "</a>"@)
    }
}

/// The tabs of the question-state scopes.
pub(crate) fn scope_tabs(links: &Vec<ThreadScopeLinkVM>, active: ThreadScope) -> (out: String)
    ensures
        out@ == scope_tabs_html(links@, active),
{
    let mut out = String::new();
    let mut i: usize = 0;
    assert(out@ =~= scope_tabs_html(links@.take(0), active));
    while i < links.len()
        invariant
            0 <= i <= links@.len(),
            out@ == scope_tabs_html(links@.take(i as int), active),
        decreases links@.len() - i,
    {
        assert(links@.take(i + 1).drop_last() =~= links@.take(i as int));
        let item = &links[i];
        let part: String = {
            let mut out: String = r#"<a class="tab"#.to_owned();
            let part = if item.scope == active {
                " is-active"
            } else {
                ""
            };
            out.append(part);
            out.append(r#"""#);
            let part = if item.scope == active {
                r#" aria-current="page""#
            } else {
                ""
            };
            out.append(part);
            out.append(r#" href=""#);
            out.append(o(&item.href).as_str());
            out.append(r#"">"#);
            out.append(scope_label(item.scope));
            out.append("</a>");
            out
        };
        out.append(part.as_str());
        i = i + 1;
    }
    assert(links@.take(i as int) =~= links@);
    out
}

/// The order, scope, and subscription switches of a thread list.
pub open spec fn thread_controls_html(c: &ThreadListControlsVM) -> Seq<char> {
    r#"<div class="thread-controls" data-thread-controls><div class="thread-controls__tabs"><nav class="tabs sort-tabs" aria-label="Sort threads">"#@
        + order_tabs_html(c.order_links@, c.active_order) + "</nav>"@
        + (if c.scope_links.len() == 0 {
        Seq::<char>::empty()
    } else {
        r#"<nav class="tabs answer-tabs" aria-label="Filter by answer status">"#@
            + scope_tabs_html(c.scope_links@, c.active_scope) + "</nav>"@
    }) + "</div>"@ + (match c.subscribed_toggle {
        Some(link) => {
            r#"<a class="btn btn-secondary btn-sm ag-key-private"#@ + (if c.subscribed_only {
                " is-active"@
            } else {
                ""@
            }) + r#"" href=""#@ + o_html(&link.href) + r#"""#@ + (if c.subscribed_only {
                r#" aria-current="page""#@
            } else {
                ""@
            }) + ">"@ + t_html(&link.label) + "</a>"@
        },
        None => {
            Seq::<char>::empty()
        },
    }) + "</div>"@
}

/// The order, scope, and subscription switches of a thread list.
pub(crate) fn thread_controls(c: &ThreadListControlsVM) -> (out: String)
    ensures
        out@ == thread_controls_html(c),
{
    let mut out: String = r#"<div class="thread-controls" data-thread-controls><div class="thread-controls__tabs"><nav class="tabs sort-tabs" aria-label="Sort threads">"#.to_owned();
    out.append(order_tabs(&c.order_links, c.active_order).as_str());
    out.append("</nav>");
    let part = if c.scope_links.len() == 0 {
        String::new()
    } else {
        let mut out: String = r#"<nav class="tabs answer-tabs" aria-label="Filter by answer status">"#.to_owned();
        out.append(scope_tabs(&c.scope_links, c.active_scope).as_str());
        out.append("</nav>");
        out
    };
    out.append(part.as_str());
    out.append("</div>");
    let part = match &c.subscribed_toggle {
        Some(link) => {
            let mut out: String = r#"<a class="btn btn-secondary btn-sm ag-key-private"#.to_owned();
            let part = if c.subscribed_only {
                " is-active"
            } else {
                ""
            };
            out.append(part);
            out.append(r#"" href=""#);
            out.append(o(&link.href).as_str());
            out.append(r#"""#);
            let part = if c.subscribed_only {
                r#" aria-current="page""#
            } else {
                ""
            };
            out.append(part);
            out.append(">");
            out.append(t(&link.label).as_str());
            out.append("</a>");
            out
        },
        None => {
            String::new()
        },
    };
    out.append(part.as_str());
    out.append("</div>");
    out
}

/// The heading of a thread list.
pub open spec fn scope_heading_text(scope: ThreadScope, subscribed_only: bool) -> Seq<char> {
    (match scope {
        ThreadScope::Any => {
            "All discussions"@
        },
        ThreadScope::Questions => {
            "Questions"@
        },
        ThreadScope::Answered => {
            "Answered questions"@
        },
        ThreadScope::Unanswered => {
            "Questions that need an answer"@
        },
    }) + (if subscribed_only {
        " you subscribe to"@
    } else {
        ""@
    })
}

/// The heading of a thread list.
pub(crate) fn scope_heading(scope: ThreadScope, subscribed_only: bool) -> (out: String)
    ensures
        out@ == scope_heading_text(scope, subscribed_only),
{
    let mut out: String = (match scope {
        ThreadScope::Any => {
            "All discussions"
        },
        ThreadScope::Questions => {
            "Questions"
        },
        ThreadScope::Answered => {
            "Answered questions"
        },
        ThreadScope::Unanswered => {
            "Questions that need an answer"
        },
    }).to_owned();
    let part = if subscribed_only {
        " you subscribe to"
    } else {
        ""
    };
    out.append(part);
    out
}

/// The rows of a thread list.
pub open spec fn thread_rows_html(rows: Seq<ThreadRowVM>, now: i64) -> Seq<char>
    decreases rows.len(),
{
    if rows.len() == 0 {
        Seq::empty()
    } else {
        let item = rows.last();
        thread_rows_html(rows.drop_last(), now)
            + (thread_row_html(&item.shared, &item.viewer, now))
    }
}

/// The rows of a thread list.
pub(crate) fn rows_html(rows: &Vec<ThreadRowVM>, now: i64) -> (out: String)
    ensures
        out@ == thread_rows_html(rows@, now),
{
    let mut out = String::new();
    let mut i: usize = 0;
    assert(out@ =~= thread_rows_html(rows@.take(0), now));
    while i < rows.len()
        invariant
            0 <= i <= rows@.len(),
            out@ == thread_rows_html(rows@.take(i as int), now),
        decreases rows@.len() - i,
    {
        assert(rows@.take(i + 1).drop_last() =~= rows@.take(i as int));
        let item = &rows[i];
        let part: String = thread_row(&item.shared, &item.viewer, now);
        out.append(part.as_str());
        i = i + 1;
    }
    assert(rows@.take(i as int) =~= rows@);
    out
}

/// The entries of the category navigation.
pub open spec fn terrace_items_html(cats: Seq<CategoryVM>) -> Seq<char>
    decreases cats.len(),
{
    if cats.len() == 0 {
        Seq::empty()
    } else {
        let item = cats.last();
        terrace_items_html(cats.drop_last())
            + (r#"<li class="ag-terrace"><a class="ag-terrace__link ag-key-shared" href=""#@ + escape_text(category_href_text(&item.category.id)) + r#""><span class="ag-terrace__name">"#@ + t_html(&item.category.name) + "</span>"@ + kind_chip_html(item.kind) + "</a></li>"@)
    }
}

/// The entries of the category navigation.
pub(crate) fn terrace_items(cats: &Vec<CategoryVM>) -> (out: String)
    ensures
        out@ == terrace_items_html(cats@),
{
    let mut out = String::new();
    let mut i: usize = 0;
    assert(out@ =~= terrace_items_html(cats@.take(0)));
    while i < cats.len()
        invariant
            0 <= i <= cats@.len(),
            out@ == terrace_items_html(cats@.take(i as int)),
        decreases cats@.len() - i,
    {
        assert(cats@.take(i + 1).drop_last() =~= cats@.take(i as int));
        let item = &cats[i];
        let part: String = {
            let mut out: String = r#"<li class="ag-terrace"><a class="ag-terrace__link ag-key-shared" href=""#.to_owned();
            out.append(escape(category_href(&item.category.id).as_str()).as_str());
            out.append(r#""><span class="ag-terrace__name">"#);
            out.append(t(&item.category.name).as_str());
            out.append("</span>");
            out.append(kind_chip(item.kind));
            out.append("</a></li>");
            out
        };
        out.append(part.as_str());
        i = i + 1;
    }
    assert(cats@.take(i as int) =~= cats@);
    out
}

/// The category navigation.
pub open spec fn category_terraces_html(cats: Seq<CategoryVM>) -> Seq<char> {
    (if cats.len() == 0 {
        Seq::<char>::empty()
    } else {
        r#"<nav class="ag-terraces" aria-label="Categories">"#@ + eyebrow_html("Categories"@)
            + r#"<ul class="ag-terraces__list">"#@ + terrace_items_html(cats) + "</ul></nav>"@
    })
}

/// The category navigation.
pub(crate) fn category_terraces(cats: &Vec<CategoryVM>) -> (out: String)
    ensures
        out@ == category_terraces_html(cats@),
{
    if cats.len() == 0 {
        String::new()
    } else {
        let mut out: String = r#"<nav class="ag-terraces" aria-label="Categories">"#.to_owned();
        out.append(eyebrow("Categories").as_str());
        out.append(r#"<ul class="ag-terraces__list">"#);
        out.append(terrace_items(cats).as_str());
        out.append("</ul></nav>");
        out
    }
}

/// Entry points to the private views.
pub open spec fn ledger_nav_html() -> Seq<char> {
    r#"<nav class="ag-ledgers" aria-label="My activity">"#@ + eyebrow_html("My activity"@)
        + r#"<ul class="ag-ledgers__list">
    <li><a class="ag-ledger-link ag-key-private" href="/for-you">For You</a></li>
    <li><a class="ag-ledger-link ag-key-private" href="/focus">Reading priorities</a></li>
    <li><a class="ag-ledger-link ag-key-private" href="/activity">Activity</a></li>
    <li><a class="ag-ledger-link ag-key-private" href="/bookmarks">Bookmarks</a></li>
  </ul></nav>"#@
}

/// Entry points to the private views.
pub(crate) fn ledger_nav() -> (out: String)
    ensures
        out@ == ledger_nav_html(),
{
    let mut out: String = r#"<nav class="ag-ledgers" aria-label="My activity">"#.to_owned();
    out.append(eyebrow("My activity").as_str());
    out.append(r#"<ul class="ag-ledgers__list">
    <li><a class="ag-ledger-link ag-key-private" href="/for-you">For You</a></li>
    <li><a class="ag-ledger-link ag-key-private" href="/focus">Reading priorities</a></li>
    <li><a class="ag-ledger-link ag-key-private" href="/activity">Activity</a></li>
    <li><a class="ag-ledger-link ag-key-private" href="/bookmarks">Bookmarks</a></li>
  </ul></nav>"#);
    out
}

/// The main markup of the forum home.
pub open spec fn home_main_html(s: &HomeShared, thread_rows: Seq<ThreadRowVM>) -> Seq<char> {
    let list = thread_list_html(thread_rows_html(thread_rows, s.now), collection_note_html(s.state, "No threads here yet. Start the first one."@));
    r#"<div class="ag-home">
  <section class="ag-home__feed" id="threads" aria-labelledby="ag-home-title">
    <div class="pagehead ag-head-tools">
      <div class="ag-head-tools__lead">
        "#@ + eyebrow_html("Discussions"@) + r#"
        <h1 class="ag-head__title" id="ag-home-title">"#@
        + escape_text(scope_heading_text(s.controls.active_scope, s.controls.subscribed_only))
        + r#"</h1>
        <p class="muted ag-feed__bound">"#@ + (if thread_rows.len() == 1 {
        "1 discussion"@
    } else {
        decimal_text(thread_rows.len() as int) + " discussions"@
    }) + r#" in this view</p>
      </div>
    </div>
    "#@ + thread_controls_html(&s.controls) + r#"
    "#@ + list + r#"
  </section>
  <aside class="ag-home__rail">
    "#@ + category_terraces_html(s.categories@) + r#"
    "#@ + ledger_nav_html() + r#"
    "#@ + (match s.controls.questions {
        Some(link) => {
            r#"<a class="btn btn-secondary ag-cta" href=""#@ + o_html(&link.href) + r#"">"#@
                + t_html(&link.label) + "</a>"@
        },
        None => {
            Seq::<char>::empty()
        },
    }) + r#"
    <a class="btn btn-primary ag-cta" href="/new">Start a new thread</a>
  </aside>
</div>"#@
}

/// The main markup of the forum home.
pub(crate) fn home_main(s: &HomeShared, thread_rows: &Vec<ThreadRowVM>) -> (out: String)
    ensures
        out@ == home_main_html(s, thread_rows@),
{
    let list: String = thread_list(rows_html(thread_rows, s.now).as_str(), collection_note(s.state, "No threads here yet. Start the first one."));
    let mut out: String = r#"<div class="ag-home">
  <section class="ag-home__feed" id="threads" aria-labelledby="ag-home-title">
    <div class="pagehead ag-head-tools">
      <div class="ag-head-tools__lead">
        "#.to_owned();
    out.append(eyebrow("Discussions").as_str());
    out.append(r#"
        <h1 class="ag-head__title" id="ag-home-title">"#);
    out.append(escape(scope_heading(s.controls.active_scope, s.controls.subscribed_only).as_str()).as_str());
    out.append(r#"</h1>
        <p class="muted ag-feed__bound">"#);
    let part = if thread_rows.len() == 1 {
        "1 discussion".to_owned()
    } else {
        let mut out: String = decimal_len(thread_rows.len());
        out.append(" discussions");
        out
    };
    out.append(part.as_str());
    out.append(r#" in this view</p>
      </div>
    </div>
    "#);
    out.append(thread_controls(&s.controls).as_str());
    out.append(r#"
    "#);
    out.append(list.as_str());
    out.append(r#"
  </section>
  <aside class="ag-home__rail">
    "#);
    out.append(category_terraces(&s.categories).as_str());
    out.append(r#"
    "#);
    out.append(ledger_nav().as_str());
    out.append(r#"
    "#);
    let part = match &s.controls.questions {
        Some(link) => {
            let mut out: String = r#"<a class="btn btn-secondary ag-cta" href=""#.to_owned();
            out.append(o(&link.href).as_str());
            out.append(r#"">"#);
            out.append(t(&link.label).as_str());
            out.append("</a>");
            out
        },
        None => {
            String::new()
        },
    };
    out.append(part.as_str());
    out.append(r#"
    <a class="btn btn-primary ag-cta" href="/new">Start a new thread</a>
  </aside>
</div>"#);
    out
}

/// The forum home.
pub open spec fn home_html(assets: &ShellAssets, v: &HomeView) -> Seq<char> {
    page_html(assets, &v.chrome, home_main_html(&v.shared, v.rows@))
}

/// The forum home.
pub fn home(assets: &ShellAssets, v: &HomeView) -> (out: String)
    ensures
        out@ == home_html(assets, v),
{
    page(assets, &v.chrome, home_main(&v.shared, &v.rows).as_str())
}

/// The choices of a focus level.
pub open spec fn focus_level_options_html(selected: CategoryFocusLevelVM) -> Seq<char> {
    r#"<option value="none""#@ + (if selected == CategoryFocusLevelVM::Unset {
        " selected"@
    } else {
        ""@
    }) + ">No focus</option>"@ + r#"<option value="priority""#@ + (if selected == CategoryFocusLevelVM::Priority {
        " selected"@
    } else {
        ""@
    }) + ">Priority</option>"@ + r#"<option value="follow""#@ + (if selected == CategoryFocusLevelVM::Follow {
        " selected"@
    } else {
        ""@
    }) + ">Follow</option>"@ + r#"<option value="mute""#@ + (if selected == CategoryFocusLevelVM::Mute {
        " selected"@
    } else {
        ""@
    }) + ">Mute</option>"@
}

/// The choices of a focus level.
pub(crate) fn focus_level_options(selected: CategoryFocusLevelVM) -> (out: String)
    ensures
        out@ == focus_level_options_html(selected),
{
    let mut out: String = r#"<option value="none""#.to_owned();
    let part = if selected == CategoryFocusLevelVM::Unset {
        " selected"
    } else {
        ""
    };
    out.append(part);
    out.append(">No focus</option>");
    out.append(r#"<option value="priority""#);
    let part = if selected == CategoryFocusLevelVM::Priority {
        " selected"
    } else {
        ""
    };
    out.append(part);
    out.append(">Priority</option>");
    out.append(r#"<option value="follow""#);
    let part = if selected == CategoryFocusLevelVM::Follow {
        " selected"
    } else {
        ""
    };
    out.append(part);
    out.append(">Follow</option>");
    out.append(r#"<option value="mute""#);
    let part = if selected == CategoryFocusLevelVM::Mute {
        " selected"
    } else {
        ""
    };
    out.append(part);
    out.append(">Mute</option>");
    out
}

/// The label of a focus level.
pub open spec fn focus_level_label_text(level: CategoryFocusLevelVM) -> Seq<char> {
    (match level {
        CategoryFocusLevelVM::Unset => {
            "No focus"@
        },
        CategoryFocusLevelVM::Priority => {
            "Priority"@
        },
        CategoryFocusLevelVM::Follow => {
            "Follow"@
        },
        CategoryFocusLevelVM::Mute => {
            "Mute"@
        },
    })
}

/// The label of a focus level.
pub(crate) fn focus_level_label(level: CategoryFocusLevelVM) -> (out: &'static str)
    ensures
        out@ == focus_level_label_text(level),
{
    match level {
        CategoryFocusLevelVM::Unset => {
            "No focus"
        },
        CategoryFocusLevelVM::Priority => {
            "Priority"
        },
        CategoryFocusLevelVM::Follow => {
            "Follow"
        },
        CategoryFocusLevelVM::Mute => {
            "Mute"
        },
    }
}

/// The private focus form of a category.
pub open spec fn category_focus_form_html(f: &CategoryFocusFormVM) -> Seq<char> {
    r#"<form class="ag-form ag-focus-form ag-key-private" id="category-focus-heading" method="post" action=""#@
        + o_html(&f.submit.action) + r#"">"#@
        + hidden_inputs_html(f.submit.csrf.0@, f.submit.fields@) + r#"
  <label class="ag-form__label" for="ag-focus-level">Reading priority for this category</label>
  <div class="ag-form__row">
    <select id="ag-focus-level" name="level">"#@ + focus_level_options_html(f.selected)
        + r#"</select>
    <button class="btn btn-secondary btn-sm" type="submit">Apply</button>
  </div>
  "#@ + (if f.saved {
        r#"<p class="ag-form__status" role="status">Saved: "#@ + focus_level_label_text(f.selected)
            + ".</p>"@
    } else {
        Seq::<char>::empty()
    }) + r#"
  <p class="ag-mark-note muted">This preference is private and changes only what appears in your reading view.</p>
</form>"#@
}

/// The private focus form of a category.
pub(crate) fn category_focus_form(f: &CategoryFocusFormVM) -> (out: String)
    ensures
        out@ == category_focus_form_html(f),
{
    let mut out: String = r#"<form class="ag-form ag-focus-form ag-key-private" id="category-focus-heading" method="post" action=""#.to_owned();
    out.append(o(&f.submit.action).as_str());
    out.append(r#"">"#);
    out.append(hidden_inputs(f.submit.csrf.0.as_str(), &f.submit.fields).as_str());
    out.append(r#"
  <label class="ag-form__label" for="ag-focus-level">Reading priority for this category</label>
  <div class="ag-form__row">
    <select id="ag-focus-level" name="level">"#);
    out.append(focus_level_options(f.selected).as_str());
    out.append(r#"</select>
    <button class="btn btn-secondary btn-sm" type="submit">Apply</button>
  </div>
  "#);
    let part = if f.saved {
        let mut out: String = r#"<p class="ag-form__status" role="status">Saved: "#.to_owned();
        out.append(focus_level_label(f.selected));
        out.append(".</p>");
        out
    } else {
        String::new()
    };
    out.append(part.as_str());
    out.append(r#"
  <p class="ag-mark-note muted">This preference is private and changes only what appears in your reading view.</p>
</form>"#);
    out
}

/// The main markup of a category page.
pub open spec fn category_main_html(s: &CategoryPageShared, thread_rows: Seq<ThreadRowVM>, vs: &CategoryPageViewerState) -> Seq<char> {
    let list = thread_list_html(thread_rows_html(thread_rows, s.now), collection_note_html(s.state, "No threads in this category yet."@));
    r#"<div class="ag-category">
  "#@ + crumbs_html(seq![linked("Home"@, "/"@), here(s.category.category.name.0@)]) + r#"
  <header class="pagehead ag-head-tools ag-key-shared">
    <div class="ag-head-tools__lead">
      <div class="ag-thread__chips">"#@ + kind_chip_html(s.category.kind) + r#"</div>
      <h1 class="ag-head__title">"#@ + t_html(&s.category.category.name) + r#"</h1>
      <p class="muted ag-feed__bound">"#@ + decimal_text(thread_rows.len() as int)
        + r#" discussions in this view</p>
    </div>
  </header>
  "#@ + (match vs.focus {
        Some(f) => {
            category_focus_form_html(&f)
        },
        None => {
            Seq::<char>::empty()
        },
    }) + r#"
  "#@ + thread_controls_html(&s.controls) + r#"
  "#@ + list + r#"
</div>"#@
}

/// The main markup of a category page.
pub(crate) fn category_main(s: &CategoryPageShared, thread_rows: &Vec<ThreadRowVM>, vs: &CategoryPageViewerState) -> (out: String)
    ensures
        out@ == category_main_html(s, thread_rows@, vs),
{
    let list: String = thread_list(rows_html(thread_rows, s.now).as_str(), collection_note(s.state, "No threads in this category yet."));
    let mut out: String = r#"<div class="ag-category">
  "#.to_owned();
    out.append(crumbs(&trail2(link_crumb("Home", "/"), here_crumb(s.category.category.name.0.as_str()))).as_str());
    out.append(r#"
  <header class="pagehead ag-head-tools ag-key-shared">
    <div class="ag-head-tools__lead">
      <div class="ag-thread__chips">"#);
    out.append(kind_chip(s.category.kind));
    out.append(r#"</div>
      <h1 class="ag-head__title">"#);
    out.append(t(&s.category.category.name).as_str());
    out.append(r#"</h1>
      <p class="muted ag-feed__bound">"#);
    out.append(decimal_len(thread_rows.len()).as_str());
    out.append(r#" discussions in this view</p>
    </div>
  </header>
  "#);
    let part = match &vs.focus {
        Some(f) => {
            category_focus_form(f)
        },
        None => {
            String::new()
        },
    };
    out.append(part.as_str());
    out.append(r#"
  "#);
    out.append(thread_controls(&s.controls).as_str());
    out.append(r#"
  "#);
    out.append(list.as_str());
    out.append(r#"
</div>"#);
    out
}

/// A category page.
pub open spec fn category_html(assets: &ShellAssets, v: &CategoryView) -> Seq<char> {
    page_html(assets, &v.chrome, category_main_html(&v.shared, v.rows@, &v.viewer))
}

/// A category page.
pub fn category(assets: &ShellAssets, v: &CategoryView) -> (out: String)
    ensures
        out@ == category_html(assets, v),
{
    page(assets, &v.chrome, category_main(&v.shared, &v.rows, &v.viewer).as_str())
}

/// The choices of a thread relationship.
pub open spec fn follow_level_options_html(selected: ThreadFollowLevelVM) -> Seq<char> {
    r#"<option value="none""#@ + (if selected == ThreadFollowLevelVM::Unset {
        " selected"@
    } else {
        ""@
    }) + ">Not following</option>"@ + r#"<option value="watch""#@ + (if selected == ThreadFollowLevelVM::Watch {
        " selected"@
    } else {
        ""@
    }) + ">Add to reading list</option>"@ + r#"<option value="follow""#@ + (if selected == ThreadFollowLevelVM::Follow {
        " selected"@
    } else {
        ""@
    }) + ">Prioritize</option>"@ + r#"<option value="mute""#@ + (if selected == ThreadFollowLevelVM::Mute {
        " selected"@
    } else {
        ""@
    }) + ">Mute</option>"@
}

/// The choices of a thread relationship.
pub(crate) fn follow_level_options(selected: ThreadFollowLevelVM) -> (out: String)
    ensures
        out@ == follow_level_options_html(selected),
{
    let mut out: String = r#"<option value="none""#.to_owned();
    let part = if selected == ThreadFollowLevelVM::Unset {
        " selected"
    } else {
        ""
    };
    out.append(part);
    out.append(">Not following</option>");
    out.append(r#"<option value="watch""#);
    let part = if selected == ThreadFollowLevelVM::Watch {
        " selected"
    } else {
        ""
    };
    out.append(part);
    out.append(">Add to reading list</option>");
    out.append(r#"<option value="follow""#);
    let part = if selected == ThreadFollowLevelVM::Follow {
        " selected"
    } else {
        ""
    };
    out.append(part);
    out.append(">Prioritize</option>");
    out.append(r#"<option value="mute""#);
    let part = if selected == ThreadFollowLevelVM::Mute {
        " selected"
    } else {
        ""
    };
    out.append(part);
    out.append(">Mute</option>");
    out
}

/// The private subscription form of a thread.
pub open spec fn subscription_form_html(s: &SubscriptionFormVM) -> Seq<char> {
    r#"<form class="ag-form ag-subscribe" method="post" action=""#@ + o_html(&s.submit.action)
        + r#"">"#@ + hidden_inputs_html(s.submit.csrf.0@, s.submit.fields@) + r#"
  <label class="ag-form__label" for="ag-sub-level">Reading preference</label>
  <div class="ag-form__row">
    <select id="ag-sub-level" name="level">"#@ + follow_level_options_html(s.selected)
        + r#"</select>
    <button class="btn btn-secondary btn-sm" type="submit">Update</button>
  </div>
  <p class="ag-mark-note muted">Private: this changes your reading view. It does not send notifications.</p>
</form>"#@
}

/// The private subscription form of a thread.
pub(crate) fn subscription_form(s: &SubscriptionFormVM) -> (out: String)
    ensures
        out@ == subscription_form_html(s),
{
    let mut out: String = r#"<form class="ag-form ag-subscribe" method="post" action=""#.to_owned();
    out.append(o(&s.submit.action).as_str());
    out.append(r#"">"#);
    out.append(hidden_inputs(s.submit.csrf.0.as_str(), &s.submit.fields).as_str());
    out.append(r#"
  <label class="ag-form__label" for="ag-sub-level">Reading preference</label>
  <div class="ag-form__row">
    <select id="ag-sub-level" name="level">"#);
    out.append(follow_level_options(s.selected).as_str());
    out.append(r#"</select>
    <button class="btn btn-secondary btn-sm" type="submit">Update</button>
  </div>
  <p class="ag-mark-note muted">Private: this changes your reading view. It does not send notifications.</p>
</form>"#);
    out
}

/// The edit and deletion entries of the author.
pub open spec fn owner_actions_html(viewer: &ThreadViewerState) -> Seq<char> {
    link_action_opt_html(&viewer.edit) + link_action_opt_html(&viewer.delete_review)
}

/// The edit and deletion entries of the author.
pub(crate) fn owner_actions(viewer: &ThreadViewerState) -> (out: String)
    ensures
        out@ == owner_actions_html(viewer),
{
    let mut out: String = link_action_opt(&viewer.edit);
    out.append(link_action_opt(&viewer.delete_review).as_str());
    out
}

/// The private controls of a thread.
pub open spec fn viewer_controls_html(viewer: &ThreadViewerState) -> Seq<char> {
    let owner = owner_actions_html(viewer);
    (match viewer.subscription {
        Some(sub) => {
            subscription_form_html(&sub)
        },
        None => {
            Seq::<char>::empty()
        },
    }) + (if owner.len() == 0 {
        Seq::<char>::empty()
    } else {
        r#"<div class="ag-owner-actions">"#@ + owner + "</div>"@
    }) + (match viewer.clear_invalid_solution {
        Some(clear) => {
            r#"<div class="ag-repair ag-key-private" role="note"><p class="ag-mark-note muted">A previously accepted answer is no longer valid. Only you can clear this private repair state.</p>"#@
                + form_action_html(&clear) + "</div>"@
        },
        None => {
            Seq::<char>::empty()
        },
    })
}

/// The private controls of a thread.
pub(crate) fn viewer_controls(viewer: &ThreadViewerState) -> (out: String)
    ensures
        out@ == viewer_controls_html(viewer),
{
    let owner: String = owner_actions(viewer);
    let mut out: String = match &viewer.subscription {
        Some(sub) => {
            subscription_form(sub)
        },
        None => {
            String::new()
        },
    };
    let part = if owner.as_str().is_empty() {
        String::new()
    } else {
        let mut out: String = r#"<div class="ag-owner-actions">"#.to_owned();
        out.append(owner.as_str());
        out.append("</div>");
        out
    };
    out.append(part.as_str());
    let part = match &viewer.clear_invalid_solution {
        Some(clear) => {
            let mut out: String = r#"<div class="ag-repair ag-key-private" role="note"><p class="ag-mark-note muted">A previously accepted answer is no longer valid. Only you can clear this private repair state.</p>"#.to_owned();
            out.append(form_action(clear).as_str());
            out.append("</div>");
            out
        },
        None => {
            String::new()
        },
    };
    out.append(part.as_str());
    out
}

/// The head of a thread page.
pub open spec fn thread_head_html(s: &ThreadShared, viewer: &ThreadViewerState, now: i64) -> Seq<char> {
    let controls = viewer_controls_html(viewer);
    r#"<header class="ag-thread__head ag-key-shared">
  <div class="ag-thread__chips">"#@ + shared_chips_html(s.kind, s.answer_state) + (if s.pinned {
        r#"<span class="badge ag-chip-shared ag-flag ag-flag--pinned">Pinned</span>"#@
    } else {
        ""@
    }) + (if s.locked {
        r#"<span class="badge ag-chip-shared ag-flag ag-flag--locked">Locked</span>"#@
    } else {
        ""@
    }) + r#"</div>
  <h1 class="ag-thread__title">"#@ + t_html(&s.title) + r#"</h1>
  <p class="ag-thread__meta">Started by <span class="ag-thread__author">"#@ + t_html(&s.author_display) + "</span> · "@ + time_el_html(s.created_at, now) + replies_suffix_html(s.post_count) + r#"</p>
  "#@ + (if controls.len() == 0 {
        Seq::<char>::empty()
    } else {
        r#"<div class="ag-thread__viewer ag-key-private">"#@ + controls + "</div>"@
    }) + r#"
</header>"#@
}

/// The head of a thread page.
pub(crate) fn thread_head(s: &ThreadShared, viewer: &ThreadViewerState, now: i64) -> (out: String)
    ensures
        out@ == thread_head_html(s, viewer, now),
{
    let controls: String = viewer_controls(viewer);
    let mut out: String = r#"<header class="ag-thread__head ag-key-shared">
  <div class="ag-thread__chips">"#.to_owned();
    out.append(shared_chips(s.kind, s.answer_state).as_str());
    let part = if s.pinned {
        r#"<span class="badge ag-chip-shared ag-flag ag-flag--pinned">Pinned</span>"#
    } else {
        ""
    };
    out.append(part);
    let part = if s.locked {
        r#"<span class="badge ag-chip-shared ag-flag ag-flag--locked">Locked</span>"#
    } else {
        ""
    };
    out.append(part);
    out.append(r#"</div>
  <h1 class="ag-thread__title">"#);
    out.append(t(&s.title).as_str());
    out.append(r#"</h1>
  <p class="ag-thread__meta">Started by <span class="ag-thread__author">"#);
    out.append(t(&s.author_display).as_str());
    out.append("</span> · ");
    out.append(time_el(s.created_at, now).as_str());
    out.append(replies_suffix(s.post_count).as_str());
    out.append(r#"</p>
  "#);
    let part = if controls.as_str().is_empty() {
        String::new()
    } else {
        let mut out: String = r#"<div class="ag-thread__viewer ag-key-private">"#.to_owned();
        out.append(controls.as_str());
        out.append("</div>");
        out
    };
    out.append(part.as_str());
    out.append(r#"
</header>"#);
    out
}

/// Where to resume or start reading, in the reading guide.
pub open spec fn resume_section_html(reading: &ReadingProgressVM) -> Seq<char> {
    (match (reading.resume_href, reading.first_unread_href) {
        (Some(h), _) => {
            r#"<div class="ag-spine__section ag-spine__section--private"><span class="ag-spine__mark">→</span><a class="ag-spine__link" href=""#@
                + o_html(&h) + r#"">Continue reading</a></div>"#@
        },
        (None, Some(h)) => {
            r#"<div class="ag-spine__section ag-spine__section--private"><span class="ag-spine__mark">→</span><a class="ag-spine__link" href=""#@
                + o_html(&h) + r#"">Start reading</a></div>"#@
        },
        (None, None) => {
            Seq::<char>::empty()
        },
    })
}

/// Where to resume or start reading, in the reading guide.
pub(crate) fn resume_section(reading: &ReadingProgressVM) -> (out: String)
    ensures
        out@ == resume_section_html(reading),
{
    match (&reading.resume_href, &reading.first_unread_href) {
        (Some(h), _) => {
            let mut out: String = r#"<div class="ag-spine__section ag-spine__section--private"><span class="ag-spine__mark">→</span><a class="ag-spine__link" href=""#.to_owned();
            out.append(o(h).as_str());
            out.append(r#"">Continue reading</a></div>"#);
            out
        },
        (None, Some(h)) => {
            let mut out: String = r#"<div class="ag-spine__section ag-spine__section--private"><span class="ag-spine__mark">→</span><a class="ag-spine__link" href=""#.to_owned();
            out.append(o(h).as_str());
            out.append(r#"">Start reading</a></div>"#);
            out
        },
        (None, None) => {
            String::new()
        },
    }
}

/// The reading state in the reading guide.
pub open spec fn unread_indicator_html(reading: &ReadingProgressVM) -> Seq<char> {
    (match reading.unread_count {
        Some(n) => {
            (if n > 0 {
                r#"<div class="ag-spine__section ag-spine__section--private"><span class="ag-spine__mark">•</span><span class="ag-spine__text">"#@
                    + escape_text(unread_label_text(n)) + "</span></div>"@
            } else {
                (if reading.started {
                    r#"<div class="ag-spine__section ag-spine__section--private"><span class="ag-spine__mark">✓</span><span class="ag-spine__text">Caught up</span></div>"#@
                } else {
                    ""@
                })
            })
        },
        None => {
            Seq::<char>::empty()
        },
    })
}

/// The reading state in the reading guide.
pub(crate) fn unread_indicator(reading: &ReadingProgressVM) -> (out: String)
    ensures
        out@ == unread_indicator_html(reading),
{
    match reading.unread_count {
        Some(n) => {
            if n > 0 {
                let mut out: String = r#"<div class="ag-spine__section ag-spine__section--private"><span class="ag-spine__mark">•</span><span class="ag-spine__text">"#.to_owned();
                out.append(escape(unread_label(n).as_str()).as_str());
                out.append("</span></div>");
                out
            } else {
                (if reading.started {
                    r#"<div class="ag-spine__section ag-spine__section--private"><span class="ag-spine__mark">✓</span><span class="ag-spine__text">Caught up</span></div>"#
                } else {
                    ""
                }).to_owned()
            }
        },
        None => {
            String::new()
        },
    }
}

/// The reading guide of a question.
pub open spec fn reading_spine_html(v: &ThreadView) -> Seq<char> {
    (if v.shared.kind != ThreadKind::Question {
        Seq::<char>::empty()
    } else {
        r##"<aside class="ag-reading-spine ag-key-shared" aria-label="Reading guide">
  <div class="ag-spine__section"><span class="ag-spine__mark">○</span><a class="ag-spine__link" href="#ag-floor-title">Question</a></div>
  "##@ + (if v.dais is Some {
            r##"<div class="ag-spine__section ag-spine__section--dais"><span class="ag-spine__mark">◆</span><a class="ag-spine__link" href="#ag-dais-title">Accepted Answer</a></div>"##@
        } else {
            ""@
        }) + r#"
  "#@ + resume_section_html(&v.reading) + r#"
  "#@ + unread_indicator_html(&v.reading) + r#"
</aside>"#@
    })
}

/// The reading guide of a question.
pub(crate) fn reading_spine(v: &ThreadView) -> (out: String)
    ensures
        out@ == reading_spine_html(v),
{
    if v.shared.kind != ThreadKind::Question {
        String::new()
    } else {
        let mut out: String = r##"<aside class="ag-reading-spine ag-key-shared" aria-label="Reading guide">
  <div class="ag-spine__section"><span class="ag-spine__mark">○</span><a class="ag-spine__link" href="#ag-floor-title">Question</a></div>
  "##.to_owned();
        let part = if v.dais.is_some() {
            r##"<div class="ag-spine__section ag-spine__section--dais"><span class="ag-spine__mark">◆</span><a class="ag-spine__link" href="#ag-dais-title">Accepted Answer</a></div>"##
        } else {
            ""
        };
        out.append(part);
        out.append(r#"
  "#);
        out.append(resume_section(&v.reading).as_str());
        out.append(r#"
  "#);
        out.append(unread_indicator(&v.reading).as_str());
        out.append(r#"
</aside>"#);
        out
    }
}

/// How many posts are unread, in words.
pub open spec fn unread_posts_label_text(n: i64) -> Seq<char> {
    (if n == 1 {
        "1 unread post"@
    } else {
        decimal_text(n as int) + " unread posts"@
    })
}

/// How many posts are unread, in words.
pub(crate) fn unread_posts_label(n: i64) -> (out: String)
    ensures
        out@ == unread_posts_label_text(n),
{
    if n == 1 {
        "1 unread post".to_owned()
    } else {
        let mut out: String = decimal(n);
        out.append(" unread posts");
        out
    }
}

/// The reading links, the reading state, and the page-read form.
pub open spec fn control_parts_html(reading: &ReadingProgressVM) -> Seq<char> {
    (match (reading.resume_href, reading.first_unread_href) {
        (Some(h), _) => {
            r#"<a class="ag-mark ag-mark--resume" href=""#@ + o_html(&h)
                + r#"">Continue reading</a>"#@
        },
        (None, Some(h)) => {
            r#"<a class="ag-mark ag-mark--resume" href=""#@ + o_html(&h) + r#"">Start reading</a>"#@
        },
        (None, None) => {
            Seq::<char>::empty()
        },
    }) + (match reading.unread_count {
        Some(n) => {
            (if n > 0 {
                private_marker_html("unread"@, unread_posts_label_text(n))
            } else {
                (if reading.started {
                    private_marker_html("caught-up"@, "Caught up"@)
                } else {
                    Seq::<char>::empty()
                })
            })
        },
        None => {
            Seq::<char>::empty()
        },
    }) + (match reading.mark_page_read {
        Some(action) => {
            r#"<span class="ag-read-progress__status muted" data-thread-read-status role="status" aria-live="polite">Only posts shown on this page will be marked read.</span><form class="inline-form" method="post" action=""#@
                + o_html(&action.action) + r#"" data-thread-read-form>"#@
                + hidden_inputs_html(action.csrf.0@, action.fields@)
                + r#"<button class="btn btn-secondary btn-sm" type="submit" data-thread-read-submit>Mark page read &amp; continue</button></form>"#@
        },
        None => {
            Seq::<char>::empty()
        },
    })
}

/// The reading links, the reading state, and the page-read form.
pub(crate) fn control_parts(reading: &ReadingProgressVM) -> (out: String)
    ensures
        out@ == control_parts_html(reading),
{
    let mut out: String = match (&reading.resume_href, &reading.first_unread_href) {
        (Some(h), _) => {
            let mut out: String = r#"<a class="ag-mark ag-mark--resume" href=""#.to_owned();
            out.append(o(h).as_str());
            out.append(r#"">Continue reading</a>"#);
            out
        },
        (None, Some(h)) => {
            let mut out: String = r#"<a class="ag-mark ag-mark--resume" href=""#.to_owned();
            out.append(o(h).as_str());
            out.append(r#"">Start reading</a>"#);
            out
        },
        (None, None) => {
            String::new()
        },
    };
    let part = match reading.unread_count {
        Some(n) => {
            if n > 0 {
                private_marker("unread", unread_posts_label(n).as_str())
            } else {
                if reading.started {
                    private_marker("caught-up", "Caught up")
                } else {
                    String::new()
                }
            }
        },
        None => {
            String::new()
        },
    };
    out.append(part.as_str());
    let part = match &reading.mark_page_read {
        Some(action) => {
            let mut out: String = r#"<span class="ag-read-progress__status muted" data-thread-read-status role="status" aria-live="polite">Only posts shown on this page will be marked read.</span><form class="inline-form" method="post" action=""#.to_owned();
            out.append(o(&action.action).as_str());
            out.append(r#"" data-thread-read-form>"#);
            out.append(hidden_inputs(action.csrf.0.as_str(), &action.fields).as_str());
            out.append(r#"<button class="btn btn-secondary btn-sm" type="submit" data-thread-read-submit>Mark page read &amp; continue</button></form>"#);
            out
        },
        None => {
            String::new()
        },
    };
    out.append(part.as_str());
    out
}

/// The reading controls of a thread page; the pagination always shows.
pub open spec fn reading_controls_html(v: &ThreadView) -> Seq<char> {
    r#"<div class="ag-reading-controls ag-key-private" role="region" aria-label="Reading controls" data-thread-read-progress>
  "#@ + control_parts_html(&v.reading) + r#"
  "#@ + pagination_html(&v.pagination) + r#"
</div>"#@
}

/// The reading controls of a thread page; the pagination always shows.
pub(crate) fn reading_controls(v: &ThreadView) -> (out: String)
    ensures
        out@ == reading_controls_html(v),
{
    let mut out: String = r#"<div class="ag-reading-controls ag-key-private" role="region" aria-label="Reading controls" data-thread-read-progress>
  "#.to_owned();
    out.append(control_parts(&v.reading).as_str());
    out.append(r#"
  "#);
    out.append(pagination(&v.pagination).as_str());
    out.append(r#"
</div>"#);
    out
}

/// The sentences of a summary.
pub open spec fn summary_items_html(sentences: Seq<Text>) -> Seq<char>
    decreases sentences.len(),
{
    if sentences.len() == 0 {
        Seq::empty()
    } else {
        let item = sentences.last();
        summary_items_html(sentences.drop_last()) + ("<li>"@ + t_html(&item) + "</li>"@)
    }
}

/// The sentences of a summary.
pub(crate) fn summary_items(sentences: &Vec<Text>) -> (out: String)
    ensures
        out@ == summary_items_html(sentences@),
{
    let mut out = String::new();
    let mut i: usize = 0;
    assert(out@ =~= summary_items_html(sentences@.take(0)));
    while i < sentences.len()
        invariant
            0 <= i <= sentences@.len(),
            out@ == summary_items_html(sentences@.take(i as int)),
        decreases sentences@.len() - i,
    {
        assert(sentences@.take(i + 1).drop_last() =~= sentences@.take(i as int));
        let item = &sentences[i];
        let part: String = {
            let mut out: String = "<li>".to_owned();
            out.append(t(item).as_str());
            out.append("</li>");
            out
        };
        out.append(part.as_str());
        i = i + 1;
    }
    assert(sentences@.take(i as int) =~= sentences@);
    out
}

/// The summary of the replies shown, when there is one.
pub open spec fn summary_block_html(s: &SummaryStateVM) -> Seq<char> {
    (match *s {
        SummaryStateVM::Available(sv) => {
            r#"<details class="ag-desk ag-summary">
  <summary class="ag-desk__summary">Summary of the replies shown here</summary>
  <p class="muted ag-desk__bound">Based on "#@ + decimal_text(sv.source_post_count as int)
                + " posts on this page · up to "@ + decimal_text(sv.sentence_bound as int)
                + r#" sentences. This may not represent the entire thread or consensus.</p>
  <ol class="ag-summary__list">"#@ + summary_items_html(sv.sentences@) + r#"</ol>
</details>"#@
        },
        SummaryStateVM::Unavailable(_) => {
            Seq::<char>::empty()
        },
    })
}

/// The summary of the replies shown, when there is one.
pub(crate) fn summary_block(s: &SummaryStateVM) -> (out: String)
    ensures
        out@ == summary_block_html(s),
{
    match s {
        SummaryStateVM::Available(sv) => {
            let mut out: String = r#"<details class="ag-desk ag-summary">
  <summary class="ag-desk__summary">Summary of the replies shown here</summary>
  <p class="muted ag-desk__bound">Based on "#.to_owned();
            out.append(decimal(sv.source_post_count).as_str());
            out.append(" posts on this page · up to ");
            out.append(decimal(sv.sentence_bound).as_str());
            out.append(r#" sentences. This may not represent the entire thread or consensus.</p>
  <ol class="ag-summary__list">"#);
            out.append(summary_items(&sv.sentences).as_str());
            out.append(r#"</ol>
</details>"#);
            out
        },
        SummaryStateVM::Unavailable(_) => {
            String::new()
        },
    }
}

/// The reply composer, or the notice that stands in for it.
pub open spec fn reply_form_block_html(f: &ReplyFormVM, is_question: bool) -> Seq<char> {
    (match *f {
        ReplyFormVM::Available {
            submit, body, quoted_post_id
        }
        => {
            r#"<form class="ag-form ag-reply-form" id="reply" method="post" action=""#@
                + o_html(&submit.action) + r#"">"#@
                + hidden_inputs_html(submit.csrf.0@, submit.fields@) + (match quoted_post_id {
                Some(q) => {
                    r#"<input type="hidden" name="quote_post_id" value=""#@ + o_html(&q) + r#"">"#@
                },
                None => {
                    Seq::<char>::empty()
                },
            }) + r#"
  "#@ + (match quoted_post_id {
                Some(q) => {
                    r##"<p class="ag-reply-quote muted">Quoting <a href="#post-"##@ + o_html(&q)
                        + r#"">a post above</a>.</p>"#@
                },
                None => {
                    Seq::<char>::empty()
                },
            }) + r#"
  <label class="ag-form__label" for="ag-reply-body">"#@ + (if is_question {
                "Your answer"@
            } else {
                "Your reply"@
            }) + r#"</label>
  <textarea id="ag-reply-body" name="body" rows="6" required>"#@ + t_html(&body) + r#"</textarea>
  <p class="ag-md-hint muted">Markdown is supported.</p>
  <div class="form-actions"><button class="btn btn-primary" type="submit">"#@ + (if is_question {
                "Post answer"@
            } else {
                "Post reply"@
            }) + r#"</button></div>
</form>"#@
        },
        ReplyFormVM::LockedNotice {
            message
        }
        => {
            r#"<div class="card pad ag-locked-notice" role="status"><p class="empty-title">This thread is locked</p><p class="muted">"#@
                + t_html(&message) + "</p></div>"@
        },
        ReplyFormVM::UnavailableNotice {
            heading, message
        }
        => {
            r#"<div class="card pad ag-locked-notice" role="status"><p class="empty-title">"#@
                + t_html(&heading) + r#"</p><p class="muted">"#@ + t_html(&message) + "</p></div>"@
        },
    })
}

/// The reply composer, or the notice that stands in for it.
pub(crate) fn reply_form_block(f: &ReplyFormVM, is_question: bool) -> (out: String)
    ensures
        out@ == reply_form_block_html(f, is_question),
{
    match f {
        ReplyFormVM::Available {
            submit, body, quoted_post_id
        }
        => {
            let mut out: String = r#"<form class="ag-form ag-reply-form" id="reply" method="post" action=""#.to_owned();
            out.append(o(&submit.action).as_str());
            out.append(r#"">"#);
            out.append(hidden_inputs(submit.csrf.0.as_str(), &submit.fields).as_str());
            let part = match quoted_post_id {
                Some(q) => {
                    let mut out: String = r#"<input type="hidden" name="quote_post_id" value=""#.to_owned();
                    out.append(o(q).as_str());
                    out.append(r#"">"#);
                    out
                },
                None => {
                    String::new()
                },
            };
            out.append(part.as_str());
            out.append(r#"
  "#);
            let part = match quoted_post_id {
                Some(q) => {
                    let mut out: String = r##"<p class="ag-reply-quote muted">Quoting <a href="#post-"##.to_owned();
                    out.append(o(q).as_str());
                    out.append(r#"">a post above</a>.</p>"#);
                    out
                },
                None => {
                    String::new()
                },
            };
            out.append(part.as_str());
            out.append(r#"
  <label class="ag-form__label" for="ag-reply-body">"#);
            let part = if is_question {
                "Your answer"
            } else {
                "Your reply"
            };
            out.append(part);
            out.append(r#"</label>
  <textarea id="ag-reply-body" name="body" rows="6" required>"#);
            out.append(t(body).as_str());
            out.append(r#"</textarea>
  <p class="ag-md-hint muted">Markdown is supported.</p>
  <div class="form-actions"><button class="btn btn-primary" type="submit">"#);
            let part = if is_question {
                "Post answer"
            } else {
                "Post reply"
            };
            out.append(part);
            out.append(r#"</button></div>
</form>"#);
            out
        },
        ReplyFormVM::LockedNotice {
            message
        }
        => {
            let mut out: String = r#"<div class="card pad ag-locked-notice" role="status"><p class="empty-title">This thread is locked</p><p class="muted">"#.to_owned();
            out.append(t(message).as_str());
            out.append("</p></div>");
            out
        },
        ReplyFormVM::UnavailableNotice {
            heading, message
        }
        => {
            let mut out: String = r#"<div class="card pad ag-locked-notice" role="status"><p class="empty-title">"#.to_owned();
            out.append(t(heading).as_str());
            out.append(r#"</p><p class="muted">"#);
            out.append(t(message).as_str());
            out.append("</p></div>");
            out
        },
    }
}

/// The destinations of a move.
pub open spec fn move_options_html(categories: Seq<CategoryRefVM>, selected: &Opaque) -> Seq<char>
    decreases categories.len(),
{
    if categories.len() == 0 {
        Seq::empty()
    } else {
        let item = categories.last();
        move_options_html(categories.drop_last(), selected)
            + (r#"<option value=""#@ + o_html(&item.id) + r#"""#@ + (if item.id.0@ == selected.0@ {
            " selected"@
        } else {
            ""@
        }) + ">"@ + t_html(&item.name) + "</option>"@)
    }
}

/// The destinations of a move.
pub(crate) fn move_options(categories: &Vec<CategoryRefVM>, selected: &Opaque) -> (out: String)
    ensures
        out@ == move_options_html(categories@, selected),
{
    let mut out = String::new();
    let mut i: usize = 0;
    assert(out@ =~= move_options_html(categories@.take(0), selected));
    while i < categories.len()
        invariant
            0 <= i <= categories@.len(),
            out@ == move_options_html(categories@.take(i as int), selected),
        decreases categories@.len() - i,
    {
        assert(categories@.take(i + 1).drop_last() =~= categories@.take(i as int));
        let item = &categories[i];
        let part: String = {
            let mut out: String = r#"<option value=""#.to_owned();
            out.append(o(&item.id).as_str());
            out.append(r#"""#);
            let part = if item.id.0 == selected.0 {
                " selected"
            } else {
                ""
            };
            out.append(part);
            out.append(">");
            out.append(t(&item.name).as_str());
            out.append("</option>");
            out
        };
        out.append(part.as_str());
        i = i + 1;
    }
    assert(categories@.take(i as int) =~= categories@);
    out
}

/// The moderation controls of a thread.
pub open spec fn toolbar_items_html(a: &AdminThreadToolbarVM) -> Seq<char> {
    (match a.move_thread {
        Some(m) => {
            r#"<form class="inline-form ag-admin-move" method="post" action=""#@
                + o_html(&m.submit.action) + r#"">"#@
                + hidden_inputs_html(m.submit.csrf.0@, m.submit.fields@)
                + r#"<select name="category" aria-label="Move to category" required>"#@
                + move_options_html(m.categories@, &m.selected_category)
                + r#"</select><button class="btn btn-secondary btn-sm" type="submit">Move</button></form>"#@
        },
        None => {
            Seq::<char>::empty()
        },
    }) + form_action_opt_html(&a.lock) + form_action_opt_html(&a.pin) + link_action_opt_html(&a.delete_review)
}

/// The moderation controls of a thread.
pub(crate) fn toolbar_items(a: &AdminThreadToolbarVM) -> (out: String)
    ensures
        out@ == toolbar_items_html(a),
{
    let mut out: String = match &a.move_thread {
        Some(m) => {
            let mut out: String = r#"<form class="inline-form ag-admin-move" method="post" action=""#.to_owned();
            out.append(o(&m.submit.action).as_str());
            out.append(r#"">"#);
            out.append(hidden_inputs(m.submit.csrf.0.as_str(), &m.submit.fields).as_str());
            out.append(r#"<select name="category" aria-label="Move to category" required>"#);
            out.append(move_options(&m.categories, &m.selected_category).as_str());
            out.append(r#"</select><button class="btn btn-secondary btn-sm" type="submit">Move</button></form>"#);
            out
        },
        None => {
            String::new()
        },
    };
    out.append(form_action_opt(&a.lock).as_str());
    out.append(form_action_opt(&a.pin).as_str());
    out.append(link_action_opt(&a.delete_review).as_str());
    out
}

/// The moderation toolbar of a thread; without controls it renders nothing.
pub open spec fn admin_thread_toolbar_html(a: &AdminThreadToolbarVM) -> Seq<char> {
    let items = toolbar_items_html(a);
    (if items.len() == 0 {
        Seq::<char>::empty()
    } else {
        r#"<div class="ag-thread-toolbar ag-key-shared" role="group" aria-label="Moderation">"#@
            + eyebrow_html("Moderation"@) + items + "</div>"@
    })
}

/// The moderation toolbar of a thread; without controls it renders nothing.
pub(crate) fn admin_thread_toolbar(a: &AdminThreadToolbarVM) -> (out: String)
    ensures
        out@ == admin_thread_toolbar_html(a),
{
    let items: String = toolbar_items(a);
    if items.as_str().is_empty() {
        String::new()
    } else {
        let mut out: String = r#"<div class="ag-thread-toolbar ag-key-shared" role="group" aria-label="Moderation">"#.to_owned();
        out.append(eyebrow("Moderation").as_str());
        out.append(items.as_str());
        out.append("</div>");
        out
    }
}

/// Whether a reply is the one shown on the dais.
pub open spec fn on_dais(dais: Option<AnswerDaisVM>, reply: PostVM) -> bool {
    dais is Some && dais->0.post.id.0@ == reply.id.0@
}

fn is_on_dais(dais: &Option<AnswerDaisVM>, reply: &PostVM) -> (r: bool)
    ensures
        r == on_dais(*dais, *reply),
{
    match dais {
        Some(d) => d.post.id.0 == reply.id.0,
        None => false,
    }
}

/// A reply in its chronological place, unless it is the one on the dais.
pub open spec fn reply_post_html(dais: &Option<AnswerDaisVM>, reply: &PostVM, now: i64) -> Seq<char> {
    (if on_dais(*dais, *reply) {
        Seq::<char>::empty()
    } else {
        post_html(reply, now)
    })
}

/// A reply in its chronological place, unless it is the one on the dais.
pub(crate) fn reply_post(dais: &Option<AnswerDaisVM>, reply: &PostVM, now: i64) -> (out: String)
    ensures
        out@ == reply_post_html(dais, reply, now),
{
    if is_on_dais(dais, reply) {
        String::new()
    } else {
        post(reply, now)
    }
}

/// The replies in chronological order, without the one on the dais.
pub open spec fn reply_posts_html(replies: Seq<PostVM>, dais: &Option<AnswerDaisVM>, now: i64) -> Seq<char>
    decreases replies.len(),
{
    if replies.len() == 0 {
        Seq::empty()
    } else {
        let item = replies.last();
        reply_posts_html(replies.drop_last(), dais, now) + (reply_post_html(dais, &item, now))
    }
}

/// The replies in chronological order, without the one on the dais.
pub(crate) fn reply_posts(replies: &Vec<PostVM>, dais: &Option<AnswerDaisVM>, now: i64) -> (out: String)
    ensures
        out@ == reply_posts_html(replies@, dais, now),
{
    let mut out = String::new();
    let mut i: usize = 0;
    assert(out@ =~= reply_posts_html(replies@.take(0), dais, now));
    while i < replies.len()
        invariant
            0 <= i <= replies@.len(),
            out@ == reply_posts_html(replies@.take(i as int), dais, now),
        decreases replies@.len() - i,
    {
        assert(replies@.take(i + 1).drop_last() =~= replies@.take(i as int));
        let item = &replies[i];
        let part: String = reply_post(dais, item, now);
        out.append(part.as_str());
        i = i + 1;
    }
    assert(replies@.take(i as int) =~= replies@);
    out
}

/// Whether every reply is the one shown on the dais.
pub open spec fn all_on_dais(replies: Seq<PostVM>, dais: Option<AnswerDaisVM>) -> bool {
    forall|i: int| 0 <= i < replies.len() ==> on_dais(dais, #[trigger] replies[i])
}

fn are_all_on_dais(replies: &Vec<PostVM>, dais: &Option<AnswerDaisVM>) -> (r: bool)
    ensures
        r == all_on_dais(replies@, *dais),
{
    let mut i: usize = 0;
    while i < replies.len()
        invariant
            0 <= i <= replies@.len(),
            forall|j: int| 0 <= j < i ==> on_dais(*dais, #[trigger] replies@[j]),
        decreases replies@.len() - i,
    {
        if !is_on_dais(dais, &replies[i]) {
            return false;
        }
        i = i + 1;
    }
    true
}

/// The replies of a thread page with its page boundaries.
pub open spec fn reply_steps_html(v: &ThreadView) -> Seq<char> {
    r#"<section class="ag-steps" aria-labelledby="ag-steps-title"><h2 class="eyebrow ag-eyebrow" id="ag-steps-title">Replies</h2>"#@
        + (if v.pagination.at_start {
        ""@
    } else {
        r#"<div class="ag-steps__bound ag-steps__bound--start" role="separator"><span>Earlier replies on previous page</span></div>"#@
    }) + (if all_on_dais(v.replies@, v.dais) {
        empty_note_html(CollectionState::ReadyEmpty, "No replies yet."@)
    } else {
        reply_posts_html(v.replies@, &v.dais, v.now)
    }) + (if v.pagination.at_end {
        ""@
    } else {
        r#"<div class="ag-steps__bound ag-steps__bound--end" role="separator"><span>More replies on next page</span></div>"#@
    }) + (if v.reading.mark_page_read is Some {
        r#"<span class="ag-read-progress__sentinel" data-thread-read-sentinel aria-hidden="true"></span>"#@
    } else {
        ""@
    }) + r#"<span class="ag-thread-latest-anchor" id="thread-latest" tabindex="-1"></span></section>"#@
}

/// The replies of a thread page with its page boundaries.
pub(crate) fn reply_steps(v: &ThreadView) -> (out: String)
    ensures
        out@ == reply_steps_html(v),
{
    let mut out: String = r#"<section class="ag-steps" aria-labelledby="ag-steps-title"><h2 class="eyebrow ag-eyebrow" id="ag-steps-title">Replies</h2>"#.to_owned();
    let part = if v.pagination.at_start {
        ""
    } else {
        r#"<div class="ag-steps__bound ag-steps__bound--start" role="separator"><span>Earlier replies on previous page</span></div>"#
    };
    out.append(part);
    let part = if are_all_on_dais(&v.replies, &v.dais) {
        empty_note(CollectionState::ReadyEmpty, "No replies yet.")
    } else {
        reply_posts(&v.replies, &v.dais, v.now)
    };
    out.append(part.as_str());
    let part = if v.pagination.at_end {
        ""
    } else {
        r#"<div class="ag-steps__bound ag-steps__bound--end" role="separator"><span>More replies on next page</span></div>"#
    };
    out.append(part);
    let part = if v.reading.mark_page_read.is_some() {
        r#"<span class="ag-read-progress__sentinel" data-thread-read-sentinel aria-hidden="true"></span>"#
    } else {
        ""
    };
    out.append(part);
    out.append(r#"<span class="ag-thread-latest-anchor" id="thread-latest" tabindex="-1"></span></section>"#);
    out
}

/// The breadcrumb of a thread: home, its category, its title.
pub open spec fn thread_trail_html(s: &ThreadShared) -> Seq<char> {
    (match s.category {
        Some(c) => {
            crumbs_html(seq![linked("Home"@, "/"@), linked(c.name.0@, category_href_text(&c.id)), here(s.title.0@)])
        },
        None => {
            crumbs_html(seq![linked("Home"@, "/"@), here(s.title.0@)])
        },
    })
}

/// The breadcrumb of a thread: home, its category, its title.
pub(crate) fn thread_trail(s: &ThreadShared) -> (out: String)
    ensures
        out@ == thread_trail_html(s),
{
    match &s.category {
        Some(c) => {
            crumbs(&trail3(link_crumb("Home", "/"), link_crumb(c.name.0.as_str(), category_href(&c.id).as_str()), here_crumb(s.title.0.as_str())))
        },
        None => {
            crumbs(&trail2(link_crumb("Home", "/"), here_crumb(s.title.0.as_str())))
        },
    }
}

/// The main markup of a thread page.
pub open spec fn thread_main_html(v: &ThreadView) -> Seq<char> {
    let spine = reading_spine_html(v);
    r#"<article class="ag-thread"#@ + (if spine.len() == 0 {
        ""@
    } else {
        " ag-thread--spined"@
    }) + r#"">
  "#@ + thread_trail_html(&v.shared) + r#"
  "#@ + thread_head_html(&v.shared, &v.viewer, v.now) + r#"
  <div class="ag-thread__body">
    "#@ + spine + r#"
    <div class="ag-thread__col">
      "#@ + (match v.admin {
        Some(a) => {
            admin_thread_toolbar_html(&a)
        },
        None => {
            Seq::<char>::empty()
        },
    }) + r#"
      "#@ + summary_block_html(&v.summary) + r#"
      <section class="ag-floor" aria-labelledby="ag-floor-title"><h2 class="eyebrow ag-eyebrow" id="ag-floor-title">Original post</h2>"#@ + post_html(&v.op, v.now) + r#"</section>
      "#@ + (match v.dais {
        Some(d) => {
            answer_dais_html(&d, v.now)
        },
        None => {
            Seq::<char>::empty()
        },
    }) + r#"
      "#@ + reply_steps_html(v) + r#"
      "#@ + reading_controls_html(v) + r#"
      "#@ + reply_form_block_html(&v.reply_form, v.shared.kind == ThreadKind::Question) + r#"
    </div>
  </div>
</article>"#@
}

/// The main markup of a thread page.
pub(crate) fn thread_main(v: &ThreadView) -> (out: String)
    ensures
        out@ == thread_main_html(v),
{
    let spine: String = reading_spine(v);
    let mut out: String = r#"<article class="ag-thread"#.to_owned();
    let part = if spine.as_str().is_empty() {
        ""
    } else {
        " ag-thread--spined"
    };
    out.append(part);
    out.append(r#"">
  "#);
    out.append(thread_trail(&v.shared).as_str());
    out.append(r#"
  "#);
    out.append(thread_head(&v.shared, &v.viewer, v.now).as_str());
    out.append(r#"
  <div class="ag-thread__body">
    "#);
    out.append(spine.as_str());
    out.append(r#"
    <div class="ag-thread__col">
      "#);
    let part = match &v.admin {
        Some(a) => {
            admin_thread_toolbar(a)
        },
        None => {
            String::new()
        },
    };
    out.append(part.as_str());
    out.append(r#"
      "#);
    out.append(summary_block(&v.summary).as_str());
    out.append(r#"
      <section class="ag-floor" aria-labelledby="ag-floor-title"><h2 class="eyebrow ag-eyebrow" id="ag-floor-title">Original post</h2>"#);
    out.append(post(&v.op, v.now).as_str());
    out.append(r#"</section>
      "#);
    let part = match &v.dais {
        Some(d) => {
            answer_dais(d, v.now)
        },
        None => {
            String::new()
        },
    };
    out.append(part.as_str());
    out.append(r#"
      "#);
    out.append(reply_steps(v).as_str());
    out.append(r#"
      "#);
    out.append(reading_controls(v).as_str());
    out.append(r#"
      "#);
    out.append(reply_form_block(&v.reply_form, v.shared.kind == ThreadKind::Question).as_str());
    out.append(r#"
    </div>
  </div>
</article>"#);
    out
}

/// A thread page.
pub open spec fn thread_html(assets: &ShellAssets, v: &ThreadView) -> Seq<char> {
    page_html(assets, &v.chrome, thread_main_html(v))
}

/// A thread page.
pub fn thread(assets: &ShellAssets, v: &ThreadView) -> (out: String)
    ensures
        out@ == thread_html(assets, v),
{
    page(assets, &v.chrome, thread_main(v).as_str())
}

/// Whether an optional value is the given one.
pub open spec fn is_selected(selected: Option<&Opaque>, value: Seq<char>) -> bool {
    match selected {
        Some(s) => s.0@ == value,
        None => false,
    }
}

pub(crate) fn selects(selected: Option<&Opaque>, value: &str) -> (r: bool)
    ensures
        r == is_selected(selected, value@),
{
    match selected {
        Some(s) => same(s.0.as_str(), value),
        None => false,
    }
}

/// The categories of the composer.
pub open spec fn compose_options_html(cats: Seq<CategoryVM>, selected: Option<&Opaque>) -> Seq<char>
    decreases cats.len(),
{
    if cats.len() == 0 {
        Seq::empty()
    } else {
        let item = cats.last();
        compose_options_html(cats.drop_last(), selected)
            + (r#"<option value=""#@ + escape_text(item.category.id.0@) + r#"""#@ + (if is_selected(selected, item.category.id.0@) {
            " selected"@
        } else {
            ""@
        }) + ">"@ + t_html(&item.category.name) + " · "@ + (match item.kind {
            ThreadKind::Question => {
                "Question"@
            },
            ThreadKind::Discussion => {
                "Discussion"@
            },
        }) + "</option>"@)
    }
}

/// The categories of the composer.
pub(crate) fn compose_options(cats: &Vec<CategoryVM>, selected: Option<&Opaque>) -> (out: String)
    ensures
        out@ == compose_options_html(cats@, selected),
{
    let mut out = String::new();
    let mut i: usize = 0;
    assert(out@ =~= compose_options_html(cats@.take(0), selected));
    while i < cats.len()
        invariant
            0 <= i <= cats@.len(),
            out@ == compose_options_html(cats@.take(i as int), selected),
        decreases cats@.len() - i,
    {
        assert(cats@.take(i + 1).drop_last() =~= cats@.take(i as int));
        let item = &cats[i];
        let part: String = {
            let mut out: String = r#"<option value=""#.to_owned();
            out.append(escape(item.category.id.0.as_str()).as_str());
            out.append(r#"""#);
            let part = if selects(selected, item.category.id.0.as_str()) {
                " selected"
            } else {
                ""
            };
            out.append(part);
            out.append(">");
            out.append(t(&item.category.name).as_str());
            out.append(" · ");
            let part = match item.kind {
                ThreadKind::Question => {
                    "Question"
                },
                ThreadKind::Discussion => {
                    "Discussion"
                },
            };
            out.append(part);
            out.append("</option>");
            out
        };
        out.append(part.as_str());
        i = i + 1;
    }
    assert(cats@.take(i as int) =~= cats@);
    out
}

/// The category field of the composer.
pub open spec fn category_select_html(cats: Seq<CategoryVM>, selected: Option<&Opaque>) -> Seq<char> {
    r#"<label class="ag-form__label" for="ag-compose-category">Category</label>
  <select id="ag-compose-category" name="category" required>"#@
        + compose_options_html(cats, selected) + "</select>"@
}

/// The category field of the composer.
pub(crate) fn category_select(cats: &Vec<CategoryVM>, selected: Option<&Opaque>) -> (out: String)
    ensures
        out@ == category_select_html(cats@, selected),
{
    let mut out: String = r#"<label class="ag-form__label" for="ag-compose-category">Category</label>
  <select id="ag-compose-category" name="category" required>"#.to_owned();
    out.append(compose_options(cats, selected).as_str());
    out.append("</select>");
    out
}

/// The main markup of the composer.
pub open spec fn compose_main_html(s: &ComposeShared, vs: &ComposeViewerState) -> Seq<char> {
    r#"<div class="ag-compose">
  "#@ + crumbs_html(seq![linked("Home"@, "/"@), here(s.heading.0@)]) + r#"
  <header class="pagehead"><div class="ag-head-tools__lead">"#@ + eyebrow_html("Compose"@)
        + r#"<h1 class="ag-head__title">"#@ + t_html(&s.heading) + r#"</h1></div></header>
  <form class="ag-form ag-composer" method="post" action=""#@ + o_html(&vs.submit.action) + r#"">"#@
        + hidden_inputs_html(vs.submit.csrf.0@, vs.submit.fields@) + (match vs.quoted_post_id {
        Some(q) => {
            r#"<input type="hidden" name="quote_post_id" value=""#@ + o_html(&q) + r#"">"#@
        },
        None => {
            Seq::<char>::empty()
        },
    }) + r#"
  "#@ + (match s.mode {
        ComposeMode::NewThread => {
            category_select_html(s.categories@, (match s.selected_category {
                Some(inner) => Some(&inner), None => None
            }))
        },
        ComposeMode::EditThread => {
            Seq::<char>::empty()
        },
        ComposeMode::EditReply => {
            Seq::<char>::empty()
        },
    }) + r#"
  "#@ + (if s.mode == ComposeMode::EditReply {
        Seq::<char>::empty()
    } else {
        r#"<label class="ag-form__label" for="ag-compose-title">Title</label>
  <input id="ag-compose-title" type="text" name="title" maxlength="200" value=""#@
            + t_html(&vs.title) + r#"" required>"#@
    }) + r#"
  <label class="ag-form__label" for="ag-compose-body">Body</label>
  <textarea id="ag-compose-body" name="body" rows="12" required>"#@ + t_html(&vs.body) + r#"</textarea>
  <p class="ag-md-hint muted">Markdown is supported. Drafts are not saved automatically.</p>
  "#@ + (if s.mode == ComposeMode::NewThread {
        r#"<aside class="ag-similar ag-key-shared" data-ag-similar data-candidate-bound="500" data-result-bound="3" data-threshold-bps="800" hidden aria-live="polite" aria-labelledby="ag-similar-title">
  <h2 class="eyebrow ag-eyebrow" id="ag-similar-title">Possible related discussions</h2>
  <p class="muted ag-desk__bound">Up to 3 heuristic matches from up to 500 recent thread digests, using an 8% similarity threshold. This is not duplicate proof.</p>
  <ol class="ag-similar__list" data-ag-similar-list></ol>
</aside>"#@
    } else {
        ""@
    }) + r#"
  <div class="form-actions">
    <button class="btn btn-primary" type="submit">"#@ + (match s.mode {
        ComposeMode::NewThread => {
            "Publish thread"@
        },
        ComposeMode::EditThread => {
            "Save thread"@
        },
        ComposeMode::EditReply => {
            "Save reply"@
        },
    }) + r#"</button>
    <a class="btn btn-secondary" href=""#@ + o_html(&vs.cancel_href) + r#"">Cancel</a>
  </div>
</form>
</div>"#@
}

/// The main markup of the composer.
pub(crate) fn compose_main(s: &ComposeShared, vs: &ComposeViewerState) -> (out: String)
    ensures
        out@ == compose_main_html(s, vs),
{
    let mut out: String = r#"<div class="ag-compose">
  "#.to_owned();
    out.append(crumbs(&trail2(link_crumb("Home", "/"), here_crumb(s.heading.0.as_str()))).as_str());
    out.append(r#"
  <header class="pagehead"><div class="ag-head-tools__lead">"#);
    out.append(eyebrow("Compose").as_str());
    out.append(r#"<h1 class="ag-head__title">"#);
    out.append(t(&s.heading).as_str());
    out.append(r#"</h1></div></header>
  <form class="ag-form ag-composer" method="post" action=""#);
    out.append(o(&vs.submit.action).as_str());
    out.append(r#"">"#);
    out.append(hidden_inputs(vs.submit.csrf.0.as_str(), &vs.submit.fields).as_str());
    let part = match &vs.quoted_post_id {
        Some(q) => {
            let mut out: String = r#"<input type="hidden" name="quote_post_id" value=""#.to_owned();
            out.append(o(q).as_str());
            out.append(r#"">"#);
            out
        },
        None => {
            String::new()
        },
    };
    out.append(part.as_str());
    out.append(r#"
  "#);
    let part = match s.mode {
        ComposeMode::NewThread => {
            category_select(&s.categories, s.selected_category.as_ref())
        },
        ComposeMode::EditThread => {
            String::new()
        },
        ComposeMode::EditReply => {
            String::new()
        },
    };
    out.append(part.as_str());
    out.append(r#"
  "#);
    let part = if s.mode == ComposeMode::EditReply {
        String::new()
    } else {
        let mut out: String = r#"<label class="ag-form__label" for="ag-compose-title">Title</label>
  <input id="ag-compose-title" type="text" name="title" maxlength="200" value=""#.to_owned();
        out.append(t(&vs.title).as_str());
        out.append(r#"" required>"#);
        out
    };
    out.append(part.as_str());
    out.append(r#"
  <label class="ag-form__label" for="ag-compose-body">Body</label>
  <textarea id="ag-compose-body" name="body" rows="12" required>"#);
    out.append(t(&vs.body).as_str());
    out.append(r#"</textarea>
  <p class="ag-md-hint muted">Markdown is supported. Drafts are not saved automatically.</p>
  "#);
    let part = if s.mode == ComposeMode::NewThread {
        r#"<aside class="ag-similar ag-key-shared" data-ag-similar data-candidate-bound="500" data-result-bound="3" data-threshold-bps="800" hidden aria-live="polite" aria-labelledby="ag-similar-title">
  <h2 class="eyebrow ag-eyebrow" id="ag-similar-title">Possible related discussions</h2>
  <p class="muted ag-desk__bound">Up to 3 heuristic matches from up to 500 recent thread digests, using an 8% similarity threshold. This is not duplicate proof.</p>
  <ol class="ag-similar__list" data-ag-similar-list></ol>
</aside>"#
    } else {
        ""
    };
    out.append(part);
    out.append(r#"
  <div class="form-actions">
    <button class="btn btn-primary" type="submit">"#);
    let part = match s.mode {
        ComposeMode::NewThread => {
            "Publish thread"
        },
        ComposeMode::EditThread => {
            "Save thread"
        },
        ComposeMode::EditReply => {
            "Save reply"
        },
    };
    out.append(part);
    out.append(r#"</button>
    <a class="btn btn-secondary" href=""#);
    out.append(o(&vs.cancel_href).as_str());
    out.append(r#"">Cancel</a>
  </div>
</form>
</div>"#);
    out
}

/// The composer.
pub open spec fn compose_html(assets: &ShellAssets, v: &ComposeView) -> Seq<char> {
    page_html(assets, &v.chrome, compose_main_html(&v.shared, &v.viewer))
}

/// The composer.
pub fn compose(assets: &ShellAssets, v: &ComposeView) -> (out: String)
    ensures
        out@ == compose_html(assets, v),
{
    page(assets, &v.chrome, compose_main(&v.shared, &v.viewer).as_str())
}

} // verus!
