//! The subject-private pages: catch-up, focus, activity, and bookmarks.

use vstd::prelude::*;
use vstd::string::StringExecFns;

use crate::text::{blank_text, decimal, decimal_len, decimal_text, escape, escape_text, is_blank};
use crate::view_model::{
    ActivityFilterLinkVM, ActivityFilterVM, ActivityItemVM, ActivityKindVM,
    ActivityReadScopeLinkVM, ActivityReadScopeVM, ActivityReasonVM, ActivityShared, ActivityView,
    BookmarkEditView, BookmarkItemVM, BookmarkItemViewerState, BookmarkReminderChoiceVM,
    BookmarkStateVM, BookmarksView, CatchUpFeedShared, CatchUpFeedVM, CatchUpItemVM,
    CatchUpItemViewerState, CatchUpQuestionStateVM, CatchUpReasonVM, CatchUpTab,
    CategoryFocusLevelVM, CategoryFocusReasonVM, FocusItemVM, FocusRuleVM, FocusShared, FocusView,
    Text, ThreadRowShared,
};
use crate::views::{
    action_class, action_class_text, action_label, action_label_text, crumbs, crumbs_html,
    empty_note, empty_note_html, eyebrow, eyebrow_html, fmt_ts, fmt_ts_text, follow_marker,
    follow_marker_html, form_action, form_action_html, form_action_opt, form_action_opt_html, here,
    here_crumb, hidden_inputs, hidden_inputs_html, link_action, link_action_html, link_crumb,
    linked, monogram, monogram_html, o, o_html, pagination, pagination_html, private_marker,
    private_marker_html, shared_chips, shared_chips_html, t, t_html, thread_href, thread_href_text,
    time_el, time_el_html, trail3, unread_label, unread_label_text,
};
use crate::views::forum::{
    focus_level_label, focus_level_label_text, focus_level_options, focus_level_options_html,
};
use crate::views::shell::{ShellAssets, page, page_html};

verus! {

/// One tab of a ledger: a relative query link.
pub open spec fn ledger_tab_html(param: Seq<char>, value: Seq<char>, label: Seq<char>, active: bool) -> Seq<char> {
    r#"<a class="tab"#@ + (if active {
        " is-active"@
    } else {
        ""@
    }) + r#"""#@ + (if active {
        r#" aria-current="page""#@
    } else {
        ""@
    }) + r#" href="?"#@ + param + "="@ + value + r#"">"#@ + escape_text(label) + "</a>"@
}

/// One tab of a ledger: a relative query link.
pub(crate) fn ledger_tab(param: &str, value: &str, label: &str, active: bool) -> (out: String)
    ensures
        out@ == ledger_tab_html(param@, value@, label@, active),
{
    let mut out: String = r#"<a class="tab"#.to_owned();
    let part = if active {
        " is-active"
    } else {
        ""
    };
    out.append(part);
    out.append(r#"""#);
    let part = if active {
        r#" aria-current="page""#
    } else {
        ""
    };
    out.append(part);
    out.append(r#" href="?"#);
    out.append(param);
    out.append("=");
    out.append(value);
    out.append(r#"">"#);
    out.append(escape(label).as_str());
    out.append("</a>");
    out
}

/// The tab row of a ledger.
pub open spec fn ledger_tabs_html(aria: Seq<char>, tabs: Seq<char>) -> Seq<char> {
    r#"<nav class="tabs ag-ledger-tabs" aria-label=""#@ + escape_text(aria) + r#"">"#@ + tabs
        + "</nav>"@
}

/// The tab row of a ledger.
pub(crate) fn ledger_tabs(aria: &str, tabs: &str) -> (out: String)
    ensures
        out@ == ledger_tabs_html(aria@, tabs@),
{
    let mut out: String = r#"<nav class="tabs ag-ledger-tabs" aria-label=""#.to_owned();
    out.append(escape(aria).as_str());
    out.append(r#"">"#);
    out.append(tabs);
    out.append("</nav>");
    out
}

/// The head of a ledger: title, owner note, and snapshot or bound.
pub open spec fn ledger_head_html(title: Seq<char>, owner_note: Seq<char>, meta: Seq<char>) -> Seq<char> {
    r#"<header class="pagehead ag-ledger-head ag-key-private">
  <div class="ag-head-tools__lead">
    "#@ + eyebrow_html("Civic Ledger"@) + r#"
    <h1 class="ag-head__title">"#@ + escape_text(title) + r#"</h1>
    <p class="ag-ledger-owner muted">"#@ + escape_text(owner_note) + r#"</p>
    <p class="ag-ledger-meta muted">"#@ + escape_text(meta) + r#"</p>
  </div>
</header>"#@
}

/// The head of a ledger: title, owner note, and snapshot or bound.
pub(crate) fn ledger_head(title: &str, owner_note: &str, meta: &str) -> (out: String)
    ensures
        out@ == ledger_head_html(title@, owner_note@, meta@),
{
    let mut out: String = r#"<header class="pagehead ag-ledger-head ag-key-private">
  <div class="ag-head-tools__lead">
    "#.to_owned();
    out.append(eyebrow("Civic Ledger").as_str());
    out.append(r#"
    <h1 class="ag-head__title">"#);
    out.append(escape(title).as_str());
    out.append(r#"</h1>
    <p class="ag-ledger-owner muted">"#);
    out.append(escape(owner_note).as_str());
    out.append(r#"</p>
    <p class="ag-ledger-meta muted">"#);
    out.append(escape(meta).as_str());
    out.append(r#"</p>
  </div>
</header>"#);
    out
}

/// Why a catch-up row exists, in words.
pub open spec fn catch_up_reason_text(reason: CatchUpReasonVM) -> Seq<char> {
    (match reason {
        CatchUpReasonVM::Watch => {
            "You are watching this thread"@
        },
        CatchUpReasonVM::Follow => {
            "You follow this thread"@
        },
        CatchUpReasonVM::Authored => {
            "You started this thread"@
        },
        CatchUpReasonVM::Bookmarked => {
            "You bookmarked this thread"@
        },
        CatchUpReasonVM::Participated => {
            "You replied in this thread"@
        },
        CatchUpReasonVM::ContinueReading => {
            "Continue where you left off"@
        },
    })
}

/// Why a catch-up row exists, in words.
pub(crate) fn catch_up_reason(reason: CatchUpReasonVM) -> (out: &'static str)
    ensures
        out@ == catch_up_reason_text(reason),
{
    match reason {
        CatchUpReasonVM::Watch => {
            "You are watching this thread"
        },
        CatchUpReasonVM::Follow => {
            "You follow this thread"
        },
        CatchUpReasonVM::Authored => {
            "You started this thread"
        },
        CatchUpReasonVM::Bookmarked => {
            "You bookmarked this thread"
        },
        CatchUpReasonVM::Participated => {
            "You replied in this thread"
        },
        CatchUpReasonVM::ContinueReading => {
            "Continue where you left off"
        },
    }
}

/// The question state of a catch-up row, in words.
pub open spec fn question_state_label_text(state: CatchUpQuestionStateVM) -> Seq<char> {
    (match state {
        CatchUpQuestionStateVM::Waiting => {
            "Waiting for an answer"@
        },
        CatchUpQuestionStateVM::Solved => {
            "Accepted answer recorded"@
        },
    })
}

/// The question state of a catch-up row, in words.
pub(crate) fn question_state_label(state: CatchUpQuestionStateVM) -> (out: &'static str)
    ensures
        out@ == question_state_label_text(state),
{
    match state {
        CatchUpQuestionStateVM::Waiting => {
            "Waiting for an answer"
        },
        CatchUpQuestionStateVM::Solved => {
            "Accepted answer recorded"
        },
    }
}

/// The private marks of a catch-up row.
pub open spec fn catch_up_marks_html(vr: &CatchUpItemViewerState) -> Seq<char> {
    private_marker_html("reason"@, catch_up_reason_text(vr.reason))
        + follow_marker_html(vr.follow_level) + (if vr.unread_count > 0 {
        private_marker_html("unread"@, unread_label_text(vr.unread_count))
    } else {
        Seq::<char>::empty()
    }) + (match vr.question_state {
        Some(qs) => {
            private_marker_html("question"@, question_state_label_text(qs))
        },
        None => {
            Seq::<char>::empty()
        },
    })
}

/// The private marks of a catch-up row.
pub(crate) fn catch_up_marks(vr: &CatchUpItemViewerState) -> (out: String)
    ensures
        out@ == catch_up_marks_html(vr),
{
    let mut out: String = private_marker("reason", catch_up_reason(vr.reason));
    out.append(follow_marker(vr.follow_level).as_str());
    let part = if vr.unread_count > 0 {
        private_marker("unread", unread_label(vr.unread_count).as_str())
    } else {
        String::new()
    };
    out.append(part.as_str());
    let part = match vr.question_state {
        Some(qs) => {
            private_marker("question", question_state_label(qs))
        },
        None => {
            String::new()
        },
    };
    out.append(part.as_str());
    out
}

/// Who started a thread and when it was last active.
pub open spec fn row_byline_html(s: &ThreadRowShared, now: i64) -> Seq<char> {
    monogram_html(s.author_display.0@) + r#" <span class="ag-row__author">"#@
        + t_html(&s.author_display) + "</span> · latest "@ + time_el_html(s.last_at, now)
}

/// Who started a thread and when it was last active.
pub(crate) fn row_byline(s: &ThreadRowShared, now: i64) -> (out: String)
    ensures
        out@ == row_byline_html(s, now),
{
    let mut out: String = monogram(s.author_display.0.as_str());
    out.append(r#" <span class="ag-row__author">"#);
    out.append(t(&s.author_display).as_str());
    out.append("</span> · latest ");
    out.append(time_el(s.last_at, now).as_str());
    out
}

/// One row of the catch-up.
pub open spec fn catch_up_item_html(it: &CatchUpItemVM, now: i64) -> Seq<char> {
    r#"<li class="ag-ledger-item ag-key-shared">
  <div class="ag-row__chips">"#@ + shared_chips_html(it.shared.kind, it.shared.answer_state)
        + r#"</div>
  <a class="ag-row__title" href=""#@ + escape_text(thread_href_text(&it.shared.id)) + r#"">"#@
        + t_html(&it.shared.title) + r#"</a>
  <p class="ag-row__by">"#@ + row_byline_html(&it.shared, now) + r#"</p>
  <p class="ag-ledger-item__mine ag-key-private">"#@ + catch_up_marks_html(&it.viewer)
        + (match it.viewer.first_unread_href {
        Some(h) => {
            r#"<a class="ag-mark ag-key-private ag-mark--resume" href=""#@ + o_html(&h)
                + r#"">Jump to first unread</a>"#@
        },
        None => {
            Seq::<char>::empty()
        },
    }) + r#"</p>
</li>"#@
}

/// One row of the catch-up.
pub(crate) fn catch_up_item(it: &CatchUpItemVM, now: i64) -> (out: String)
    ensures
        out@ == catch_up_item_html(it, now),
{
    let mut out: String = r#"<li class="ag-ledger-item ag-key-shared">
  <div class="ag-row__chips">"#.to_owned();
    out.append(shared_chips(it.shared.kind, it.shared.answer_state).as_str());
    out.append(r#"</div>
  <a class="ag-row__title" href=""#);
    out.append(escape(thread_href(&it.shared.id).as_str()).as_str());
    out.append(r#"">"#);
    out.append(t(&it.shared.title).as_str());
    out.append(r#"</a>
  <p class="ag-row__by">"#);
    out.append(row_byline(&it.shared, now).as_str());
    out.append(r#"</p>
  <p class="ag-ledger-item__mine ag-key-private">"#);
    out.append(catch_up_marks(&it.viewer).as_str());
    let part = match &it.viewer.first_unread_href {
        Some(h) => {
            let mut out: String = r#"<a class="ag-mark ag-key-private ag-mark--resume" href=""#.to_owned();
            out.append(o(h).as_str());
            out.append(r#"">Jump to first unread</a>"#);
            out
        },
        None => {
            String::new()
        },
    };
    out.append(part.as_str());
    out.append(r#"</p>
</li>"#);
    out
}

/// The rows of the catch-up.
pub open spec fn catch_up_items_html(items: Seq<CatchUpItemVM>, now: i64) -> Seq<char>
    decreases items.len(),
{
    if items.len() == 0 {
        Seq::empty()
    } else {
        let item = items.last();
        catch_up_items_html(items.drop_last(), now) + (catch_up_item_html(&item, now))
    }
}

/// The rows of the catch-up.
pub(crate) fn catch_up_items(items: &Vec<CatchUpItemVM>, now: i64) -> (out: String)
    ensures
        out@ == catch_up_items_html(items@, now),
{
    let mut out = String::new();
    let mut i: usize = 0;
    assert(out@ =~= catch_up_items_html(items@.take(0), now));
    while i < items.len()
        invariant
            0 <= i <= items@.len(),
            out@ == catch_up_items_html(items@.take(i as int), now),
        decreases items@.len() - i,
    {
        assert(items@.take(i + 1).drop_last() =~= items@.take(i as int));
        let item = &items[i];
        let part: String = catch_up_item(item, now);
        out.append(part.as_str());
        i = i + 1;
    }
    assert(items@.take(i as int) =~= items@);
    out
}

/// The tabs of the catch-up.
pub open spec fn catch_up_tabs_html(active: CatchUpTab) -> Seq<char> {
    ledger_tab_html("view"@, "updates"@, "Updates"@, active == CatchUpTab::Updates)
        + ledger_tab_html("view"@, "following"@, "Following"@, active == CatchUpTab::Following)
        + ledger_tab_html("view"@, "questions"@, "Questions"@, active == CatchUpTab::Questions)
}

/// The tabs of the catch-up.
pub(crate) fn catch_up_tabs(active: CatchUpTab) -> (out: String)
    ensures
        out@ == catch_up_tabs_html(active),
{
    let mut out: String = ledger_tab("view", "updates", "Updates", active == CatchUpTab::Updates);
    out.append(ledger_tab("view", "following", "Following", active == CatchUpTab::Following).as_str());
    out.append(ledger_tab("view", "questions", "Questions", active == CatchUpTab::Questions).as_str());
    out
}

/// The snapshot and bound of the catch-up.
pub open spec fn catch_up_meta_text(s: &CatchUpFeedShared) -> Seq<char> {
    "As of "@ + fmt_ts_text(s.snapshot_as_of) + " · page bound "@
        + decimal_text(s.visible_bound as int) + " · a private snapshot, not a global feed"@
}

/// The snapshot and bound of the catch-up.
pub(crate) fn catch_up_meta(s: &CatchUpFeedShared) -> (out: String)
    ensures
        out@ == catch_up_meta_text(s),
{
    let mut out: String = "As of ".to_owned();
    out.append(fmt_ts(s.snapshot_as_of).as_str());
    out.append(" · page bound ");
    out.append(decimal(s.visible_bound).as_str());
    out.append(" · a private snapshot, not a global feed");
    out
}

/// The main markup of the catch-up.
pub open spec fn catch_up_main_html(v: &CatchUpFeedVM) -> Seq<char> {
    r#"<div class="ag-ledger ag-for-you">"#@
        + ledger_head_html("For You"@, "Only you can see this. It explains why each thread appears."@, catch_up_meta_text(&v.shared))
        + ledger_tabs_html("Catch-up view"@, catch_up_tabs_html(v.shared.active))
        + (if v.viewer.items.len() == 0 {
        empty_note_html(v.shared.state, "You're all caught up. Nothing new in this view."@)
    } else {
        r#"<ul class="ag-ledger-list">"#@ + catch_up_items_html(v.viewer.items@, v.shared.now)
            + "</ul>"@ + pagination_html(&v.viewer.pagination)
    }) + "</div>"@
}

/// The main markup of the catch-up.
pub(crate) fn catch_up_main(v: &CatchUpFeedVM) -> (out: String)
    ensures
        out@ == catch_up_main_html(v),
{
    let mut out: String = r#"<div class="ag-ledger ag-for-you">"#.to_owned();
    out.append(ledger_head("For You", "Only you can see this. It explains why each thread appears.", catch_up_meta(&v.shared).as_str()).as_str());
    out.append(ledger_tabs("Catch-up view", catch_up_tabs(v.shared.active).as_str()).as_str());
    let part = if v.viewer.items.len() == 0 {
        empty_note(v.shared.state, "You're all caught up. Nothing new in this view.")
    } else {
        let mut out: String = r#"<ul class="ag-ledger-list">"#.to_owned();
        out.append(catch_up_items(&v.viewer.items, v.shared.now).as_str());
        out.append("</ul>");
        out.append(pagination(&v.viewer.pagination).as_str());
        out
    };
    out.append(part.as_str());
    out.append("</div>");
    out
}

/// The private catch-up.
pub open spec fn catch_up_html(assets: &ShellAssets, v: &CatchUpFeedVM) -> Seq<char> {
    page_html(assets, &v.chrome, catch_up_main_html(v))
}

/// The private catch-up.
pub fn catch_up(assets: &ShellAssets, v: &CatchUpFeedVM) -> (out: String)
    ensures
        out@ == catch_up_html(assets, v),
{
    page(assets, &v.chrome, catch_up_main(v).as_str())
}

/// Why a focused thread is visible, in words.
pub open spec fn focus_reason_text(reason: CategoryFocusReasonVM) -> Seq<char> {
    (match reason {
        CategoryFocusReasonVM::CategoryPriority => {
            "Shown by category priority"@
        },
        CategoryFocusReasonVM::CategoryFollow => {
            "Shown by category follow"@
        },
        CategoryFocusReasonVM::ThreadWatchOverride => {
            "Your thread watch overrides the category"@
        },
        CategoryFocusReasonVM::ThreadFollowOverride => {
            "Your thread follow overrides the category"@
        },
    })
}

/// Why a focused thread is visible, in words.
pub(crate) fn focus_reason(reason: CategoryFocusReasonVM) -> (out: &'static str)
    ensures
        out@ == focus_reason_text(reason),
{
    match reason {
        CategoryFocusReasonVM::CategoryPriority => {
            "Shown by category priority"
        },
        CategoryFocusReasonVM::CategoryFollow => {
            "Shown by category follow"
        },
        CategoryFocusReasonVM::ThreadWatchOverride => {
            "Your thread watch overrides the category"
        },
        CategoryFocusReasonVM::ThreadFollowOverride => {
            "Your thread follow overrides the category"
        },
    }
}

/// One focus rule with its form.
pub open spec fn focus_rule_html(r: &FocusRuleVM) -> Seq<char> {
    r#"<li class="ag-focus-rule ag-key-private"><span class="ag-focus-rule__cat">"#@
        + t_html(&r.category.category.name) + "</span>"@
        + private_marker_html("focus"@, focus_level_label_text(r.level))
        + r#"<form class="ag-form ag-focus-rule__form" method="post" action=""#@
        + o_html(&r.submit.action) + r#"">"#@
        + hidden_inputs_html(r.submit.csrf.0@, r.submit.fields@)
        + r#"<select name="level" aria-label="Focus rule for "#@ + t_html(&r.category.category.name)
        + r#"">"#@ + focus_level_options_html(r.level) + r#"</select><button class=""#@
        + action_class_text(r.submit.label_kind) + r#"" type="submit">"#@
        + action_label_text(r.submit.label_kind) + "</button></form></li>"@
}

/// One focus rule with its form.
pub(crate) fn focus_rule(r: &FocusRuleVM) -> (out: String)
    ensures
        out@ == focus_rule_html(r),
{
    let mut out: String = r#"<li class="ag-focus-rule ag-key-private"><span class="ag-focus-rule__cat">"#.to_owned();
    out.append(t(&r.category.category.name).as_str());
    out.append("</span>");
    out.append(private_marker("focus", focus_level_label(r.level)).as_str());
    out.append(r#"<form class="ag-form ag-focus-rule__form" method="post" action=""#);
    out.append(o(&r.submit.action).as_str());
    out.append(r#"">"#);
    out.append(hidden_inputs(r.submit.csrf.0.as_str(), &r.submit.fields).as_str());
    out.append(r#"<select name="level" aria-label="Focus rule for "#);
    out.append(t(&r.category.category.name).as_str());
    out.append(r#"">"#);
    out.append(focus_level_options(r.level).as_str());
    out.append(r#"</select><button class=""#);
    out.append(action_class(r.submit.label_kind));
    out.append(r#"" type="submit">"#);
    out.append(action_label(r.submit.label_kind));
    out.append("</button></form></li>");
    out
}

/// The focus rules.
pub open spec fn focus_rules_html(rules: Seq<FocusRuleVM>) -> Seq<char>
    decreases rules.len(),
{
    if rules.len() == 0 {
        Seq::empty()
    } else {
        let item = rules.last();
        focus_rules_html(rules.drop_last()) + (focus_rule_html(&item))
    }
}

/// The focus rules.
pub(crate) fn focus_rules(rules: &Vec<FocusRuleVM>) -> (out: String)
    ensures
        out@ == focus_rules_html(rules@),
{
    let mut out = String::new();
    let mut i: usize = 0;
    assert(out@ =~= focus_rules_html(rules@.take(0)));
    while i < rules.len()
        invariant
            0 <= i <= rules@.len(),
            out@ == focus_rules_html(rules@.take(i as int)),
        decreases rules@.len() - i,
    {
        assert(rules@.take(i + 1).drop_last() =~= rules@.take(i as int));
        let item = &rules[i];
        let part: String = focus_rule(item);
        out.append(part.as_str());
        i = i + 1;
    }
    assert(rules@.take(i as int) =~= rules@);
    out
}

/// How much is new since the resume point.
pub open spec fn continue_label_text(unread: i64) -> Seq<char> {
    "Continue · "@ + decimal_text(unread as int) + " new"@
}

/// How much is new since the resume point.
pub(crate) fn continue_label(unread: i64) -> (out: String)
    ensures
        out@ == continue_label_text(unread),
{
    let mut out: String = "Continue · ".to_owned();
    out.append(decimal(unread).as_str());
    out.append(" new");
    out
}

/// The private marks of a focused thread.
pub open spec fn focus_marks_html(it: &FocusItemVM) -> Seq<char> {
    private_marker_html("reason"@, focus_reason_text(it.reason))
        + (if it.category_level != CategoryFocusLevelVM::Unset {
        private_marker_html("focus"@, focus_level_label_text(it.category_level))
    } else {
        Seq::<char>::empty()
    }) + follow_marker_html(it.thread_level) + (match (it.viewer.unread_count, it.viewer.resume_href) {
        (Some(unread), Some(_)) => {
            (if unread > 0 {
                private_marker_html("unread"@, continue_label_text(unread))
            } else {
                Seq::<char>::empty()
            })
        },
        _ => {
            Seq::<char>::empty()
        },
    })
}

/// The private marks of a focused thread.
pub(crate) fn focus_marks(it: &FocusItemVM) -> (out: String)
    ensures
        out@ == focus_marks_html(it),
{
    let mut out: String = private_marker("reason", focus_reason(it.reason));
    let part = if it.category_level != CategoryFocusLevelVM::Unset {
        private_marker("focus", focus_level_label(it.category_level))
    } else {
        String::new()
    };
    out.append(part.as_str());
    out.append(follow_marker(it.thread_level).as_str());
    let part = match (it.viewer.unread_count, &it.viewer.resume_href) {
        (Some(unread), Some(_)) => {
            if unread > 0 {
                private_marker("unread", continue_label(unread).as_str())
            } else {
                String::new()
            }
        },
        _ => {
            String::new()
        },
    };
    out.append(part.as_str());
    out
}

/// One focused thread.
pub open spec fn focus_item_html(it: &FocusItemVM, now: i64) -> Seq<char> {
    r#"<li class="ag-ledger-item ag-key-shared">
  <div class="ag-row__chips">"#@ + shared_chips_html(it.shared.kind, it.shared.answer_state)
        + r#"</div>
  <a class="ag-row__title" href=""#@ + (match it.viewer.resume_href {
        Some(h) => {
            o_html(&h)
        },
        None => {
            escape_text(thread_href_text(&it.shared.id))
        },
    }) + r#"">"#@ + t_html(&it.shared.title) + r#"</a>
  <p class="ag-row__by">"#@ + row_byline_html(&it.shared, now) + r#"</p>
  <p class="ag-ledger-item__mine ag-key-private">"#@ + focus_marks_html(it) + r#"</p>
</li>"#@
}

/// One focused thread.
pub(crate) fn focus_item(it: &FocusItemVM, now: i64) -> (out: String)
    ensures
        out@ == focus_item_html(it, now),
{
    let mut out: String = r#"<li class="ag-ledger-item ag-key-shared">
  <div class="ag-row__chips">"#.to_owned();
    out.append(shared_chips(it.shared.kind, it.shared.answer_state).as_str());
    out.append(r#"</div>
  <a class="ag-row__title" href=""#);
    let part = match &it.viewer.resume_href {
        Some(h) => {
            o(h)
        },
        None => {
            escape(thread_href(&it.shared.id).as_str())
        },
    };
    out.append(part.as_str());
    out.append(r#"">"#);
    out.append(t(&it.shared.title).as_str());
    out.append(r#"</a>
  <p class="ag-row__by">"#);
    out.append(row_byline(&it.shared, now).as_str());
    out.append(r#"</p>
  <p class="ag-ledger-item__mine ag-key-private">"#);
    out.append(focus_marks(it).as_str());
    out.append(r#"</p>
</li>"#);
    out
}

/// The focused threads.
pub open spec fn focus_items_html(items: Seq<FocusItemVM>, now: i64) -> Seq<char>
    decreases items.len(),
{
    if items.len() == 0 {
        Seq::empty()
    } else {
        let item = items.last();
        focus_items_html(items.drop_last(), now) + (focus_item_html(&item, now))
    }
}

/// The focused threads.
pub(crate) fn focus_items(items: &Vec<FocusItemVM>, now: i64) -> (out: String)
    ensures
        out@ == focus_items_html(items@, now),
{
    let mut out = String::new();
    let mut i: usize = 0;
    assert(out@ =~= focus_items_html(items@.take(0), now));
    while i < items.len()
        invariant
            0 <= i <= items@.len(),
            out@ == focus_items_html(items@.take(i as int), now),
        decreases items@.len() - i,
    {
        assert(items@.take(i + 1).drop_last() =~= items@.take(i as int));
        let item = &items[i];
        let part: String = focus_item(item, now);
        out.append(part.as_str());
        i = i + 1;
    }
    assert(items@.take(i as int) =~= items@);
    out
}

/// The bounds of the focus view.
pub open spec fn focus_meta_text(s: &FocusShared) -> Seq<char> {
    "Up to "@ + decimal_text(s.rule_bound as int) + " rules · up to "@
        + decimal_text(s.visible_thread_bound as int) + " threads shown · private to you"@
}

/// The bounds of the focus view.
pub(crate) fn focus_meta(s: &FocusShared) -> (out: String)
    ensures
        out@ == focus_meta_text(s),
{
    let mut out: String = "Up to ".to_owned();
    out.append(decimal(s.rule_bound).as_str());
    out.append(" rules · up to ");
    out.append(decimal(s.visible_thread_bound).as_str());
    out.append(" threads shown · private to you");
    out
}

/// The main markup of the focus view.
pub open spec fn focus_main_html(v: &FocusView) -> Seq<char> {
    r#"<div class="ag-ledger ag-focus">"#@
        + ledger_head_html("Focus"@, "Only you can see these rules. Focus changes your view, never the shared category."@, focus_meta_text(&v.shared))
        + r#"
  <section class="ag-focus-rules ag-key-private" aria-labelledby="ag-focus-rules-title">
    <h2 class="eyebrow ag-eyebrow" id="ag-focus-rules-title">Your rules</h2>
    "#@ + (if v.viewer.rules.len() == 0 {
        r#"<p class="muted">No category focus rules yet.</p>"#@
    } else {
        r#"<ul class="ag-focus-rule-list">"#@ + focus_rules_html(v.viewer.rules@) + "</ul>"@
    }) + r#"
  </section>
  <section class="ag-focus-threads" aria-labelledby="ag-focus-threads-title"><h2 class="eyebrow ag-eyebrow" id="ag-focus-threads-title">What your focus surfaces</h2>"#@ + (if v.viewer.items.len() == 0 {
        empty_note_html(v.shared.state, "No focused threads right now."@)
    } else {
        r#"<ul class="ag-ledger-list">"#@ + focus_items_html(v.viewer.items@, v.shared.now)
            + "</ul>"@
    }) + r#"</section>
</div>"#@
}

/// The main markup of the focus view.
pub(crate) fn focus_main(v: &FocusView) -> (out: String)
    ensures
        out@ == focus_main_html(v),
{
    let mut out: String = r#"<div class="ag-ledger ag-focus">"#.to_owned();
    out.append(ledger_head("Focus", "Only you can see these rules. Focus changes your view, never the shared category.", focus_meta(&v.shared).as_str()).as_str());
    out.append(r#"
  <section class="ag-focus-rules ag-key-private" aria-labelledby="ag-focus-rules-title">
    <h2 class="eyebrow ag-eyebrow" id="ag-focus-rules-title">Your rules</h2>
    "#);
    let part = if v.viewer.rules.len() == 0 {
        r#"<p class="muted">No category focus rules yet.</p>"#.to_owned()
    } else {
        let mut out: String = r#"<ul class="ag-focus-rule-list">"#.to_owned();
        out.append(focus_rules(&v.viewer.rules).as_str());
        out.append("</ul>");
        out
    };
    out.append(part.as_str());
    out.append(r#"
  </section>
  <section class="ag-focus-threads" aria-labelledby="ag-focus-threads-title"><h2 class="eyebrow ag-eyebrow" id="ag-focus-threads-title">What your focus surfaces</h2>"#);
    let part = if v.viewer.items.len() == 0 {
        empty_note(v.shared.state, "No focused threads right now.")
    } else {
        let mut out: String = r#"<ul class="ag-ledger-list">"#.to_owned();
        out.append(focus_items(&v.viewer.items, v.shared.now).as_str());
        out.append("</ul>");
        out
    };
    out.append(part.as_str());
    out.append(r#"</section>
</div>"#);
    out
}

/// The private focus view.
pub open spec fn focus_html(assets: &ShellAssets, v: &FocusView) -> Seq<char> {
    page_html(assets, &v.chrome, focus_main_html(v))
}

/// The private focus view.
pub fn focus(assets: &ShellAssets, v: &FocusView) -> (out: String)
    ensures
        out@ == focus_html(assets, v),
{
    page(assets, &v.chrome, focus_main(v).as_str())
}

/// The read-state tabs of the activity.
pub open spec fn activity_scope_tabs_html(links: Seq<ActivityReadScopeLinkVM>, active: ActivityReadScopeVM) -> Seq<char>
    decreases links.len(),
{
    if links.len() == 0 {
        Seq::empty()
    } else {
        let item = links.last();
        activity_scope_tabs_html(links.drop_last(), active)
            + (r#"<a class="tab"#@ + (if item.scope == active {
            " is-active"@
        } else {
            ""@
        }) + r#"""#@ + (if item.scope == active {
            r#" aria-current="page""#@
        } else {
            ""@
        }) + r#" href=""#@ + o_html(&item.link.href) + r#"">"#@ + t_html(&item.link.label) + "</a>"@)
    }
}

/// The read-state tabs of the activity.
pub(crate) fn activity_scope_tabs(links: &Vec<ActivityReadScopeLinkVM>, active: ActivityReadScopeVM) -> (out: String)
    ensures
        out@ == activity_scope_tabs_html(links@, active),
{
    let mut out = String::new();
    let mut i: usize = 0;
    assert(out@ =~= activity_scope_tabs_html(links@.take(0), active));
    while i < links.len()
        invariant
            0 <= i <= links@.len(),
            out@ == activity_scope_tabs_html(links@.take(i as int), active),
        decreases links@.len() - i,
    {
        assert(links@.take(i + 1).drop_last() =~= links@.take(i as int));
        let item = &links[i];
        let part: String = {
            let mut out: String = r#"<a class="tab"#.to_owned();
            let part = if item.scope == active {
                " is-active"
            } else {
                ""
            };
            out.append(part);
            out.append(r#"""#);
            let part = if item.scope == active {
                r#" aria-current="page""#
            } else {
                ""
            };
            out.append(part);
            out.append(r#" href=""#);
            out.append(o(&item.link.href).as_str());
            out.append(r#"">"#);
            out.append(t(&item.link.label).as_str());
            out.append("</a>");
            out
        };
        out.append(part.as_str());
        i = i + 1;
    }
    assert(links@.take(i as int) =~= links@);
    out
}

/// The reason tabs of the activity.
pub open spec fn activity_filter_tabs_html(links: Seq<ActivityFilterLinkVM>, active: ActivityFilterVM) -> Seq<char>
    decreases links.len(),
{
    if links.len() == 0 {
        Seq::empty()
    } else {
        let item = links.last();
        activity_filter_tabs_html(links.drop_last(), active)
            + (r#"<a class="tab"#@ + (if item.filter == active {
            " is-active"@
        } else {
            ""@
        }) + r#"""#@ + (if item.filter == active {
            r#" aria-current="page""#@
        } else {
            ""@
        }) + r#" href=""#@ + o_html(&item.link.href) + r#"">"#@ + t_html(&item.link.label) + "</a>"@)
    }
}

/// The reason tabs of the activity.
pub(crate) fn activity_filter_tabs(links: &Vec<ActivityFilterLinkVM>, active: ActivityFilterVM) -> (out: String)
    ensures
        out@ == activity_filter_tabs_html(links@, active),
{
    let mut out = String::new();
    let mut i: usize = 0;
    assert(out@ =~= activity_filter_tabs_html(links@.take(0), active));
    while i < links.len()
        invariant
            0 <= i <= links@.len(),
            out@ == activity_filter_tabs_html(links@.take(i as int), active),
        decreases links@.len() - i,
    {
        assert(links@.take(i + 1).drop_last() =~= links@.take(i as int));
        let item = &links[i];
        let part: String = {
            let mut out: String = r#"<a class="tab"#.to_owned();
            let part = if item.filter == active {
                " is-active"
            } else {
                ""
            };
            out.append(part);
            out.append(r#"""#);
            let part = if item.filter == active {
                r#" aria-current="page""#
            } else {
                ""
            };
            out.append(part);
            out.append(r#" href=""#);
            out.append(o(&item.link.href).as_str());
            out.append(r#"">"#);
            out.append(t(&item.link.label).as_str());
            out.append("</a>");
            out
        };
        out.append(part.as_str());
        i = i + 1;
    }
    assert(links@.take(i as int) =~= links@);
    out
}

/// The tabs of the activity.
pub open spec fn activity_tabs_html(s: &ActivityShared) -> Seq<char> {
    r#"<div class="ag-activity-tabs"><nav class="tabs" aria-label="Activity state">"#@
        + activity_scope_tabs_html(s.read_scope_links@, s.read_scope)
        + r#"</nav><nav class="tabs ag-activity-reasons" aria-label="Activity reason">"#@
        + activity_filter_tabs_html(s.filter_links@, s.active_filter) + "</nav></div>"@
}

/// The tabs of the activity.
pub(crate) fn activity_tabs(s: &ActivityShared) -> (out: String)
    ensures
        out@ == activity_tabs_html(s),
{
    let mut out: String = r#"<div class="ag-activity-tabs"><nav class="tabs" aria-label="Activity state">"#.to_owned();
    out.append(activity_scope_tabs(&s.read_scope_links, s.read_scope).as_str());
    out.append(r#"</nav><nav class="tabs ag-activity-reasons" aria-label="Activity reason">"#);
    out.append(activity_filter_tabs(&s.filter_links, s.active_filter).as_str());
    out.append("</nav></div>");
    out
}

/// The kind of an event, in words.
pub open spec fn activity_kind_text(kind: ActivityKindVM) -> Seq<char> {
    (match kind {
        ActivityKindVM::PostCreated => {
            "New post"@
        },
        ActivityKindVM::AnswerAccepted => {
            "Answer accepted"@
        },
    })
}

/// The kind of an event, in words.
pub(crate) fn activity_kind_word(kind: ActivityKindVM) -> (out: &'static str)
    ensures
        out@ == activity_kind_text(kind),
{
    match kind {
        ActivityKindVM::PostCreated => {
            "New post"
        },
        ActivityKindVM::AnswerAccepted => {
            "Answer accepted"
        },
    }
}

/// Why an event was delivered, in words.
pub open spec fn activity_reason_text(reason: ActivityReasonVM) -> Seq<char> {
    (match reason {
        ActivityReasonVM::Mention => {
            "Mentioned you"@
        },
        ActivityReasonVM::Reply => {
            "Replied to you"@
        },
        ActivityReasonVM::Following => {
            "In a thread you follow"@
        },
        ActivityReasonVM::Answer => {
            "Answer activity"@
        },
    })
}

/// Why an event was delivered, in words.
pub(crate) fn activity_reason_word(reason: ActivityReasonVM) -> (out: &'static str)
    ensures
        out@ == activity_reason_text(reason),
{
    match reason {
        ActivityReasonVM::Mention => {
            "Mentioned you"
        },
        ActivityReasonVM::Reply => {
            "Replied to you"
        },
        ActivityReasonVM::Following => {
            "In a thread you follow"
        },
        ActivityReasonVM::Answer => {
            "Answer activity"
        },
    }
}

/// One row of the activity.
pub open spec fn activity_item_html(it: &ActivityItemVM, now: i64) -> Seq<char> {
    r#"<li class="ag-activity-row ag-key-shared">
  <div class="ag-activity-main">
    <p class="ag-activity-meta"><span class="badge ag-chip-shared">"#@
        + escape_text(activity_kind_text(it.shared.kind)) + "</span> "@
        + private_marker_html("reason"@, activity_reason_text(it.viewer.reason)) + " · "@
        + time_el_html(it.shared.created_at, now) + r#"</p>
    <form class="ag-activity-open" method="post" action=""#@ + o_html(&it.viewer.open.submit.action)
        + r#"">"#@
        + hidden_inputs_html(it.viewer.open.submit.csrf.0@, it.viewer.open.submit.fields@)
        + r#"<input type="hidden" name="next" value=""#@ + o_html(&it.viewer.open.exact_target)
        + r#""><button class="ag-row__title" type="submit">"#@ + t_html(&it.shared.thread_title)
        + r#"</button></form>
    <p class="ag-activity-snippet">"#@ + t_html(&it.shared.post_excerpt) + r#"</p>
    <p class="ag-activity-actor muted">"#@ + monogram_html(it.shared.actor_display.0@)
        + r#" <span class="ag-row__author">"#@ + t_html(&it.shared.actor_display) + r#"</span></p>
  </div>
  <div class="ag-activity-controls ag-key-private">"#@ + (if it.viewer.read {
        private_marker_html("read"@, "Read"@)
    } else {
        private_marker_html("unread"@, "Unread"@)
    }) + form_action_html(&it.viewer.toggle_read) + r#"</div>
</li>"#@
}

/// One row of the activity.
pub(crate) fn activity_item(it: &ActivityItemVM, now: i64) -> (out: String)
    ensures
        out@ == activity_item_html(it, now),
{
    let mut out: String = r#"<li class="ag-activity-row ag-key-shared">
  <div class="ag-activity-main">
    <p class="ag-activity-meta"><span class="badge ag-chip-shared">"#.to_owned();
    out.append(escape(activity_kind_word(it.shared.kind)).as_str());
    out.append("</span> ");
    out.append(private_marker("reason", activity_reason_word(it.viewer.reason)).as_str());
    out.append(" · ");
    out.append(time_el(it.shared.created_at, now).as_str());
    out.append(r#"</p>
    <form class="ag-activity-open" method="post" action=""#);
    out.append(o(&it.viewer.open.submit.action).as_str());
    out.append(r#"">"#);
    out.append(hidden_inputs(it.viewer.open.submit.csrf.0.as_str(), &it.viewer.open.submit.fields).as_str());
    out.append(r#"<input type="hidden" name="next" value=""#);
    out.append(o(&it.viewer.open.exact_target).as_str());
    out.append(r#""><button class="ag-row__title" type="submit">"#);
    out.append(t(&it.shared.thread_title).as_str());
    out.append(r#"</button></form>
    <p class="ag-activity-snippet">"#);
    out.append(t(&it.shared.post_excerpt).as_str());
    out.append(r#"</p>
    <p class="ag-activity-actor muted">"#);
    out.append(monogram(it.shared.actor_display.0.as_str()).as_str());
    out.append(r#" <span class="ag-row__author">"#);
    out.append(t(&it.shared.actor_display).as_str());
    out.append(r#"</span></p>
  </div>
  <div class="ag-activity-controls ag-key-private">"#);
    let part = if it.viewer.read {
        private_marker("read", "Read")
    } else {
        private_marker("unread", "Unread")
    };
    out.append(part.as_str());
    out.append(form_action(&it.viewer.toggle_read).as_str());
    out.append(r#"</div>
</li>"#);
    out
}

/// The rows of the activity.
pub open spec fn activity_items_html(items: Seq<ActivityItemVM>, now: i64) -> Seq<char>
    decreases items.len(),
{
    if items.len() == 0 {
        Seq::empty()
    } else {
        let item = items.last();
        activity_items_html(items.drop_last(), now) + (activity_item_html(&item, now))
    }
}

/// The rows of the activity.
pub(crate) fn activity_items(items: &Vec<ActivityItemVM>, now: i64) -> (out: String)
    ensures
        out@ == activity_items_html(items@, now),
{
    let mut out = String::new();
    let mut i: usize = 0;
    assert(out@ =~= activity_items_html(items@.take(0), now));
    while i < items.len()
        invariant
            0 <= i <= items@.len(),
            out@ == activity_items_html(items@.take(i as int), now),
        decreases items@.len() - i,
    {
        assert(items@.take(i + 1).drop_last() =~= items@.take(i as int));
        let item = &items[i];
        let part: String = activity_item(item, now);
        out.append(part.as_str());
        i = i + 1;
    }
    assert(items@.take(i as int) =~= items@);
    out
}

/// The bound of the activity.
pub open spec fn activity_meta_text(bound: i64) -> Seq<char> {
    "Page bound "@ + decimal_text(bound as int)
        + " · durable record of application events, not a delivery receipt"@
}

/// The bound of the activity.
pub(crate) fn activity_meta(bound: i64) -> (out: String)
    ensures
        out@ == activity_meta_text(bound),
{
    let mut out: String = "Page bound ".to_owned();
    out.append(decimal(bound).as_str());
    out.append(" · durable record of application events, not a delivery receipt");
    out
}

/// The main markup of the activity.
pub open spec fn activity_main_html(v: &ActivityView) -> Seq<char> {
    r#"<div class="ag-ledger ag-activity">"#@
        + ledger_head_html("Activity"@, "Only you can see your activity. Each row is reauthorized when shown."@, activity_meta_text(v.shared.visible_bound))
        + activity_tabs_html(&v.shared) + (match v.viewer.mark_page_read {
        Some(a) => {
            r#"<div class="ag-ledger-actions">"#@ + form_action_html(&a) + "</div>"@
        },
        None => {
            Seq::<char>::empty()
        },
    }) + (if v.viewer.items.len() == 0 {
        empty_note_html(v.shared.state, "No activity in this view yet."@)
    } else {
        r#"<ul class="ag-activity-list">"#@ + activity_items_html(v.viewer.items@, v.shared.now)
            + "</ul>"@ + pagination_html(&v.viewer.pagination)
    }) + "</div>"@
}

/// The main markup of the activity.
pub(crate) fn activity_main(v: &ActivityView) -> (out: String)
    ensures
        out@ == activity_main_html(v),
{
    let mut out: String = r#"<div class="ag-ledger ag-activity">"#.to_owned();
    out.append(ledger_head("Activity", "Only you can see your activity. Each row is reauthorized when shown.", activity_meta(v.shared.visible_bound).as_str()).as_str());
    out.append(activity_tabs(&v.shared).as_str());
    let part = match &v.viewer.mark_page_read {
        Some(a) => {
            let mut out: String = r#"<div class="ag-ledger-actions">"#.to_owned();
            out.append(form_action(a).as_str());
            out.append("</div>");
            out
        },
        None => {
            String::new()
        },
    };
    out.append(part.as_str());
    let part = if v.viewer.items.len() == 0 {
        empty_note(v.shared.state, "No activity in this view yet.")
    } else {
        let mut out: String = r#"<ul class="ag-activity-list">"#.to_owned();
        out.append(activity_items(&v.viewer.items, v.shared.now).as_str());
        out.append("</ul>");
        out.append(pagination(&v.viewer.pagination).as_str());
        out
    };
    out.append(part.as_str());
    out.append("</div>");
    out
}

/// The private activity.
pub open spec fn activity_html(assets: &ShellAssets, v: &ActivityView) -> Seq<char> {
    page_html(assets, &v.chrome, activity_main_html(v))
}

/// The private activity.
pub fn activity(assets: &ShellAssets, v: &ActivityView) -> (out: String)
    ensures
        out@ == activity_html(assets, v),
{
    page(assets, &v.chrome, activity_main(v).as_str())
}

/// The private note of a bookmark; a blank note is left out.
pub open spec fn bookmark_note_html(note: &Text) -> Seq<char> {
    (if blank_text(note.0@) {
        Seq::<char>::empty()
    } else {
        r#"<p class="ag-bookmark-note ag-key-private">"#@ + t_html(note) + "</p>"@
    })
}

/// The private note of a bookmark; a blank note is left out.
pub(crate) fn bookmark_note(note: &Text) -> (out: String)
    ensures
        out@ == bookmark_note_html(note),
{
    if is_blank(note.0.as_str()) {
        String::new()
    } else {
        let mut out: String = r#"<p class="ag-bookmark-note ag-key-private">"#.to_owned();
        out.append(t(note).as_str());
        out.append("</p>");
        out
    }
}

/// When a reminder is due.
pub open spec fn reminder_label_text(at: i64) -> Seq<char> {
    "Reminder "@ + fmt_ts_text(at)
}

/// When a reminder is due.
pub(crate) fn reminder_label(at: i64) -> (out: String)
    ensures
        out@ == reminder_label_text(at),
{
    let mut out: String = "Reminder ".to_owned();
    out.append(fmt_ts(at).as_str());
    out
}

/// The reminder mark of a bookmark.
pub open spec fn bookmark_reminder_html(remind_at: Option<i64>) -> Seq<char> {
    (match remind_at {
        Some(at) => {
            private_marker_html("remind"@, reminder_label_text(at))
        },
        None => {
            Seq::<char>::empty()
        },
    })
}

/// The reminder mark of a bookmark.
pub(crate) fn bookmark_reminder(remind_at: Option<i64>) -> (out: String)
    ensures
        out@ == bookmark_reminder_html(remind_at),
{
    match remind_at {
        Some(at) => {
            private_marker("remind", reminder_label(at).as_str())
        },
        None => {
            String::new()
        },
    }
}

/// The actions of a bookmark.
pub open spec fn bookmark_actions_html(vr: &BookmarkItemViewerState) -> Seq<char> {
    form_action_opt_html(&vr.done) + form_action_opt_html(&vr.snooze_tomorrow)
        + form_action_opt_html(&vr.snooze_week) + link_action_html(&vr.edit)
        + form_action_html(&vr.remove)
}

/// The actions of a bookmark.
pub(crate) fn bookmark_actions(vr: &BookmarkItemViewerState) -> (out: String)
    ensures
        out@ == bookmark_actions_html(vr),
{
    let mut out: String = form_action_opt(&vr.done);
    out.append(form_action_opt(&vr.snooze_tomorrow).as_str());
    out.append(form_action_opt(&vr.snooze_week).as_str());
    out.append(link_action(&vr.edit).as_str());
    out.append(form_action(&vr.remove).as_str());
    out
}

/// One bookmark.
pub open spec fn bookmark_item_html(it: &BookmarkItemVM, now: i64) -> Seq<char> {
    r#"<li class="ag-bookmark-row ag-key-shared">
  <div class="ag-bookmark-body">
    <a class="ag-row__title" href=""#@ + o_html(&it.shared.exact_post_href) + r#"">"#@
        + t_html(&it.shared.thread_title) + r#"</a>
    <p class="ag-row__by">"#@ + monogram_html(it.shared.post_author_display.0@)
        + r#" <span class="ag-row__author">"#@ + t_html(&it.shared.post_author_display)
        + "</span> · "@ + time_el_html(it.shared.post_created_at, now) + r#"</p>
    <p class="ag-bookmark-snippet">"#@ + t_html(&it.shared.post_excerpt) + r#"</p>
    <div class="ag-bookmark-private ag-key-private">"#@ + bookmark_note_html(&it.viewer.note)
        + bookmark_reminder_html(it.viewer.remind_at) + r#"</div>
  </div>
  <div class="ag-bookmark-actions">"#@ + bookmark_actions_html(&it.viewer) + r#"</div>
</li>"#@
}

/// One bookmark.
pub(crate) fn bookmark_item(it: &BookmarkItemVM, now: i64) -> (out: String)
    ensures
        out@ == bookmark_item_html(it, now),
{
    let mut out: String = r#"<li class="ag-bookmark-row ag-key-shared">
  <div class="ag-bookmark-body">
    <a class="ag-row__title" href=""#.to_owned();
    out.append(o(&it.shared.exact_post_href).as_str());
    out.append(r#"">"#);
    out.append(t(&it.shared.thread_title).as_str());
    out.append(r#"</a>
    <p class="ag-row__by">"#);
    out.append(monogram(it.shared.post_author_display.0.as_str()).as_str());
    out.append(r#" <span class="ag-row__author">"#);
    out.append(t(&it.shared.post_author_display).as_str());
    out.append("</span> · ");
    out.append(time_el(it.shared.post_created_at, now).as_str());
    out.append(r#"</p>
    <p class="ag-bookmark-snippet">"#);
    out.append(t(&it.shared.post_excerpt).as_str());
    out.append(r#"</p>
    <div class="ag-bookmark-private ag-key-private">"#);
    out.append(bookmark_note(&it.viewer.note).as_str());
    out.append(bookmark_reminder(it.viewer.remind_at).as_str());
    out.append(r#"</div>
  </div>
  <div class="ag-bookmark-actions">"#);
    out.append(bookmark_actions(&it.viewer).as_str());
    out.append(r#"</div>
</li>"#);
    out
}

/// The bookmarks.
pub open spec fn bookmark_items_html(items: Seq<BookmarkItemVM>, now: i64) -> Seq<char>
    decreases items.len(),
{
    if items.len() == 0 {
        Seq::empty()
    } else {
        let item = items.last();
        bookmark_items_html(items.drop_last(), now) + (bookmark_item_html(&item, now))
    }
}

/// The bookmarks.
pub(crate) fn bookmark_items(items: &Vec<BookmarkItemVM>, now: i64) -> (out: String)
    ensures
        out@ == bookmark_items_html(items@, now),
{
    let mut out = String::new();
    let mut i: usize = 0;
    assert(out@ =~= bookmark_items_html(items@.take(0), now));
    while i < items.len()
        invariant
            0 <= i <= items@.len(),
            out@ == bookmark_items_html(items@.take(i as int), now),
        decreases items@.len() - i,
    {
        assert(items@.take(i + 1).drop_last() =~= items@.take(i as int));
        let item = &items[i];
        let part: String = bookmark_item(item, now);
        out.append(part.as_str());
        i = i + 1;
    }
    assert(items@.take(i as int) =~= items@);
    out
}

/// The tabs of the bookmarks.
pub open spec fn bookmark_tabs_html(active: BookmarkStateVM) -> Seq<char> {
    ledger_tab_html("state"@, "all"@, "All"@, active == BookmarkStateVM::All)
        + ledger_tab_html("state"@, "due"@, "Due"@, active == BookmarkStateVM::Due)
        + ledger_tab_html("state"@, "scheduled"@, "Scheduled"@, active == BookmarkStateVM::Scheduled)
}

/// The tabs of the bookmarks.
pub(crate) fn bookmark_tabs(active: BookmarkStateVM) -> (out: String)
    ensures
        out@ == bookmark_tabs_html(active),
{
    let mut out: String = ledger_tab("state", "all", "All", active == BookmarkStateVM::All);
    out.append(ledger_tab("state", "due", "Due", active == BookmarkStateVM::Due).as_str());
    out.append(ledger_tab("state", "scheduled", "Scheduled", active == BookmarkStateVM::Scheduled).as_str());
    out
}

/// The bound of the bookmarks.
pub open spec fn bookmarks_meta_text(bound: i64) -> Seq<char> {
    "Page bound "@ + decimal_text(bound as int) + " · private bookmarks and notes"@
}

/// The bound of the bookmarks.
pub(crate) fn bookmarks_meta(bound: i64) -> (out: String)
    ensures
        out@ == bookmarks_meta_text(bound),
{
    let mut out: String = "Page bound ".to_owned();
    out.append(decimal(bound).as_str());
    out.append(" · private bookmarks and notes");
    out
}

/// The main markup of the bookmarks.
pub open spec fn bookmarks_main_html(v: &BookmarksView) -> Seq<char> {
    r#"<div class="ag-ledger ag-bookmarks">"#@
        + ledger_head_html("Bookmarks"@, "Only you can see your bookmarks and notes."@, bookmarks_meta_text(v.shared.visible_bound))
        + ledger_tabs_html("Bookmark filter"@, bookmark_tabs_html(v.shared.active_state))
        + (if v.viewer.items.len() == 0 {
        empty_note_html(v.shared.state, "No bookmarks in this view."@)
    } else {
        r#"<ul class="ag-bookmark-list">"#@ + bookmark_items_html(v.viewer.items@, v.shared.now)
            + "</ul>"@ + pagination_html(&v.viewer.pagination)
    }) + "</div>"@
}

/// The main markup of the bookmarks.
pub(crate) fn bookmarks_main(v: &BookmarksView) -> (out: String)
    ensures
        out@ == bookmarks_main_html(v),
{
    let mut out: String = r#"<div class="ag-ledger ag-bookmarks">"#.to_owned();
    out.append(ledger_head("Bookmarks", "Only you can see your bookmarks and notes.", bookmarks_meta(v.shared.visible_bound).as_str()).as_str());
    out.append(ledger_tabs("Bookmark filter", bookmark_tabs(v.shared.active_state).as_str()).as_str());
    let part = if v.viewer.items.len() == 0 {
        empty_note(v.shared.state, "No bookmarks in this view.")
    } else {
        let mut out: String = r#"<ul class="ag-bookmark-list">"#.to_owned();
        out.append(bookmark_items(&v.viewer.items, v.shared.now).as_str());
        out.append("</ul>");
        out.append(pagination(&v.viewer.pagination).as_str());
        out
    };
    out.append(part.as_str());
    out.append("</div>");
    out
}

/// The private bookmarks.
pub open spec fn bookmarks_html(assets: &ShellAssets, v: &BookmarksView) -> Seq<char> {
    page_html(assets, &v.chrome, bookmarks_main_html(v))
}

/// The private bookmarks.
pub fn bookmarks(assets: &ShellAssets, v: &BookmarksView) -> (out: String)
    ensures
        out@ == bookmarks_html(assets, v),
{
    page(assets, &v.chrome, bookmarks_main(v).as_str())
}

/// The choice that keeps the current reminder.
pub open spec fn keep_label_text(current: Option<i64>) -> Seq<char> {
    "Keep current — "@ + (match current {
        Some(at) => {
            fmt_ts_text(at)
        },
        None => {
            "No reminder set"@
        },
    })
}

/// The choice that keeps the current reminder.
pub(crate) fn keep_label(current: Option<i64>) -> (out: String)
    ensures
        out@ == keep_label_text(current),
{
    let mut out: String = "Keep current — ".to_owned();
    let part = match current {
        Some(at) => {
            fmt_ts(at)
        },
        None => {
            "No reminder set".to_owned()
        },
    };
    out.append(part.as_str());
    out
}

/// One reminder choice.
pub open spec fn reminder_option_html(value: Seq<char>, label: Seq<char>, selected: bool) -> Seq<char> {
    r#"<option value=""#@ + value + r#"""#@ + (if selected {
        " selected"@
    } else {
        ""@
    }) + ">"@ + escape_text(label) + "</option>"@
}

/// One reminder choice.
pub(crate) fn reminder_option(value: &str, label: &str, selected: bool) -> (out: String)
    ensures
        out@ == reminder_option_html(value@, label@, selected),
{
    let mut out: String = r#"<option value=""#.to_owned();
    out.append(value);
    out.append(r#"""#);
    let part = if selected {
        " selected"
    } else {
        ""
    };
    out.append(part);
    out.append(">");
    out.append(escape(label).as_str());
    out.append("</option>");
    out
}

/// The reminder choices.
pub open spec fn reminder_options_html(current: Option<i64>, selected: BookmarkReminderChoiceVM) -> Seq<char> {
    reminder_option_html("keep"@, keep_label_text(current), selected == BookmarkReminderChoiceVM::Keep)
        + reminder_option_html("none"@, "No reminder"@, selected == BookmarkReminderChoiceVM::NoReminder)
        + reminder_option_html("tomorrow"@, "24 hours from now"@, selected == BookmarkReminderChoiceVM::Tomorrow)
        + reminder_option_html("week"@, "7 days from now"@, selected == BookmarkReminderChoiceVM::Week)
        + reminder_option_html("custom"@, "Custom UTC time"@, selected == BookmarkReminderChoiceVM::Custom)
}

/// The reminder choices.
pub(crate) fn reminder_options(current: Option<i64>, selected: BookmarkReminderChoiceVM) -> (out: String)
    ensures
        out@ == reminder_options_html(current, selected),
{
    let mut out: String = reminder_option("keep", keep_label(current).as_str(), selected == BookmarkReminderChoiceVM::Keep);
    out.append(reminder_option("none", "No reminder", selected == BookmarkReminderChoiceVM::NoReminder).as_str());
    out.append(reminder_option("tomorrow", "24 hours from now", selected == BookmarkReminderChoiceVM::Tomorrow).as_str());
    out.append(reminder_option("week", "7 days from now", selected == BookmarkReminderChoiceVM::Week).as_str());
    out.append(reminder_option("custom", "Custom UTC time", selected == BookmarkReminderChoiceVM::Custom).as_str());
    out
}

/// The main markup of the bookmark editor.
pub open spec fn bookmark_edit_main_html(v: &BookmarkEditView) -> Seq<char> {
    r#"<div class="ag-bookmark-edit">
  "#@ + crumbs_html(seq![linked("Home"@, "/"@), linked("Bookmarks"@, "/bookmarks"@), here("Edit"@)])
        + r#"
  <header class="pagehead"><div class="ag-head-tools__lead">"#@ + eyebrow_html("Civic Ledger"@)
        + r#"<h1 class="ag-head__title">Edit bookmark</h1><p class="muted">"#@
        + t_html(&v.shared.thread_title) + r#"</p></div></header>
  <section class="card ag-bookmark-editor ag-key-private">
    <form class="ag-form" method="post" action=""#@ + o_html(&v.viewer.save.action) + r#"">"#@
        + hidden_inputs_html(v.viewer.save.csrf.0@, v.viewer.save.fields@) + r#"
      <label class="ag-form__label" for="bookmark-note">Private note</label>
      <textarea id="bookmark-note" name="note" rows="4" maxlength=""#@
        + decimal_text(v.shared.note_max_chars as int)
        + r#"" placeholder="Why did you save this?">"#@ + t_html(&v.viewer.note) + r#"</textarea>
      <p class="muted">Plain text, visible only to you. Up to "#@
        + decimal_text(v.shared.note_max_chars as int) + r#" characters.</p>
      <label class="ag-form__label" for="bookmark-reminder">Reminder</label>
      <select id="bookmark-reminder" name="reminder_action">"#@
        + reminder_options_html(v.shared.current_reminder_at, v.viewer.selected_reminder)
        + r#"</select>
      <label class="ag-form__label" for="bookmark-custom">Custom time <span class="muted">(UTC)</span></label>
      <input id="bookmark-custom" type="datetime-local" name="custom_time" value=""#@
        + t_html(&v.viewer.custom_time) + r#"">
      <p class="muted">Used only for “Custom UTC time”; it must be in the future and within 10 years.</p>
      <aside class="ag-bookmark-notice" role="note">This reminder appears in your Forum Due queue. It does not send email or push.</aside>
      <div class="form-actions"><a class="btn btn-secondary" href=""#@
        + o_html(&v.shared.exact_post_href)
        + r#"">Cancel</a><button class="btn btn-primary" type="submit">Save bookmark</button></div>
    </form>
  </section>
</div>"#@
}

/// The main markup of the bookmark editor.
pub(crate) fn bookmark_edit_main(v: &BookmarkEditView) -> (out: String)
    ensures
        out@ == bookmark_edit_main_html(v),
{
    let mut out: String = r#"<div class="ag-bookmark-edit">
  "#.to_owned();
    out.append(crumbs(&trail3(link_crumb("Home", "/"), link_crumb("Bookmarks", "/bookmarks"), here_crumb("Edit"))).as_str());
    out.append(r#"
  <header class="pagehead"><div class="ag-head-tools__lead">"#);
    out.append(eyebrow("Civic Ledger").as_str());
    out.append(r#"<h1 class="ag-head__title">Edit bookmark</h1><p class="muted">"#);
    out.append(t(&v.shared.thread_title).as_str());
    out.append(r#"</p></div></header>
  <section class="card ag-bookmark-editor ag-key-private">
    <form class="ag-form" method="post" action=""#);
    out.append(o(&v.viewer.save.action).as_str());
    out.append(r#"">"#);
    out.append(hidden_inputs(v.viewer.save.csrf.0.as_str(), &v.viewer.save.fields).as_str());
    out.append(r#"
      <label class="ag-form__label" for="bookmark-note">Private note</label>
      <textarea id="bookmark-note" name="note" rows="4" maxlength=""#);
    out.append(decimal_len(v.shared.note_max_chars).as_str());
    out.append(r#"" placeholder="Why did you save this?">"#);
    out.append(t(&v.viewer.note).as_str());
    out.append(r#"</textarea>
      <p class="muted">Plain text, visible only to you. Up to "#);
    out.append(decimal_len(v.shared.note_max_chars).as_str());
    out.append(r#" characters.</p>
      <label class="ag-form__label" for="bookmark-reminder">Reminder</label>
      <select id="bookmark-reminder" name="reminder_action">"#);
    out.append(reminder_options(v.shared.current_reminder_at, v.viewer.selected_reminder).as_str());
    out.append(r#"</select>
      <label class="ag-form__label" for="bookmark-custom">Custom time <span class="muted">(UTC)</span></label>
      <input id="bookmark-custom" type="datetime-local" name="custom_time" value=""#);
    out.append(t(&v.viewer.custom_time).as_str());
    out.append(r#"">
      <p class="muted">Used only for “Custom UTC time”; it must be in the future and within 10 years.</p>
      <aside class="ag-bookmark-notice" role="note">This reminder appears in your Forum Due queue. It does not send email or push.</aside>
      <div class="form-actions"><a class="btn btn-secondary" href=""#);
    out.append(o(&v.shared.exact_post_href).as_str());
    out.append(r#"">Cancel</a><button class="btn btn-primary" type="submit">Save bookmark</button></div>
    </form>
  </section>
</div>"#);
    out
}

/// The bookmark editor.
pub open spec fn bookmark_edit_html(assets: &ShellAssets, v: &BookmarkEditView) -> Seq<char> {
    page_html(assets, &v.chrome, bookmark_edit_main_html(v))
}

/// The bookmark editor.
pub fn bookmark_edit(assets: &ShellAssets, v: &BookmarkEditView) -> (out: String)
    ensures
        out@ == bookmark_edit_html(assets, v),
{
    page(assets, &v.chrome, bookmark_edit_main(v).as_str())
}

} // verus!
