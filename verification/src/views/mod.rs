//! Server-rendered pages.
//!
//! Every page is a pure function of an already-authorized view model. Untrusted text and opaque
//! values are escaped where they are interpolated; sanitized HTML is emitted verbatim. Solid
//! keylines mark shared facts, dashed keylines mark private state.

use vstd::prelude::*;
use vstd::string::StringExecFns;

use crate::calendar::{UtcFields, utc_fields, utc_of};
use crate::rows::{opt, views};
use crate::text::{
    char_alphanumeric, char_uppercase, chars_of, decimal, decimal_text, escape, escape_text,
    is_alphanumeric, padded, padded_text, uppercase,
};
use crate::view_model::{
    AcceptanceMeaning, ActionKind, AnswerDaisVM, AnswerState, CategoryRefVM, CollectionState,
    FormActionVM, HiddenField, LinkActionVM, Opaque, PageLinkVM, PaginationVM, PostActionsVM,
    PostBookmarkActionVM, PostVM, PostViewerState, QuoteVM, ReactionVM, SavedBookmarkStateVM, Text,
    ThreadFollowLevelVM, ThreadKind, ThreadRowShared, ThreadRowViewerState,
};

pub mod admin;
pub mod forum;
pub mod personal;
pub mod search;
pub mod shell;

verus! {

/// An untrusted text, escaped.
pub open spec fn t_html(value: &Text) -> Seq<char> {
    escape_text(value.0@)
}

/// Escape an untrusted text.
pub(crate) fn t(value: &Text) -> (out: String)
    ensures
        out@ == t_html(value),
{
    escape(value.0.as_str())
}

/// An opaque value, escaped.
pub open spec fn o_html(value: &Opaque) -> Seq<char> {
    escape_text(value.0@)
}

/// Escape an opaque value; it stays opaque otherwise.
pub(crate) fn o(value: &Opaque) -> (out: String)
    ensures
        out@ == o_html(value),
{
    escape(value.0.as_str())
}

/// The seconds from `ts` to `now`, kept within the machine's range.
pub open spec fn elapsed(ts: int, now: int) -> int {
    if now - ts > i64::MAX {
        i64::MAX as int
    } else if now - ts < i64::MIN {
        i64::MIN as int
    } else {
        now - ts
    }
}

/// A compact relative time.
pub open spec fn rel_time_text(ts: i64, now: i64) -> Seq<char> {
    let d = elapsed(ts as int, now as int);
    if d < 5 {
        "just now"@
    } else if d < 60 {
        decimal_text(d) + "s ago"@
    } else if d < 3600 {
        decimal_text(d / 60) + "m ago"@
    } else if d < 86400 {
        decimal_text(d / 3600) + "h ago"@
    } else {
        decimal_text(d / 86400) + "d ago"@
    }
}

/// A compact relative time.
pub fn rel_time(ts: i64, now: i64) -> (out: String)
    ensures
        out@ == rel_time_text(ts, now),
{
    let exact: i128 = now as i128 - ts as i128;
    let d: i64 = if exact > i64::MAX as i128 {
        i64::MAX
    } else if exact < i64::MIN as i128 {
        i64::MIN
    } else {
        exact as i64
    };
    if d < 5 {
        "just now".to_owned()
    } else if d < 60 {
        decimal(d).concat("s ago")
    } else if d < 3600 {
        decimal(d / 60).concat("m ago")
    } else if d < 86400 {
        decimal(d / 3600).concat("h ago")
    } else {
        decimal(d / 86400).concat("d ago")
    }
}

/// A UTC date.
pub open spec fn date_text(f: UtcFields) -> Seq<char> {
    padded_text(f.year as int, 4) + "-"@ + padded_text(f.month as int, 2) + "-"@ + padded_text(
        f.day as int,
        2,
    )
}

fn date(f: &UtcFields) -> (out: String)
    ensures
        out@ == date_text(*f),
{
    let mut out = padded(f.year, 4);
    out.append("-");
    out.append(padded(f.month as i32, 2).as_str());
    out.append("-");
    out.append(padded(f.day as i32, 2).as_str());
    out
}

/// Epoch seconds as `YYYY-MM-DD HH:MM UTC`, or the bare number outside the calendar.
pub open spec fn fmt_ts_text(secs: i64) -> Seq<char> {
    match utc_of(secs) {
        Some(f) => date_text(f) + " "@ + padded_text(f.hour as int, 2) + ":"@ + padded_text(
            f.minute as int,
            2,
        ) + " UTC"@,
        None => decimal_text(secs as int),
    }
}

/// Epoch seconds as `YYYY-MM-DD HH:MM UTC`, or the bare number outside the calendar.
pub fn fmt_ts(secs: i64) -> (out: String)
    ensures
        out@ == fmt_ts_text(secs),
{
    match utc_fields(secs) {
        Some(f) => {
            let mut out = date(&f);
            out.append(" ");
            out.append(padded(f.hour as i32, 2).as_str());
            out.append(":");
            out.append(padded(f.minute as i32, 2).as_str());
            out.append(" UTC");
            out
        },
        None => decimal(secs),
    }
}

/// Epoch seconds as an ISO-8601 UTC stamp, or the bare number outside the calendar.
pub open spec fn iso8601_text(secs: i64) -> Seq<char> {
    match utc_of(secs) {
        Some(f) => date_text(f) + "T"@ + padded_text(f.hour as int, 2) + ":"@ + padded_text(
            f.minute as int,
            2,
        ) + ":"@ + padded_text(f.second as int, 2) + "Z"@,
        None => decimal_text(secs as int),
    }
}

/// Epoch seconds as an ISO-8601 UTC stamp, or the bare number outside the calendar.
pub fn iso8601(secs: i64) -> (out: String)
    ensures
        out@ == iso8601_text(secs),
{
    match utc_fields(secs) {
        Some(f) => {
            let mut out = date(&f);
            out.append("T");
            out.append(padded(f.hour as i32, 2).as_str());
            out.append(":");
            out.append(padded(f.minute as i32, 2).as_str());
            out.append(":");
            out.append(padded(f.second as i32, 2).as_str());
            out.append("Z");
            out
        },
        None => decimal(secs),
    }
}

/// The number of replies from a post count that includes the original post.
pub open spec fn replies_label_text(post_count: i64) -> Seq<char> {
    if post_count == 2 {
        "1 reply"@
    } else if post_count <= 1 {
        "0 replies"@
    } else {
        decimal_text(post_count - 1) + " replies"@
    }
}

/// The number of replies from a post count that includes the original post.
pub fn replies_label(post_count: i64) -> (out: String)
    ensures
        out@ == replies_label_text(post_count),
{
    if post_count == 2 {
        "1 reply".to_owned()
    } else if post_count <= 1 {
        "0 replies".to_owned()
    } else {
        decimal(post_count - 1).concat(" replies")
    }
}

/// The upper case of the first letter or digit, or `U`.
pub open spec fn initial_text(s: Seq<char>) -> Seq<char>
    decreases s.len(),
{
    if s.len() == 0 {
        "U"@
    } else if char_alphanumeric(s[0]) {
        char_uppercase(s[0])
    } else {
        initial_text(s.drop_first())
    }
}

/// The upper case of the first letter or digit, or `U`.
pub fn ag_initial(s: &str) -> (out: String)
    ensures
        out@ == initial_text(s@),
{
    let v = chars_of(s);
    let mut i: usize = 0;
    assert(v@.skip(0) =~= v@);
    while i < v.len()
        invariant
            0 <= i <= v@.len(),
            initial_text(v@.skip(i as int)) == initial_text(s@),
        decreases v@.len() - i,
    {
        assert(v@.skip(i as int).drop_first() =~= v@.skip(i + 1));
        assert(v@.skip(i as int)[0] == v@[i as int]);
        if is_alphanumeric(v[i]) {
            return uppercase(v[i]);
        }
        i = i + 1;
    }
    "U".to_owned()
}

/// One segment of a breadcrumb trail; the current location has no link.
pub struct Crumb {
    pub label: String,
    pub href: Option<String>,
}

/// The mathematical view of a [`Crumb`].
pub struct CrumbRow {
    pub label: Seq<char>,
    pub href: Option<Seq<char>>,
}

impl View for Crumb {
    type V = CrumbRow;

    open spec fn view(&self) -> CrumbRow {
        CrumbRow { label: self.label@, href: opt(self.href) }
    }
}

/// A segment that links to an earlier location.
pub open spec fn linked(label: Seq<char>, href: Seq<char>) -> CrumbRow {
    CrumbRow { label, href: Some(href) }
}

/// The segment of the current location.
pub open spec fn here(label: Seq<char>) -> CrumbRow {
    CrumbRow { label, href: None }
}

pub(crate) fn link_crumb(label: &str, href: &str) -> (c: Crumb)
    ensures
        c@ == linked(label@, href@),
{
    Crumb { label: label.to_owned(), href: Some(href.to_owned()) }
}

pub(crate) fn here_crumb(label: &str) -> (c: Crumb)
    ensures
        c@ == here(label@),
{
    Crumb { label: label.to_owned(), href: None }
}

/// A trail of two segments.
pub(crate) fn trail2(a: Crumb, b: Crumb) -> (v: Vec<Crumb>)
    ensures
        views(v@) == seq![a@, b@],
{
    let mut v: Vec<Crumb> = Vec::new();
    v.push(a);
    v.push(b);
    assert(views(v@) =~= seq![a@, b@]);
    v
}

/// A trail of three segments.
pub(crate) fn trail3(a: Crumb, b: Crumb, c: Crumb) -> (v: Vec<Crumb>)
    ensures
        views(v@) == seq![a@, b@, c@],
{
    let mut v: Vec<Crumb> = Vec::new();
    v.push(a);
    v.push(b);
    v.push(c);
    assert(views(v@) =~= seq![a@, b@, c@]);
    v
}

/// One segment as markup; every segment but the first stands behind a slash.
pub open spec fn crumb_html(first: bool, c: CrumbRow) -> Seq<char> {
    (if first {
        ""@
    } else {
        "<span class=\"crumbs__sep\">/</span>"@
    }) + match c.href {
        Some(href) => "<a href=\""@ + escape_text(href) + "\">"@ + escape_text(c.label) + "</a>"@,
        None => "<span>"@ + escape_text(c.label) + "</span>"@,
    }
}

fn crumb(first: bool, c: &Crumb) -> (out: String)
    ensures
        out@ == crumb_html(first, c@),
{
    let segment: String = match &c.href {
        Some(href) => {
            let mut out: String = "<a href=\"".to_owned();
            out.append(escape(href.as_str()).as_str());
            out.append("\">");
            out.append(escape(c.label.as_str()).as_str());
            out.append("</a>");
            out
        },
        None => {
            let mut out: String = "<span>".to_owned();
            out.append(escape(c.label.as_str()).as_str());
            out.append("</span>");
            out
        },
    };
    let mut out: String = (if first {
        ""
    } else {
        "<span class=\"crumbs__sep\">/</span>"
    }).to_owned();
    out.append(segment.as_str());
    out
}

/// The segments of a trail as markup.
pub open spec fn crumb_items_html(segments: Seq<CrumbRow>) -> Seq<char>
    decreases segments.len(),
{
    if segments.len() == 0 {
        Seq::empty()
    } else {
        crumb_items_html(segments.drop_last()) + crumb_html(segments.len() == 1, segments.last())
    }
}

/// A breadcrumb trail; the current location is plain text.
pub open spec fn crumbs_html(segments: Seq<CrumbRow>) -> Seq<char> {
    "<nav class=\"crumbs\" aria-label=\"Breadcrumb\">"@ + crumb_items_html(segments) + "</nav>"@
}

/// A breadcrumb trail; the current location is plain text.
pub(crate) fn crumbs(segments: &Vec<Crumb>) -> (out: String)
    ensures
        out@ == crumbs_html(views(segments@)),
{
    let ghost s = views(segments@);
    let mut items = String::new();
    let mut i: usize = 0;
    assert(items@ =~= crumb_items_html(s.take(0)));
    while i < segments.len()
        invariant
            0 <= i <= segments@.len(),
            s == views(segments@),
            items@ == crumb_items_html(s.take(i as int)),
        decreases segments@.len() - i,
    {
        assert(s.take(i + 1).drop_last() =~= s.take(i as int));
        assert(s.take(i + 1).last() == segments@[i as int]@);
        items.append(crumb(i == 0, &segments[i]).as_str());
        i = i + 1;
    }
    assert(s.take(s.len() as int) =~= s);
    let mut out: String = "<nav class=\"crumbs\" aria-label=\"Breadcrumb\">".to_owned();
    out.append(items.as_str());
    out.append("</nav>");
    out
}

/// Whether an optional fact is known to hold.
pub(crate) fn is_true(o: Option<bool>) -> (r: bool)
    ensures
        r == (o == Some(true)),
{
    match o {
        Some(b) => b,
        None => false,
    }
}

/// A `<time>` element with a machine stamp, an absolute title, and a relative label.
pub open spec fn time_el_html(ts: i64, now: i64) -> Seq<char> {
    r#"<time class="ag-time" datetime=""#@ + escape_text(iso8601_text(ts)) + r#"" title=""#@
        + escape_text(fmt_ts_text(ts)) + r#"">"#@ + escape_text(rel_time_text(ts, now)) + "</time>"@
}

/// A `<time>` element with a machine stamp, an absolute title, and a relative label.
pub(crate) fn time_el(ts: i64, now: i64) -> (out: String)
    ensures
        out@ == time_el_html(ts, now),
{
    let mut out: String = r#"<time class="ag-time" datetime=""#.to_owned();
    out.append(escape(iso8601(ts).as_str()).as_str());
    out.append(r#"" title=""#);
    out.append(escape(fmt_ts(ts).as_str()).as_str());
    out.append(r#"">"#);
    out.append(escape(rel_time(ts, now).as_str()).as_str());
    out.append("</time>");
    out
}

/// A single-tone monogram tile.
pub open spec fn monogram_html(display: Seq<char>) -> Seq<char> {
    r#"<span class="avatar ag-avatar" aria-hidden="true">"#@ + escape_text(initial_text(display))
        + "</span>"@
}

/// A single-tone monogram tile.
pub fn monogram(display: &str) -> (out: String)
    ensures
        out@ == monogram_html(display@),
{
    let mut out: String = r#"<span class="avatar ag-avatar" aria-hidden="true">"#.to_owned();
    out.append(escape(ag_initial(display).as_str()).as_str());
    out.append("</span>");
    out
}

/// The valid answer state; the text is always present.
pub open spec fn answer_state_chip_html(state: AnswerState) -> Seq<char> {
    (match state {
        AnswerState::NotApplicable => {
            ""@
        },
        AnswerState::NeedsAnswer => {
            r#"<span class="badge ag-chip-shared ag-answer-state ag-answer-state--open">Needs answer</span>"#@
        },
        AnswerState::Answered => {
            r#"<span class="badge badge-accepted ag-chip-shared ag-answer-state">Answered</span>"#@
        },
    })
}

/// The valid answer state; the text is always present.
pub(crate) fn answer_state_chip(state: AnswerState) -> (out: &'static str)
    ensures
        out@ == answer_state_chip_html(state),
{
    match state {
        AnswerState::NotApplicable => {
            ""
        },
        AnswerState::NeedsAnswer => {
            r#"<span class="badge ag-chip-shared ag-answer-state ag-answer-state--open">Needs answer</span>"#
        },
        AnswerState::Answered => {
            r#"<span class="badge badge-accepted ag-chip-shared ag-answer-state">Answered</span>"#
        },
    }
}

/// The kind of a thread.
pub open spec fn kind_chip_html(kind: ThreadKind) -> Seq<char> {
    (match kind {
        ThreadKind::Question => {
            r#"<span class="badge ag-chip-shared ag-kind ag-kind--question">Question</span>"#@
        },
        ThreadKind::Discussion => {
            r#"<span class="badge ag-chip-shared ag-kind ag-kind--discussion">Discussion</span>"#@
        },
    })
}

/// The kind of a thread.
pub(crate) fn kind_chip(kind: ThreadKind) -> (out: &'static str)
    ensures
        out@ == kind_chip_html(kind),
{
    match kind {
        ThreadKind::Question => {
            r#"<span class="badge ag-chip-shared ag-kind ag-kind--question">Question</span>"#
        },
        ThreadKind::Discussion => {
            r#"<span class="badge ag-chip-shared ag-kind ag-kind--discussion">Discussion</span>"#
        },
    }
}

/// A shared structural flag.
pub open spec fn shared_flag_html(modifier: Seq<char>, label: Seq<char>) -> Seq<char> {
    r#"<span class="badge ag-chip-shared ag-flag ag-flag--"#@ + modifier + r#"">"#@
        + escape_text(label) + "</span>"@
}

/// A shared structural flag.
pub(crate) fn shared_flag(modifier: &str, label: &str) -> (out: String)
    ensures
        out@ == shared_flag_html(modifier@, label@),
{
    let mut out: String = r#"<span class="badge ag-chip-shared ag-flag ag-flag--"#.to_owned();
    out.append(modifier);
    out.append(r#"">"#);
    out.append(escape(label).as_str());
    out.append("</span>");
    out
}

/// A small label that names a structure or a privacy register.
pub open spec fn eyebrow_html(text: Seq<char>) -> Seq<char> {
    r#"<p class="eyebrow ag-eyebrow">"#@ + escape_text(text) + "</p>"@
}

/// A small label that names a structure or a privacy register.
pub(crate) fn eyebrow(text: &str) -> (out: String)
    ensures
        out@ == eyebrow_html(text@),
{
    let mut out: String = r#"<p class="eyebrow ag-eyebrow">"#.to_owned();
    out.append(escape(text).as_str());
    out.append("</p>");
    out
}

/// Hidden inputs for the opaque fields of an action.
pub open spec fn hidden_fields_html(fields: Seq<HiddenField>) -> Seq<char>
    decreases fields.len(),
{
    if fields.len() == 0 {
        Seq::empty()
    } else {
        let item = fields.last();
        hidden_fields_html(fields.drop_last())
            + (r#"<input type="hidden" name=""#@ + escape_text(item.name.0@) + r#"" value=""#@ + escape_text(item.value.0@) + r#"">"#@)
    }
}

/// Hidden inputs for the opaque fields of an action.
pub(crate) fn hidden_fields(fields: &Vec<HiddenField>) -> (out: String)
    ensures
        out@ == hidden_fields_html(fields@),
{
    let mut out = String::new();
    let mut i: usize = 0;
    assert(out@ =~= hidden_fields_html(fields@.take(0)));
    while i < fields.len()
        invariant
            0 <= i <= fields@.len(),
            out@ == hidden_fields_html(fields@.take(i as int)),
        decreases fields@.len() - i,
    {
        assert(fields@.take(i + 1).drop_last() =~= fields@.take(i as int));
        let item = &fields[i];
        let part: String = {
            let mut out: String = r#"<input type="hidden" name=""#.to_owned();
            out.append(escape(item.name.0.as_str()).as_str());
            out.append(r#"" value=""#);
            out.append(escape(item.value.0.as_str()).as_str());
            out.append(r#"">"#);
            out
        };
        out.append(part.as_str());
        i = i + 1;
    }
    assert(fields@.take(i as int) =~= fields@);
    out
}

/// The hidden inputs of an action: its CSRF token and its opaque fields.
pub open spec fn hidden_inputs_html(csrf: Seq<char>, fields: Seq<HiddenField>) -> Seq<char> {
    r#"<input type="hidden" name="csrf" value=""#@ + escape_text(csrf) + r#"">"#@
        + hidden_fields_html(fields)
}

/// The hidden inputs of an action: its CSRF token and its opaque fields.
pub(crate) fn hidden_inputs(csrf: &str, fields: &Vec<HiddenField>) -> (out: String)
    ensures
        out@ == hidden_inputs_html(csrf@, fields@),
{
    let mut out: String = r#"<input type="hidden" name="csrf" value=""#.to_owned();
    out.append(escape(csrf).as_str());
    out.append(r#"">"#);
    out.append(hidden_fields(fields).as_str());
    out
}

/// The human label of an action.
pub open spec fn action_label_text(kind: ActionKind) -> Seq<char> {
    (match kind {
        ActionKind::EditReply => {
            "Edit"@
        },
        ActionKind::EditThread => {
            "Edit thread"@
        },
        ActionKind::DeleteThreadReview => {
            "Delete thread"@
        },
        ActionKind::DeleteReplyReview => {
            "Delete"@
        },
        ActionKind::DeleteAdminReview => {
            "Delete (admin)"@
        },
        ActionKind::DeleteConfirm => {
            "Confirm deletion"@
        },
        ActionKind::Quote => {
            "Quote"@
        },
        ActionKind::BookmarkSave => {
            "Bookmark"@
        },
        ActionKind::BookmarkEdit => {
            "Saved"@
        },
        ActionKind::SaveBookmarkChanges => {
            "Save bookmark"@
        },
        ActionKind::AcceptAnswer => {
            "Accept answer"@
        },
        ActionKind::RemoveSolution => {
            "Remove solution"@
        },
        ActionKind::ClearInvalidSolution => {
            "Clear invalid solution"@
        },
        ActionKind::UpdateSubscription => {
            "Update"@
        },
        ActionKind::ApplyFocus => {
            "Apply"@
        },
        ActionKind::SaveFocusRule => {
            "Save rule"@
        },
        ActionKind::OpenActivity => {
            "Open"@
        },
        ActionKind::MarkPageRead => {
            "Mark this page read"@
        },
        ActionKind::MarkThreadPageRead => {
            "Mark page read &amp; continue"@
        },
        ActionKind::MarkRead => {
            "Mark read"@
        },
        ActionKind::MarkUnread => {
            "Mark unread"@
        },
        ActionKind::CompleteBookmark => {
            "Done"@
        },
        ActionKind::SnoozeTomorrow => {
            "Snooze 24 hours"@
        },
        ActionKind::SnoozeWeek => {
            "Snooze 7 days"@
        },
        ActionKind::RemoveBookmark => {
            "Remove"@
        },
        ActionKind::CreateCategory => {
            "Create category"@
        },
        ActionKind::RenameCategory => {
            "Rename"@
        },
        ActionKind::SetCategoryFormat => {
            "Set format"@
        },
        ActionKind::MoveThread => {
            "Move"@
        },
        ActionKind::MoveCategoryUp => {
            "Move up"@
        },
        ActionKind::MoveCategoryDown => {
            "Move down"@
        },
        ActionKind::Lock => {
            "Lock"@
        },
        ActionKind::Unlock => {
            "Unlock"@
        },
        ActionKind::Pin => {
            "Pin"@
        },
        ActionKind::Unpin => {
            "Unpin"@
        },
        ActionKind::AddBan => {
            "Ban author"@
        },
        ActionKind::Unban => {
            "Unban"@
        },
        ActionKind::PublishThread => {
            "Publish thread"@
        },
        ActionKind::SaveThread => {
            "Save thread"@
        },
        ActionKind::SaveReply => {
            "Save reply"@
        },
        ActionKind::PostReply => {
            "Post reply"@
        },
        ActionKind::PostAnswer => {
            "Post answer"@
        },
        ActionKind::ToggleReaction => {
            "React"@
        },
    })
}

/// The human label of an action.
pub(crate) fn action_label(kind: ActionKind) -> (out: &'static str)
    ensures
        out@ == action_label_text(kind),
{
    match kind {
        ActionKind::EditReply => {
            "Edit"
        },
        ActionKind::EditThread => {
            "Edit thread"
        },
        ActionKind::DeleteThreadReview => {
            "Delete thread"
        },
        ActionKind::DeleteReplyReview => {
            "Delete"
        },
        ActionKind::DeleteAdminReview => {
            "Delete (admin)"
        },
        ActionKind::DeleteConfirm => {
            "Confirm deletion"
        },
        ActionKind::Quote => {
            "Quote"
        },
        ActionKind::BookmarkSave => {
            "Bookmark"
        },
        ActionKind::BookmarkEdit => {
            "Saved"
        },
        ActionKind::SaveBookmarkChanges => {
            "Save bookmark"
        },
        ActionKind::AcceptAnswer => {
            "Accept answer"
        },
        ActionKind::RemoveSolution => {
            "Remove solution"
        },
        ActionKind::ClearInvalidSolution => {
            "Clear invalid solution"
        },
        ActionKind::UpdateSubscription => {
            "Update"
        },
        ActionKind::ApplyFocus => {
            "Apply"
        },
        ActionKind::SaveFocusRule => {
            "Save rule"
        },
        ActionKind::OpenActivity => {
            "Open"
        },
        ActionKind::MarkPageRead => {
            "Mark this page read"
        },
        ActionKind::MarkThreadPageRead => {
            "Mark page read &amp; continue"
        },
        ActionKind::MarkRead => {
            "Mark read"
        },
        ActionKind::MarkUnread => {
            "Mark unread"
        },
        ActionKind::CompleteBookmark => {
            "Done"
        },
        ActionKind::SnoozeTomorrow => {
            "Snooze 24 hours"
        },
        ActionKind::SnoozeWeek => {
            "Snooze 7 days"
        },
        ActionKind::RemoveBookmark => {
            "Remove"
        },
        ActionKind::CreateCategory => {
            "Create category"
        },
        ActionKind::RenameCategory => {
            "Rename"
        },
        ActionKind::SetCategoryFormat => {
            "Set format"
        },
        ActionKind::MoveThread => {
            "Move"
        },
        ActionKind::MoveCategoryUp => {
            "Move up"
        },
        ActionKind::MoveCategoryDown => {
            "Move down"
        },
        ActionKind::Lock => {
            "Lock"
        },
        ActionKind::Unlock => {
            "Unlock"
        },
        ActionKind::Pin => {
            "Pin"
        },
        ActionKind::Unpin => {
            "Unpin"
        },
        ActionKind::AddBan => {
            "Ban author"
        },
        ActionKind::Unban => {
            "Unban"
        },
        ActionKind::PublishThread => {
            "Publish thread"
        },
        ActionKind::SaveThread => {
            "Save thread"
        },
        ActionKind::SaveReply => {
            "Save reply"
        },
        ActionKind::PostReply => {
            "Post reply"
        },
        ActionKind::PostAnswer => {
            "Post answer"
        },
        ActionKind::ToggleReaction => {
            "React"
        },
    }
}

/// The button class of an action.
pub open spec fn action_class_text(kind: ActionKind) -> Seq<char> {
    (match kind {
        ActionKind::EditReply => {
            "btn btn-ghost btn-sm"@
        },
        ActionKind::EditThread => {
            "btn btn-secondary btn-sm"@
        },
        ActionKind::DeleteThreadReview => {
            "btn btn-danger btn-sm"@
        },
        ActionKind::DeleteReplyReview => {
            "btn btn-danger btn-sm"@
        },
        ActionKind::DeleteAdminReview => {
            "btn btn-danger btn-sm"@
        },
        ActionKind::DeleteConfirm => {
            "btn btn-danger"@
        },
        ActionKind::Quote => {
            "btn btn-ghost btn-sm"@
        },
        ActionKind::BookmarkSave => {
            "btn btn-ghost btn-sm"@
        },
        ActionKind::BookmarkEdit => {
            "btn btn-ghost btn-sm"@
        },
        ActionKind::SaveBookmarkChanges => {
            "btn btn-primary"@
        },
        ActionKind::AcceptAnswer => {
            "btn btn-secondary btn-sm"@
        },
        ActionKind::RemoveSolution => {
            "btn btn-secondary btn-sm"@
        },
        ActionKind::ClearInvalidSolution => {
            "btn btn-secondary btn-sm"@
        },
        ActionKind::UpdateSubscription => {
            "btn btn-secondary btn-sm"@
        },
        ActionKind::ApplyFocus => {
            "btn btn-secondary btn-sm"@
        },
        ActionKind::SaveFocusRule => {
            "btn btn-primary"@
        },
        ActionKind::OpenActivity => {
            "btn btn-ghost btn-sm"@
        },
        ActionKind::MarkPageRead => {
            "btn btn-secondary btn-sm"@
        },
        ActionKind::MarkThreadPageRead => {
            "btn btn-secondary btn-sm"@
        },
        ActionKind::MarkRead => {
            "btn btn-ghost btn-sm"@
        },
        ActionKind::MarkUnread => {
            "btn btn-ghost btn-sm"@
        },
        ActionKind::CompleteBookmark => {
            "btn btn-primary btn-sm"@
        },
        ActionKind::SnoozeTomorrow => {
            "btn btn-secondary btn-sm"@
        },
        ActionKind::SnoozeWeek => {
            "btn btn-secondary btn-sm"@
        },
        ActionKind::RemoveBookmark => {
            "btn btn-ghost btn-sm"@
        },
        ActionKind::CreateCategory => {
            "btn btn-primary"@
        },
        ActionKind::RenameCategory => {
            "btn btn-secondary btn-sm"@
        },
        ActionKind::SetCategoryFormat => {
            "btn btn-secondary btn-sm"@
        },
        ActionKind::MoveThread => {
            "btn btn-secondary btn-sm"@
        },
        ActionKind::MoveCategoryUp => {
            "btn btn-ghost btn-sm"@
        },
        ActionKind::MoveCategoryDown => {
            "btn btn-ghost btn-sm"@
        },
        ActionKind::Lock => {
            "btn btn-secondary btn-sm"@
        },
        ActionKind::Unlock => {
            "btn btn-secondary btn-sm"@
        },
        ActionKind::Pin => {
            "btn btn-secondary btn-sm"@
        },
        ActionKind::Unpin => {
            "btn btn-secondary btn-sm"@
        },
        ActionKind::AddBan => {
            "btn btn-danger"@
        },
        ActionKind::Unban => {
            "btn btn-secondary btn-sm"@
        },
        ActionKind::PublishThread => {
            "btn btn-primary"@
        },
        ActionKind::SaveThread => {
            "btn btn-primary"@
        },
        ActionKind::SaveReply => {
            "btn btn-primary"@
        },
        ActionKind::PostReply => {
            "btn btn-primary"@
        },
        ActionKind::PostAnswer => {
            "btn btn-primary"@
        },
        ActionKind::ToggleReaction => {
            "ag-react"@
        },
    })
}

/// The button class of an action.
pub(crate) fn action_class(kind: ActionKind) -> (out: &'static str)
    ensures
        out@ == action_class_text(kind),
{
    match kind {
        ActionKind::EditReply => {
            "btn btn-ghost btn-sm"
        },
        ActionKind::EditThread => {
            "btn btn-secondary btn-sm"
        },
        ActionKind::DeleteThreadReview => {
            "btn btn-danger btn-sm"
        },
        ActionKind::DeleteReplyReview => {
            "btn btn-danger btn-sm"
        },
        ActionKind::DeleteAdminReview => {
            "btn btn-danger btn-sm"
        },
        ActionKind::DeleteConfirm => {
            "btn btn-danger"
        },
        ActionKind::Quote => {
            "btn btn-ghost btn-sm"
        },
        ActionKind::BookmarkSave => {
            "btn btn-ghost btn-sm"
        },
        ActionKind::BookmarkEdit => {
            "btn btn-ghost btn-sm"
        },
        ActionKind::SaveBookmarkChanges => {
            "btn btn-primary"
        },
        ActionKind::AcceptAnswer => {
            "btn btn-secondary btn-sm"
        },
        ActionKind::RemoveSolution => {
            "btn btn-secondary btn-sm"
        },
        ActionKind::ClearInvalidSolution => {
            "btn btn-secondary btn-sm"
        },
        ActionKind::UpdateSubscription => {
            "btn btn-secondary btn-sm"
        },
        ActionKind::ApplyFocus => {
            "btn btn-secondary btn-sm"
        },
        ActionKind::SaveFocusRule => {
            "btn btn-primary"
        },
        ActionKind::OpenActivity => {
            "btn btn-ghost btn-sm"
        },
        ActionKind::MarkPageRead => {
            "btn btn-secondary btn-sm"
        },
        ActionKind::MarkThreadPageRead => {
            "btn btn-secondary btn-sm"
        },
        ActionKind::MarkRead => {
            "btn btn-ghost btn-sm"
        },
        ActionKind::MarkUnread => {
            "btn btn-ghost btn-sm"
        },
        ActionKind::CompleteBookmark => {
            "btn btn-primary btn-sm"
        },
        ActionKind::SnoozeTomorrow => {
            "btn btn-secondary btn-sm"
        },
        ActionKind::SnoozeWeek => {
            "btn btn-secondary btn-sm"
        },
        ActionKind::RemoveBookmark => {
            "btn btn-ghost btn-sm"
        },
        ActionKind::CreateCategory => {
            "btn btn-primary"
        },
        ActionKind::RenameCategory => {
            "btn btn-secondary btn-sm"
        },
        ActionKind::SetCategoryFormat => {
            "btn btn-secondary btn-sm"
        },
        ActionKind::MoveThread => {
            "btn btn-secondary btn-sm"
        },
        ActionKind::MoveCategoryUp => {
            "btn btn-ghost btn-sm"
        },
        ActionKind::MoveCategoryDown => {
            "btn btn-ghost btn-sm"
        },
        ActionKind::Lock => {
            "btn btn-secondary btn-sm"
        },
        ActionKind::Unlock => {
            "btn btn-secondary btn-sm"
        },
        ActionKind::Pin => {
            "btn btn-secondary btn-sm"
        },
        ActionKind::Unpin => {
            "btn btn-secondary btn-sm"
        },
        ActionKind::AddBan => {
            "btn btn-danger"
        },
        ActionKind::Unban => {
            "btn btn-secondary btn-sm"
        },
        ActionKind::PublishThread => {
            "btn btn-primary"
        },
        ActionKind::SaveThread => {
            "btn btn-primary"
        },
        ActionKind::SaveReply => {
            "btn btn-primary"
        },
        ActionKind::PostReply => {
            "btn btn-primary"
        },
        ActionKind::PostAnswer => {
            "btn btn-primary"
        },
        ActionKind::ToggleReaction => {
            "ag-react"
        },
    }
}

/// A non-mutating link.
pub open spec fn link_action_html(a: &LinkActionVM) -> Seq<char> {
    r#"<a class=""#@ + action_class_text(a.label_kind) + r#"" href=""#@ + o_html(&a.href) + r#"">"#@
        + action_label_text(a.label_kind) + "</a>"@
}

/// A non-mutating link.
pub(crate) fn link_action(a: &LinkActionVM) -> (out: String)
    ensures
        out@ == link_action_html(a),
{
    let mut out: String = r#"<a class=""#.to_owned();
    out.append(action_class(a.label_kind));
    out.append(r#"" href=""#);
    out.append(o(&a.href).as_str());
    out.append(r#"">"#);
    out.append(action_label(a.label_kind));
    out.append("</a>");
    out
}

/// A CSRF-guarded POST form.
pub open spec fn form_action_html(a: &FormActionVM) -> Seq<char> {
    r#"<form class="inline-form" method="post" action=""#@ + o_html(&a.action) + r#"">"#@
        + hidden_inputs_html(a.csrf.0@, a.fields@) + r#"<button class=""#@
        + action_class_text(a.label_kind) + r#"" type="submit">"#@ + action_label_text(a.label_kind)
        + "</button></form>"@
}

/// A CSRF-guarded POST form.
pub(crate) fn form_action(a: &FormActionVM) -> (out: String)
    ensures
        out@ == form_action_html(a),
{
    let mut out: String = r#"<form class="inline-form" method="post" action=""#.to_owned();
    out.append(o(&a.action).as_str());
    out.append(r#"">"#);
    out.append(hidden_inputs(a.csrf.0.as_str(), &a.fields).as_str());
    out.append(r#"<button class=""#);
    out.append(action_class(a.label_kind));
    out.append(r#"" type="submit">"#);
    out.append(action_label(a.label_kind));
    out.append("</button></form>");
    out
}

/// A link, when there is one.
pub open spec fn link_action_opt_html(a: &Option<LinkActionVM>) -> Seq<char> {
    (match *a {
        Some(link) => {
            link_action_html(&link)
        },
        None => {
            Seq::<char>::empty()
        },
    })
}

/// A link, when there is one.
pub(crate) fn link_action_opt(a: &Option<LinkActionVM>) -> (out: String)
    ensures
        out@ == link_action_opt_html(a),
{
    match a {
        Some(link) => {
            link_action(link)
        },
        None => {
            String::new()
        },
    }
}

/// A form, when there is one.
pub open spec fn form_action_opt_html(a: &Option<FormActionVM>) -> Seq<char> {
    (match *a {
        Some(form) => {
            form_action_html(&form)
        },
        None => {
            Seq::<char>::empty()
        },
    })
}

/// A form, when there is one.
pub(crate) fn form_action_opt(a: &Option<FormActionVM>) -> (out: String)
    ensures
        out@ == form_action_opt_html(a),
{
    match a {
        Some(form) => {
            form_action(form)
        },
        None => {
            String::new()
        },
    }
}

/// The route of a thread.
pub open spec fn thread_href_text(id: &Opaque) -> Seq<char> {
    "/t/"@ + id.0@
}

/// The route of a thread. It is escaped where it is shown.
pub(crate) fn thread_href(id: &Opaque) -> (out: String)
    ensures
        out@ == thread_href_text(id),
{
    "/t/".to_owned().concat(id.0.as_str())
}

/// The route of a category.
pub open spec fn category_href_text(id: &Opaque) -> Seq<char> {
    "/c/"@ + id.0@
}

/// The route of a category. It is escaped where it is shown.
pub(crate) fn category_href(id: &Opaque) -> (out: String)
    ensures
        out@ == category_href_text(id),
{
    "/c/".to_owned().concat(id.0.as_str())
}

/// A marker of private state.
pub open spec fn private_marker_html(modifier: Seq<char>, label: Seq<char>) -> Seq<char> {
    r#"<span class="ag-mark ag-key-private ag-mark--"#@ + modifier + r#"">"#@ + escape_text(label)
        + "</span>"@
}

/// A marker of private state.
pub(crate) fn private_marker(modifier: &str, label: &str) -> (out: String)
    ensures
        out@ == private_marker_html(modifier@, label@),
{
    let mut out: String = r#"<span class="ag-mark ag-key-private ag-mark--"#.to_owned();
    out.append(modifier);
    out.append(r#"">"#);
    out.append(escape(label).as_str());
    out.append("</span>");
    out
}

/// The relationship to a thread as a private marker; none renders nothing.
pub open spec fn follow_marker_html(level: ThreadFollowLevelVM) -> Seq<char> {
    (match level {
        ThreadFollowLevelVM::Unset => {
            Seq::<char>::empty()
        },
        ThreadFollowLevelVM::Watch => {
            private_marker_html("watch"@, "Watching"@)
        },
        ThreadFollowLevelVM::Follow => {
            private_marker_html("follow"@, "Following"@)
        },
        ThreadFollowLevelVM::Mute => {
            private_marker_html("mute"@, "Muted"@)
        },
    })
}

/// The relationship to a thread as a private marker; none renders nothing.
pub(crate) fn follow_marker(level: ThreadFollowLevelVM) -> (out: String)
    ensures
        out@ == follow_marker_html(level),
{
    match level {
        ThreadFollowLevelVM::Unset => {
            String::new()
        },
        ThreadFollowLevelVM::Watch => {
            private_marker("watch", "Watching")
        },
        ThreadFollowLevelVM::Follow => {
            private_marker("follow", "Following")
        },
        ThreadFollowLevelVM::Mute => {
            private_marker("mute", "Muted")
        },
    }
}

/// How many posts are unread.
pub open spec fn unread_label_text(n: i64) -> Seq<char> {
    (if n == 1 {
        "1 unread"@
    } else {
        decimal_text(n as int) + " unread"@
    })
}

/// How many posts are unread.
pub(crate) fn unread_label(n: i64) -> (out: String)
    ensures
        out@ == unread_label_text(n),
{
    if n == 1 {
        "1 unread".to_owned()
    } else {
        let mut out: String = decimal(n);
        out.append(" unread");
        out
    }
}

/// The number of unread posts as a private marker; none renders nothing.
pub open spec fn unread_marker_html(count: Option<i64>) -> Seq<char> {
    (match count {
        Some(n) => {
            (if n > 0 {
                private_marker_html("unread"@, unread_label_text(n))
            } else {
                Seq::<char>::empty()
            })
        },
        None => {
            Seq::<char>::empty()
        },
    })
}

/// The number of unread posts as a private marker; none renders nothing.
pub(crate) fn unread_marker(count: Option<i64>) -> (out: String)
    ensures
        out@ == unread_marker_html(count),
{
    match count {
        Some(n) => {
            if n > 0 {
                private_marker("unread", unread_label(n).as_str())
            } else {
                String::new()
            }
        },
        None => {
            String::new()
        },
    }
}

/// The bookmark as a private marker; none renders nothing.
pub open spec fn bookmark_marker_html(on: Option<bool>) -> Seq<char> {
    (match on {
        Some(saved) => {
            (if saved {
                private_marker_html("bookmark"@, "Bookmarked"@)
            } else {
                Seq::<char>::empty()
            })
        },
        None => {
            Seq::<char>::empty()
        },
    })
}

/// The bookmark as a private marker; none renders nothing.
pub(crate) fn bookmark_marker(on: Option<bool>) -> (out: String)
    ensures
        out@ == bookmark_marker_html(on),
{
    match on {
        Some(saved) => {
            if saved {
                private_marker("bookmark", "Bookmarked")
            } else {
                String::new()
            }
        },
        None => {
            String::new()
        },
    }
}

/// A private link to where the viewer left off.
pub open spec fn resume_link_html(href: &Option<Opaque>) -> Seq<char> {
    (match *href {
        Some(h) => {
            r#"<a class="ag-mark ag-key-private ag-mark--resume" href=""#@ + o_html(&h)
                + r#"">Resume</a>"#@
        },
        None => {
            Seq::<char>::empty()
        },
    })
}

/// A private link to where the viewer left off.
pub(crate) fn resume_link(href: &Option<Opaque>) -> (out: String)
    ensures
        out@ == resume_link_html(href),
{
    match href {
        Some(h) => {
            let mut out: String = r#"<a class="ag-mark ag-key-private ag-mark--resume" href=""#.to_owned();
            out.append(o(h).as_str());
            out.append(r#"">Resume</a>"#);
            out
        },
        None => {
            String::new()
        },
    }
}

/// The kind of a thread and, for a question, its answer state.
pub open spec fn shared_chips_html(kind: ThreadKind, answer_state: AnswerState) -> Seq<char> {
    kind_chip_html(kind) + (if kind == ThreadKind::Question {
        answer_state_chip_html(answer_state)
    } else {
        ""@
    })
}

/// The kind of a thread and, for a question, its answer state.
pub(crate) fn shared_chips(kind: ThreadKind, answer_state: AnswerState) -> (out: String)
    ensures
        out@ == shared_chips_html(kind, answer_state),
{
    let mut out: String = kind_chip(kind).to_owned();
    let part = if kind == ThreadKind::Question {
        answer_state_chip(answer_state)
    } else {
        ""
    };
    out.append(part);
    out
}

/// The reply count behind a separator; an unknown count renders nothing.
pub open spec fn replies_suffix_html(post_count: Option<i64>) -> Seq<char> {
    (match post_count {
        Some(count) => {
            " · "@ + escape_text(replies_label_text(count))
        },
        None => {
            Seq::<char>::empty()
        },
    })
}

/// The reply count behind a separator; an unknown count renders nothing.
pub(crate) fn replies_suffix(post_count: Option<i64>) -> (out: String)
    ensures
        out@ == replies_suffix_html(post_count),
{
    match post_count {
        Some(count) => {
            let mut out: String = " · ".to_owned();
            out.append(escape(replies_label(count).as_str()).as_str());
            out
        },
        None => {
            String::new()
        },
    }
}

/// The category of a row.
pub open spec fn row_category_html(category: &Option<CategoryRefVM>) -> Seq<char> {
    (match *category {
        Some(c) => {
            r#" <span class="ag-row__cat">in <a href=""#@ + escape_text(category_href_text(&c.id))
                + r#"">"#@ + t_html(&c.name) + "</a></span>"@
        },
        None => {
            Seq::<char>::empty()
        },
    })
}

/// The category of a row.
pub(crate) fn row_category(category: &Option<CategoryRefVM>) -> (out: String)
    ensures
        out@ == row_category_html(category),
{
    match category {
        Some(c) => {
            let mut out: String = r#" <span class="ag-row__cat">in <a href=""#.to_owned();
            out.append(escape(category_href(&c.id).as_str()).as_str());
            out.append(r#"">"#);
            out.append(t(&c.name).as_str());
            out.append("</a></span>");
            out
        },
        None => {
            String::new()
        },
    }
}

/// The private markers of a row.
pub open spec fn row_marks_html(viewer: &ThreadRowViewerState) -> Seq<char> {
    (match viewer.follow_level {
        Some(level) => {
            follow_marker_html(level)
        },
        None => {
            Seq::<char>::empty()
        },
    }) + bookmark_marker_html(viewer.bookmarked) + unread_marker_html(viewer.unread_count) + resume_link_html(&viewer.resume_href)
}

/// The private markers of a row.
pub(crate) fn row_marks(viewer: &ThreadRowViewerState) -> (out: String)
    ensures
        out@ == row_marks_html(viewer),
{
    let mut out: String = match viewer.follow_level {
        Some(level) => {
            follow_marker(level)
        },
        None => {
            String::new()
        },
    };
    out.append(bookmark_marker(viewer.bookmarked).as_str());
    out.append(unread_marker(viewer.unread_count).as_str());
    out.append(resume_link(&viewer.resume_href).as_str());
    out
}

/// One thread row: shared facts on a solid keyline, then the private overlay on a dashed one.
pub open spec fn thread_row_html(shared: &ThreadRowShared, viewer: &ThreadRowViewerState, now: i64) -> Seq<char> {
    let marks = row_marks_html(viewer);
    r#"<li class="ag-row ag-key-shared">
  <div class="ag-row__body">
    <div class="ag-row__chips">"#@ + shared_chips_html(shared.kind, shared.answer_state)
        + (if shared.pinned {
        shared_flag_html("pinned"@, "Pinned"@)
    } else {
        Seq::<char>::empty()
    }) + (if shared.locked {
        shared_flag_html("locked"@, "Locked"@)
    } else {
        Seq::<char>::empty()
    }) + r#"</div>
    <a class="ag-row__title" href=""#@ + escape_text(thread_href_text(&shared.id)) + r#"">"#@ + t_html(&shared.title) + r#"</a>
    <p class="ag-row__by">"#@ + monogram_html(shared.author_display.0@) + r#" <span class="ag-row__author">"#@ + t_html(&shared.author_display) + "</span>"@ + row_category_html(&shared.category) + " · started "@ + time_el_html(shared.created_at, now) + replies_suffix_html(shared.post_count) + " · latest "@ + time_el_html(shared.last_at, now) + r#"</p>
    "#@ + (if marks.len() == 0 {
        Seq::<char>::empty()
    } else {
        r#"<p class="ag-row__mine ag-key-private">"#@ + marks + "</p>"@
    }) + r#"
  </div>
</li>"#@
}

/// One thread row: shared facts on a solid keyline, then the private overlay on a dashed one.
pub(crate) fn thread_row(shared: &ThreadRowShared, viewer: &ThreadRowViewerState, now: i64) -> (out: String)
    ensures
        out@ == thread_row_html(shared, viewer, now),
{
    let marks: String = row_marks(viewer);
    let mut out: String = r#"<li class="ag-row ag-key-shared">
  <div class="ag-row__body">
    <div class="ag-row__chips">"#.to_owned();
    out.append(shared_chips(shared.kind, shared.answer_state).as_str());
    let part = if shared.pinned {
        shared_flag("pinned", "Pinned")
    } else {
        String::new()
    };
    out.append(part.as_str());
    let part = if shared.locked {
        shared_flag("locked", "Locked")
    } else {
        String::new()
    };
    out.append(part.as_str());
    out.append(r#"</div>
    <a class="ag-row__title" href=""#);
    out.append(escape(thread_href(&shared.id).as_str()).as_str());
    out.append(r#"">"#);
    out.append(t(&shared.title).as_str());
    out.append(r#"</a>
    <p class="ag-row__by">"#);
    out.append(monogram(shared.author_display.0.as_str()).as_str());
    out.append(r#" <span class="ag-row__author">"#);
    out.append(t(&shared.author_display).as_str());
    out.append("</span>");
    out.append(row_category(&shared.category).as_str());
    out.append(" · started ");
    out.append(time_el(shared.created_at, now).as_str());
    out.append(replies_suffix(shared.post_count).as_str());
    out.append(" · latest ");
    out.append(time_el(shared.last_at, now).as_str());
    out.append(r#"</p>
    "#);
    let part = if marks.as_str().is_empty() {
        String::new()
    } else {
        let mut out: String = r#"<p class="ag-row__mine ag-key-private">"#.to_owned();
        out.append(marks.as_str());
        out.append("</p>");
        out
    };
    out.append(part.as_str());
    out.append(r#"
  </div>
</li>"#);
    out
}

/// A list of rows, or the note that stands in for it.
pub open spec fn thread_list_html(rows: Seq<char>, empty: Option<Seq<char>>) -> Seq<char> {
    match empty {
        Some(note) => note,
        None => "<ul class=\"thread-list ag-terrace__list\">"@ + rows + "</ul>"@,
    }
}

/// A list of rows, or the note that stands in for it.
pub(crate) fn thread_list(rows: &str, empty: Option<String>) -> (out: String)
    ensures
        out@ == thread_list_html(rows@, opt(empty)),
{
    match empty {
        Some(note) => note,
        None => {
            let mut out: String = "<ul class=\"thread-list ag-terrace__list\">".to_owned();
            out.append(rows);
            out.append("</ul>");
            out
        },
    }
}

/// A sanitized quotation from the same thread; its body is emitted verbatim.
pub open spec fn quote_block_html(q: &QuoteVM, now: i64) -> Seq<char> {
    r#"<blockquote class="ag-quote ag-key-shared"><cite class="ag-quote__cite">"#@
        + t_html(&q.author_display) + " · "@ + time_el_html(q.created_at, now)
        + r#"</cite><div class="ag-md">"#@ + q.body.0@ + "</div></blockquote>"@
}

/// A sanitized quotation from the same thread; its body is emitted verbatim.
pub(crate) fn quote_block(q: &QuoteVM, now: i64) -> (out: String)
    ensures
        out@ == quote_block_html(q, now),
{
    let mut out: String = r#"<blockquote class="ag-quote ag-key-shared"><cite class="ag-quote__cite">"#.to_owned();
    out.append(t(&q.author_display).as_str());
    out.append(" · ");
    out.append(time_el(q.created_at, now).as_str());
    out.append(r#"</cite><div class="ag-md">"#);
    out.append(q.body.0.as_str());
    out.append("</div></blockquote>");
    out
}

/// The reactions of a post.
pub open spec fn reaction_items_html(rs: Seq<ReactionVM>) -> Seq<char>
    decreases rs.len(),
{
    if rs.len() == 0 {
        Seq::empty()
    } else {
        let item = rs.last();
        reaction_items_html(rs.drop_last()) + ((match item.toggle {
            Some(a) => {
                r#"<form class="inline-form" method="post" action=""#@ + o_html(&a.action)
                    + r#"">"#@ + hidden_inputs_html(a.csrf.0@, a.fields@)
                    + r#"<button class="ag-react"#@ + (if item.mine == Some(true) {
                    " is-mine"@
                } else {
                    ""@
                }) + r#"" type="submit" aria-pressed=""#@ + (if item.mine == Some(true) {
                    "true"@
                } else {
                    "false"@
                }) + r#"">"#@ + t_html(&item.kind) + r#" <span class="ag-react__count">"#@ + decimal_text(item.count as int) + "</span>"@ + (if item.mine == Some(true) {
                    r#" <span class="ag-react__mine">· yours</span>"#@
                } else {
                    ""@
                }) + "</button></form>"@
            },
            None => {
                r#"<span class="ag-react is-static">"#@ + t_html(&item.kind)
                    + r#" <span class="ag-react__count">"#@ + decimal_text(item.count as int)
                    + "</span>"@ + (if item.mine == Some(true) {
                    r#" <span class="ag-react__mine">· yours</span>"#@
                } else {
                    ""@
                }) + "</span>"@
            },
        }))
    }
}

/// The reactions of a post.
pub(crate) fn reaction_items(rs: &Vec<ReactionVM>) -> (out: String)
    ensures
        out@ == reaction_items_html(rs@),
{
    let mut out = String::new();
    let mut i: usize = 0;
    assert(out@ =~= reaction_items_html(rs@.take(0)));
    while i < rs.len()
        invariant
            0 <= i <= rs@.len(),
            out@ == reaction_items_html(rs@.take(i as int)),
        decreases rs@.len() - i,
    {
        assert(rs@.take(i + 1).drop_last() =~= rs@.take(i as int));
        let item = &rs[i];
        let part: String = match &item.toggle {
            Some(a) => {
                let mut out: String = r#"<form class="inline-form" method="post" action=""#.to_owned();
                out.append(o(&a.action).as_str());
                out.append(r#"">"#);
                out.append(hidden_inputs(a.csrf.0.as_str(), &a.fields).as_str());
                out.append(r#"<button class="ag-react"#);
                let part = if is_true(item.mine) {
                    " is-mine"
                } else {
                    ""
                };
                out.append(part);
                out.append(r#"" type="submit" aria-pressed=""#);
                let part = if is_true(item.mine) {
                    "true"
                } else {
                    "false"
                };
                out.append(part);
                out.append(r#"">"#);
                out.append(t(&item.kind).as_str());
                out.append(r#" <span class="ag-react__count">"#);
                out.append(decimal(item.count).as_str());
                out.append("</span>");
                let part = if is_true(item.mine) {
                    r#" <span class="ag-react__mine">· yours</span>"#
                } else {
                    ""
                };
                out.append(part);
                out.append("</button></form>");
                out
            },
            None => {
                let mut out: String = r#"<span class="ag-react is-static">"#.to_owned();
                out.append(t(&item.kind).as_str());
                out.append(r#" <span class="ag-react__count">"#);
                out.append(decimal(item.count).as_str());
                out.append("</span>");
                let part = if is_true(item.mine) {
                    r#" <span class="ag-react__mine">· yours</span>"#
                } else {
                    ""
                };
                out.append(part);
                out.append("</span>");
                out
            },
        };
        out.append(part.as_str());
        i = i + 1;
    }
    assert(rs@.take(i as int) =~= rs@);
    out
}

/// The reactions of a post; the own one is marked by more than colour.
pub open spec fn reactions_row_html(rs: Seq<ReactionVM>) -> Seq<char> {
    (if rs.len() == 0 {
        Seq::<char>::empty()
    } else {
        r#"<div class="ag-reactions" role="group" aria-label="Reactions">"#@
            + reaction_items_html(rs) + "</div>"@
    })
}

/// The reactions of a post; the own one is marked by more than colour.
pub(crate) fn reactions_row(rs: &Vec<ReactionVM>) -> (out: String)
    ensures
        out@ == reactions_row_html(rs@),
{
    if rs.len() == 0 {
        String::new()
    } else {
        let mut out: String = r#"<div class="ag-reactions" role="group" aria-label="Reactions">"#.to_owned();
        out.append(reaction_items(rs).as_str());
        out.append("</div>");
        out
    }
}

/// The review entries of a post.
pub open spec fn review_links_html(reviews: Seq<LinkActionVM>) -> Seq<char>
    decreases reviews.len(),
{
    if reviews.len() == 0 {
        Seq::empty()
    } else {
        let item = reviews.last();
        review_links_html(reviews.drop_last()) + (link_action_html(&item))
    }
}

/// The review entries of a post.
pub(crate) fn review_links(reviews: &Vec<LinkActionVM>) -> (out: String)
    ensures
        out@ == review_links_html(reviews@),
{
    let mut out = String::new();
    let mut i: usize = 0;
    assert(out@ =~= review_links_html(reviews@.take(0)));
    while i < reviews.len()
        invariant
            0 <= i <= reviews@.len(),
            out@ == review_links_html(reviews@.take(i as int)),
        decreases reviews@.len() - i,
    {
        assert(reviews@.take(i + 1).drop_last() =~= reviews@.take(i as int));
        let item = &reviews[i];
        let part: String = link_action(item);
        out.append(part.as_str());
        i = i + 1;
    }
    assert(reviews@.take(i as int) =~= reviews@);
    out
}

/// The label of a saved bookmark.
pub open spec fn saved_label_text(state: SavedBookmarkStateVM) -> Seq<char> {
    (match state {
        SavedBookmarkStateVM::Saved => {
            "Saved"@
        },
        SavedBookmarkStateVM::Due => {
            "Saved · Due"@
        },
        SavedBookmarkStateVM::Scheduled => {
            "Saved · Scheduled"@
        },
    })
}

/// The label of a saved bookmark.
pub(crate) fn saved_label(state: SavedBookmarkStateVM) -> (out: &'static str)
    ensures
        out@ == saved_label_text(state),
{
    match state {
        SavedBookmarkStateVM::Saved => {
            "Saved"
        },
        SavedBookmarkStateVM::Due => {
            "Saved · Due"
        },
        SavedBookmarkStateVM::Scheduled => {
            "Saved · Scheduled"
        },
    }
}

/// The accessible label of a saved bookmark.
pub open spec fn saved_aria_text(state: SavedBookmarkStateVM) -> Seq<char> {
    (match state {
        SavedBookmarkStateVM::Saved => {
            "Edit saved bookmark"@
        },
        SavedBookmarkStateVM::Due => {
            "Edit saved bookmark, due"@
        },
        SavedBookmarkStateVM::Scheduled => {
            "Edit saved bookmark, scheduled"@
        },
    })
}

/// The accessible label of a saved bookmark.
pub(crate) fn saved_aria(state: SavedBookmarkStateVM) -> (out: &'static str)
    ensures
        out@ == saved_aria_text(state),
{
    match state {
        SavedBookmarkStateVM::Saved => {
            "Edit saved bookmark"
        },
        SavedBookmarkStateVM::Due => {
            "Edit saved bookmark, due"
        },
        SavedBookmarkStateVM::Scheduled => {
            "Edit saved bookmark, scheduled"
        },
    }
}

/// The bookmark control of a post.
pub open spec fn bookmark_action_html(bookmark: &Option<PostBookmarkActionVM>) -> Seq<char> {
    (match *bookmark {
        Some(PostBookmarkActionVM::Save(save)) => {
            form_action_html(&save)
        },
        Some(PostBookmarkActionVM::Saved {
            edit, state
        }) => {
            r#"<a class="btn btn-ghost btn-sm ag-post-bookmark is-saved" href=""#@
                + o_html(&edit.href) + r#"" aria-label=""#@ + escape_text(saved_aria_text(state))
                + r#"">"#@ + escape_text(saved_label_text(state)) + "</a>"@
        },
        None => {
            Seq::<char>::empty()
        },
    })
}

/// The bookmark control of a post.
pub(crate) fn bookmark_action(bookmark: &Option<PostBookmarkActionVM>) -> (out: String)
    ensures
        out@ == bookmark_action_html(bookmark),
{
    match bookmark {
        Some(PostBookmarkActionVM::Save(save)) => {
            form_action(save)
        },
        Some(PostBookmarkActionVM::Saved {
            edit, state
        }) => {
            let mut out: String = r#"<a class="btn btn-ghost btn-sm ag-post-bookmark is-saved" href=""#.to_owned();
            out.append(o(&edit.href).as_str());
            out.append(r#"" aria-label=""#);
            out.append(escape(saved_aria(*state)).as_str());
            out.append(r#"">"#);
            out.append(escape(saved_label(*state)).as_str());
            out.append("</a>");
            out
        },
        None => {
            String::new()
        },
    }
}

/// The controls of a post, in a stable order.
pub open spec fn post_actions_html(a: &PostActionsVM) -> Seq<char> {
    form_action_opt_html(&a.accept) + form_action_opt_html(&a.remove_solution)
        + link_action_opt_html(&a.quote) + bookmark_action_html(&a.bookmark)
        + link_action_opt_html(&a.edit) + review_links_html(a.delete_reviews@)
}

/// The controls of a post, in a stable order.
pub(crate) fn post_actions(a: &PostActionsVM) -> (out: String)
    ensures
        out@ == post_actions_html(a),
{
    let mut out: String = form_action_opt(&a.accept);
    out.append(form_action_opt(&a.remove_solution).as_str());
    out.append(link_action_opt(&a.quote).as_str());
    out.append(bookmark_action(&a.bookmark).as_str());
    out.append(link_action_opt(&a.edit).as_str());
    out.append(review_links(&a.delete_reviews).as_str());
    out
}

/// The private markers of a post.
pub open spec fn post_marks_html(viewer: &PostViewerState) -> Seq<char> {
    bookmark_marker_html(viewer.bookmarked) + (if viewer.unread == Some(true) {
        private_marker_html("unread"@, "Unread"@)
    } else {
        Seq::<char>::empty()
    })
}

/// The private markers of a post.
pub(crate) fn post_marks(viewer: &PostViewerState) -> (out: String)
    ensures
        out@ == post_marks_html(viewer),
{
    let mut out: String = bookmark_marker(viewer.bookmarked);
    let part = if is_true(viewer.unread) {
        private_marker("unread", "Unread")
    } else {
        String::new()
    };
    out.append(part.as_str());
    out
}

/// One post: its shared truth, its private overlays, and its controls. The body is emitted verbatim.
pub open spec fn post_html(p: &PostVM, now: i64) -> Seq<char> {
    let marks = post_marks_html(&p.viewer);
    let anchor = "post-"@ + o_html(&p.id);
    (match p.viewer.resume_anchor {
        Some(a) => {
            r#"<div class="ag-first-unread ag-key-private" id=""#@ + o_html(&a)
                + r#"" role="separator" tabindex="-1"><span>First unread</span></div>"#@
        },
        None => {
            Seq::<char>::empty()
        },
    }) + r#"<article class="ag-post ag-key-shared"#@ + (if p.is_op {
        " ag-post--op"@
    } else {
        ""@
    }) + r#"" id=""#@ + anchor + r#"">
  <header class="ag-post__head">
    "#@ + monogram_html(p.author_display.0@) + r#"
    <div class="ag-post__ident">
      <span class="ag-post__author">"#@ + t_html(&p.author_display) + r#"</span>
      <span class="ag-post__meta">"#@ + (if p.is_op {
        r#"<span class="badge ag-chip-shared ag-op-badge">Original post</span>"#@
    } else {
        ""@
    }) + " "@ + time_el_html(p.created_at, now) + r##" <a class="ag-permalink" href="#"##@ + anchor + r#"">Permalink</a></span>
    </div>
    "#@ + (if marks.len() == 0 {
        Seq::<char>::empty()
    } else {
        r#"<div class="ag-post__mine ag-key-private">"#@ + marks + "</div>"@
    }) + r#"
  </header>
  "#@ + (match p.quote {
        Some(q) => {
            quote_block_html(&q, now)
        },
        None => {
            Seq::<char>::empty()
        },
    }) + r#"
  <div class="ag-md">"#@ + p.body.0@ + r#"</div>
  <footer class="ag-post__foot">
    "#@ + reactions_row_html(p.reactions@) + r#"
    <div class="ag-post__actions">"#@ + post_actions_html(&p.actions) + r#"</div>
  </footer>
</article>"#@
}

/// One post: its shared truth, its private overlays, and its controls. The body is emitted verbatim.
pub(crate) fn post(p: &PostVM, now: i64) -> (out: String)
    ensures
        out@ == post_html(p, now),
{
    let marks: String = post_marks(&p.viewer);
    let anchor: String = {
        let mut out: String = "post-".to_owned();
        out.append(o(&p.id).as_str());
        out
    };
    let mut out: String = match &p.viewer.resume_anchor {
        Some(a) => {
            let mut out: String = r#"<div class="ag-first-unread ag-key-private" id=""#.to_owned();
            out.append(o(a).as_str());
            out.append(r#"" role="separator" tabindex="-1"><span>First unread</span></div>"#);
            out
        },
        None => {
            String::new()
        },
    };
    out.append(r#"<article class="ag-post ag-key-shared"#);
    let part = if p.is_op {
        " ag-post--op"
    } else {
        ""
    };
    out.append(part);
    out.append(r#"" id=""#);
    out.append(anchor.as_str());
    out.append(r#"">
  <header class="ag-post__head">
    "#);
    out.append(monogram(p.author_display.0.as_str()).as_str());
    out.append(r#"
    <div class="ag-post__ident">
      <span class="ag-post__author">"#);
    out.append(t(&p.author_display).as_str());
    out.append(r#"</span>
      <span class="ag-post__meta">"#);
    let part = if p.is_op {
        r#"<span class="badge ag-chip-shared ag-op-badge">Original post</span>"#
    } else {
        ""
    };
    out.append(part);
    out.append(" ");
    out.append(time_el(p.created_at, now).as_str());
    out.append(r##" <a class="ag-permalink" href="#"##);
    out.append(anchor.as_str());
    out.append(r#"">Permalink</a></span>
    </div>
    "#);
    let part = if marks.as_str().is_empty() {
        String::new()
    } else {
        let mut out: String = r#"<div class="ag-post__mine ag-key-private">"#.to_owned();
        out.append(marks.as_str());
        out.append("</div>");
        out
    };
    out.append(part.as_str());
    out.append(r#"
  </header>
  "#);
    let part = match &p.quote {
        Some(q) => {
            quote_block(q, now)
        },
        None => {
            String::new()
        },
    };
    out.append(part.as_str());
    out.append(r#"
  <div class="ag-md">"#);
    out.append(p.body.0.as_str());
    out.append(r#"</div>
  <footer class="ag-post__foot">
    "#);
    out.append(reactions_row(&p.reactions).as_str());
    out.append(r#"
    <div class="ag-post__actions">"#);
    out.append(post_actions(&p.actions).as_str());
    out.append(r#"</div>
  </footer>
</article>"#);
    out
}

/// The accepted reply, shown once below the original post, with what acceptance means.
pub open spec fn answer_dais_html(d: &AnswerDaisVM, now: i64) -> Seq<char> {
    r#"<section class="ag-dais ag-key-shared" aria-labelledby="ag-dais-title">
  <h2 class="eyebrow ag-eyebrow" id="ag-dais-title">Answer Dais</h2>
  <p class="ag-dais__caveat">"#@ + escape_text((match d.acceptance {
        AcceptanceMeaning::AcceptedByAskerOrAuthorizedModerator => {
            "Accepted by the asker or an authorized moderator. This marks acceptance, not objective correctness."@
        },
    })) + r#"</p>
  "#@ + post_html(&d.post, now) + r#"
</section>"#@
}

/// The accepted reply, shown once below the original post, with what acceptance means.
pub(crate) fn answer_dais(d: &AnswerDaisVM, now: i64) -> (out: String)
    ensures
        out@ == answer_dais_html(d, now),
{
    let mut out: String = r#"<section class="ag-dais ag-key-shared" aria-labelledby="ag-dais-title">
  <h2 class="eyebrow ag-eyebrow" id="ag-dais-title">Answer Dais</h2>
  <p class="ag-dais__caveat">"#.to_owned();
    out.append(escape(match d.acceptance {
        AcceptanceMeaning::AcceptedByAskerOrAuthorizedModerator => {
            "Accepted by the asker or an authorized moderator. This marks acceptance, not objective correctness."
        },
    }).as_str());
    out.append(r#"</p>
  "#);
    out.append(post(&d.post, now).as_str());
    out.append(r#"
</section>"#);
    out
}

/// A pagination link.
pub open spec fn page_link_html(link: &Option<PageLinkVM>, rel: Seq<char>) -> Seq<char> {
    (match *link {
        Some(l) => {
            r#"<a class="btn btn-secondary btn-sm ag-page__link" rel=""#@ + rel + r#"" href=""#@
                + o_html(&l.href) + r#"">"#@ + t_html(&l.label) + "</a>"@
        },
        None => {
            Seq::<char>::empty()
        },
    })
}

/// A pagination link.
pub(crate) fn page_link(link: &Option<PageLinkVM>, rel: &str) -> (out: String)
    ensures
        out@ == page_link_html(link, rel@),
{
    match link {
        Some(l) => {
            let mut out: String = r#"<a class="btn btn-secondary btn-sm ag-page__link" rel=""#.to_owned();
            out.append(rel);
            out.append(r#"" href=""#);
            out.append(o(&l.href).as_str());
            out.append(r#"">"#);
            out.append(t(&l.label).as_str());
            out.append("</a>");
            out
        },
        None => {
            String::new()
        },
    }
}

/// The exact page state: bound, edge, and links.
pub open spec fn pagination_html(p: &PaginationVM) -> Seq<char> {
    r#"<nav class="ag-page" aria-label="Pagination"><span class="ag-page__bound">Page bound "#@
        + decimal_text(p.visible_limit as int) + "</span>"@ + (if p.at_end {
        r#"<span class="ag-page__edge">End of results</span>"#@
    } else {
        (if p.at_start {
            r#"<span class="ag-page__edge">Beginning of results</span>"#@
        } else {
            ""@
        })
    }) + r#"<span class="ag-page__links">"#@ + (match p.jump {
        Some(l) => {
            r#"<a class="btn btn-ghost btn-sm ag-page__jump" href=""#@ + o_html(&l.href) + r#"">"#@
                + t_html(&l.label) + "</a>"@
        },
        None => {
            Seq::<char>::empty()
        },
    }) + page_link_html(&p.previous, "prev"@) + page_link_html(&p.next, "next"@) + "</span></nav>"@
}

/// The exact page state: bound, edge, and links.
pub(crate) fn pagination(p: &PaginationVM) -> (out: String)
    ensures
        out@ == pagination_html(p),
{
    let mut out: String = r#"<nav class="ag-page" aria-label="Pagination"><span class="ag-page__bound">Page bound "#.to_owned();
    out.append(decimal(p.visible_limit).as_str());
    out.append("</span>");
    let part = if p.at_end {
        r#"<span class="ag-page__edge">End of results</span>"#
    } else {
        if p.at_start {
            r#"<span class="ag-page__edge">Beginning of results</span>"#
        } else {
            ""
        }
    };
    out.append(part);
    out.append(r#"<span class="ag-page__links">"#);
    let part = match &p.jump {
        Some(l) => {
            let mut out: String = r#"<a class="btn btn-ghost btn-sm ag-page__jump" href=""#.to_owned();
            out.append(o(&l.href).as_str());
            out.append(r#"">"#);
            out.append(t(&l.label).as_str());
            out.append("</a>");
            out
        },
        None => {
            String::new()
        },
    };
    out.append(part.as_str());
    out.append(page_link(&p.previous, "prev").as_str());
    out.append(page_link(&p.next, "next").as_str());
    out.append("</span></nav>");
    out
}

/// A status note.
pub open spec fn note_html(title: Seq<char>, body: Seq<char>) -> Seq<char> {
    r#"<div class="card pad empty-card ag-empty" role="status"><p class="empty-title">"#@
        + escape_text(title) + r#"</p><p class="muted">"#@ + escape_text(body) + "</p></div>"@
}

/// A status note.
pub(crate) fn note(title: &str, body: &str) -> (out: String)
    ensures
        out@ == note_html(title@, body@),
{
    let mut out: String = r#"<div class="card pad empty-card ag-empty" role="status"><p class="empty-title">"#.to_owned();
    out.append(escape(title).as_str());
    out.append(r#"</p><p class="muted">"#);
    out.append(escape(body).as_str());
    out.append("</p></div>");
    out
}

/// The note for a list that shows no rows; a ready list has none.
pub open spec fn collection_note_html(state: CollectionState, empty_msg: Seq<char>) -> Option<Seq<char>> {
    match state {
        CollectionState::Ready => None,
        CollectionState::ReadyEmpty => Some(note_html("Nothing here yet"@, empty_msg)),
        CollectionState::End => Some(
            note_html(
                "You've reached the end"@,
                "There are no more items on this page."@,
            ),
        ),
        CollectionState::FilteredZero => Some(
            note_html(
                "No matches for this filter"@,
                "Nothing matches the current filter. Clear it to see more."@,
            ),
        ),
        CollectionState::TooShort => Some(
            note_html(
                "Keep typing"@,
                "The query is too short to run. Add a couple more characters."@,
            ),
        ),
        CollectionState::InvalidCursor => Some(
            note_html(
                "That page link expired"@,
                "The continuation link is no longer valid. Start from the most recent page."@,
            ),
        ),
        CollectionState::Unavailable => Some(
            note_html(
                "Temporarily unavailable"@,
                "This list could not be loaded right now. Try again shortly."@,
            ),
        ),
    }
}

/// The note for a list that shows no rows; a ready list has none.
pub(crate) fn collection_note(state: CollectionState, empty_msg: &str) -> (out: Option<String>)
    ensures
        opt(out) == collection_note_html(state, empty_msg@),
{
    match state {
        CollectionState::Ready => None,
        CollectionState::ReadyEmpty => Some(note("Nothing here yet", empty_msg)),
        CollectionState::End => Some(
            note(
                "You've reached the end",
                "There are no more items on this page.",
            ),
        ),
        CollectionState::FilteredZero => Some(
            note(
                "No matches for this filter",
                "Nothing matches the current filter. Clear it to see more.",
            ),
        ),
        CollectionState::TooShort => Some(
            note(
                "Keep typing",
                "The query is too short to run. Add a couple more characters.",
            ),
        ),
        CollectionState::InvalidCursor => Some(
            note(
                "That page link expired",
                "The continuation link is no longer valid. Start from the most recent page.",
            ),
        ),
        CollectionState::Unavailable => Some(
            note(
                "Temporarily unavailable",
                "This list could not be loaded right now. Try again shortly.",
            ),
        ),
    }
}

/// The note of a list without rows, or nothing.
pub open spec fn empty_note_html(state: CollectionState, empty_msg: Seq<char>) -> Seq<char> {
    match collection_note_html(state, empty_msg) {
        Some(note) => note,
        None => Seq::empty(),
    }
}

/// The note of a list without rows, or nothing.
pub(crate) fn empty_note(state: CollectionState, empty_msg: &str) -> (out: String)
    ensures
        out@ == empty_note_html(state, empty_msg@),
{
    match collection_note(state, empty_msg) {
        Some(note) => note,
        None => String::new(),
    }
}

} // verus!
