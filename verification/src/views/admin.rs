//! The admin console.

use vstd::prelude::*;
use vstd::string::StringExecFns;

use crate::text::{decimal, decimal_len, decimal_text, escape, escape_text};
use crate::view_model::{
    AddBanFormVM, AdminCategoryVM, AdminShared, AdminThreadVM, AdminView, AdminViewerState,
    BannedAuthorVM, CollectionState, CreateCategoryFormVM, ThreadKind,
};
use crate::views::{
    crumbs, crumbs_html, empty_note, empty_note_html, eyebrow, eyebrow_html, form_action,
    form_action_html, form_action_opt, form_action_opt_html, here, here_crumb, hidden_inputs,
    hidden_inputs_html, kind_chip, kind_chip_html, link_action, link_action_html, link_crumb,
    linked, o, o_html, shared_chips, shared_chips_html, t, t_html, thread_href, thread_href_text,
    time_el, time_el_html, trail2,
};
use crate::views::forum::{admin_thread_toolbar, admin_thread_toolbar_html};
use crate::views::personal::{row_byline, row_byline_html};
use crate::views::shell::{ShellAssets, page, page_html};

verus! {

/// The choices of a category format.
pub open spec fn format_options_html(selected: ThreadKind) -> Seq<char> {
    r#"<option value="discussion""#@ + (if selected == ThreadKind::Discussion {
        " selected"@
    } else {
        ""@
    }) + r#">Discussion</option><option value="question""#@ + (if selected == ThreadKind::Question {
        " selected"@
    } else {
        ""@
    }) + ">Question</option>"@
}

/// The choices of a category format.
pub(crate) fn format_options(selected: ThreadKind) -> (out: String)
    ensures
        out@ == format_options_html(selected),
{
    let mut out: String = r#"<option value="discussion""#.to_owned();
    let part = if selected == ThreadKind::Discussion {
        " selected"
    } else {
        ""
    };
    out.append(part);
    out.append(r#">Discussion</option><option value="question""#);
    let part = if selected == ThreadKind::Question {
        " selected"
    } else {
        ""
    };
    out.append(part);
    out.append(">Question</option>");
    out
}

/// The form that creates a category.
pub open spec fn create_category_form_html(f: &CreateCategoryFormVM) -> Seq<char> {
    r#"<form class="ag-form ag-admin-new" method="post" action=""#@ + o_html(&f.submit.action)
        + r#"">"#@ + hidden_inputs_html(f.submit.csrf.0@, f.submit.fields@) + r#"
  <div class="ag-form__row">
    <input type="text" name="id" maxlength=""#@ + decimal_text(f.id_max_chars as int)
        + r#"" value=""#@ + t_html(&f.id)
        + r#"" placeholder="Category ID" aria-label="Category ID" required>
    <input type="text" name="name" maxlength=""#@ + decimal_text(f.name_max_chars as int)
        + r#"" value=""#@ + t_html(&f.name)
        + r#"" placeholder="New category name" aria-label="New category name" required>
    <select name="format" aria-label="Category format">"#@ + format_options_html(f.selected_kind)
        + r#"</select>
    <button class="btn btn-primary" type="submit">Create category</button>
  </div>
</form>"#@
}

/// The form that creates a category.
pub(crate) fn create_category_form(f: &CreateCategoryFormVM) -> (out: String)
    ensures
        out@ == create_category_form_html(f),
{
    let mut out: String = r#"<form class="ag-form ag-admin-new" method="post" action=""#.to_owned();
    out.append(o(&f.submit.action).as_str());
    out.append(r#"">"#);
    out.append(hidden_inputs(f.submit.csrf.0.as_str(), &f.submit.fields).as_str());
    out.append(r#"
  <div class="ag-form__row">
    <input type="text" name="id" maxlength=""#);
    out.append(decimal_len(f.id_max_chars).as_str());
    out.append(r#"" value=""#);
    out.append(t(&f.id).as_str());
    out.append(r#"" placeholder="Category ID" aria-label="Category ID" required>
    <input type="text" name="name" maxlength=""#);
    out.append(decimal_len(f.name_max_chars).as_str());
    out.append(r#"" value=""#);
    out.append(t(&f.name).as_str());
    out.append(r#"" placeholder="New category name" aria-label="New category name" required>
    <select name="format" aria-label="Category format">"#);
    out.append(format_options(f.selected_kind).as_str());
    out.append(r#"</select>
    <button class="btn btn-primary" type="submit">Create category</button>
  </div>
</form>"#);
    out
}

/// The form that renames a category.
pub open spec fn rename_form_html(c: &AdminCategoryVM) -> Seq<char> {
    r#"<form class="inline-form ag-admin-rename" method="post" action=""#@
        + o_html(&c.rename.submit.action) + r#"">"#@
        + hidden_inputs_html(c.rename.submit.csrf.0@, c.rename.submit.fields@)
        + r#"<input type="text" name="name" maxlength=""#@
        + decimal_text(c.rename.name_max_chars as int) + r#"" value=""#@
        + t_html(&c.category.category.name)
        + r#"" aria-label="Rename category"><button class="btn btn-secondary btn-sm" type="submit">Rename</button></form>"#@
}

/// The form that renames a category.
pub(crate) fn rename_form(c: &AdminCategoryVM) -> (out: String)
    ensures
        out@ == rename_form_html(c),
{
    let mut out: String = r#"<form class="inline-form ag-admin-rename" method="post" action=""#.to_owned();
    out.append(o(&c.rename.submit.action).as_str());
    out.append(r#"">"#);
    out.append(hidden_inputs(c.rename.submit.csrf.0.as_str(), &c.rename.submit.fields).as_str());
    out.append(r#"<input type="text" name="name" maxlength=""#);
    out.append(decimal_len(c.rename.name_max_chars).as_str());
    out.append(r#"" value=""#);
    out.append(t(&c.category.category.name).as_str());
    out.append(r#"" aria-label="Rename category"><button class="btn btn-secondary btn-sm" type="submit">Rename</button></form>"#);
    out
}

/// The form that sets the format of a category.
pub open spec fn format_form_html(c: &AdminCategoryVM) -> Seq<char> {
    r#"<form class="inline-form ag-admin-format" method="post" action=""#@
        + o_html(&c.set_format.action) + r#"">"#@
        + hidden_inputs_html(c.set_format.csrf.0@, c.set_format.fields@)
        + r#"<select name="format" aria-label="Category format">"#@
        + format_options_html(c.category.kind)
        + r#"</select><button class="btn btn-secondary btn-sm" type="submit">Set format</button></form>"#@
}

/// The form that sets the format of a category.
pub(crate) fn format_form(c: &AdminCategoryVM) -> (out: String)
    ensures
        out@ == format_form_html(c),
{
    let mut out: String = r#"<form class="inline-form ag-admin-format" method="post" action=""#.to_owned();
    out.append(o(&c.set_format.action).as_str());
    out.append(r#"">"#);
    out.append(hidden_inputs(c.set_format.csrf.0.as_str(), &c.set_format.fields).as_str());
    out.append(r#"<select name="format" aria-label="Category format">"#);
    out.append(format_options(c.category.kind).as_str());
    out.append(r#"</select><button class="btn btn-secondary btn-sm" type="submit">Set format</button></form>"#);
    out
}

/// One category with its controls.
pub open spec fn admin_category_row_html(c: &AdminCategoryVM) -> Seq<char> {
    r#"<li class="ag-admin-row ag-key-shared">
  <div class="ag-admin-row__lead"><span class="ag-admin-row__name">"#@
        + t_html(&c.category.category.name) + "</span>"@ + kind_chip_html(c.category.kind)
        + r#"</div>
  <div class="ag-admin-row__controls">"#@ + rename_form_html(c) + format_form_html(c)
        + form_action_opt_html(&c.move_up) + form_action_opt_html(&c.move_down)
        + link_action_html(&c.delete_review) + r#"</div>
</li>"#@
}

/// One category with its controls.
pub(crate) fn admin_category_row(c: &AdminCategoryVM) -> (out: String)
    ensures
        out@ == admin_category_row_html(c),
{
    let mut out: String = r#"<li class="ag-admin-row ag-key-shared">
  <div class="ag-admin-row__lead"><span class="ag-admin-row__name">"#.to_owned();
    out.append(t(&c.category.category.name).as_str());
    out.append("</span>");
    out.append(kind_chip(c.category.kind));
    out.append(r#"</div>
  <div class="ag-admin-row__controls">"#);
    out.append(rename_form(c).as_str());
    out.append(format_form(c).as_str());
    out.append(form_action_opt(&c.move_up).as_str());
    out.append(form_action_opt(&c.move_down).as_str());
    out.append(link_action(&c.delete_review).as_str());
    out.append(r#"</div>
</li>"#);
    out
}

/// The categories with their controls.
pub open spec fn admin_category_rows_html(cats: Seq<AdminCategoryVM>) -> Seq<char>
    decreases cats.len(),
{
    if cats.len() == 0 {
        Seq::empty()
    } else {
        let item = cats.last();
        admin_category_rows_html(cats.drop_last()) + (admin_category_row_html(&item))
    }
}

/// The categories with their controls.
pub(crate) fn admin_category_rows(cats: &Vec<AdminCategoryVM>) -> (out: String)
    ensures
        out@ == admin_category_rows_html(cats@),
{
    let mut out = String::new();
    let mut i: usize = 0;
    assert(out@ =~= admin_category_rows_html(cats@.take(0)));
    while i < cats.len()
        invariant
            0 <= i <= cats@.len(),
            out@ == admin_category_rows_html(cats@.take(i as int)),
        decreases cats@.len() - i,
    {
        assert(cats@.take(i + 1).drop_last() =~= cats@.take(i as int));
        let item = &cats[i];
        let part: String = admin_category_row(item);
        out.append(part.as_str());
        i = i + 1;
    }
    assert(cats@.take(i as int) =~= cats@);
    out
}

/// The category list of the admin console.
pub open spec fn admin_categories_html(cats: Seq<AdminCategoryVM>) -> Seq<char> {
    (if cats.len() == 0 {
        r#"<p class="muted">No categories yet.</p>"#@
    } else {
        r#"<ul class="ag-admin-list">"#@ + admin_category_rows_html(cats) + "</ul>"@
    })
}

/// The category list of the admin console.
pub(crate) fn admin_categories(cats: &Vec<AdminCategoryVM>) -> (out: String)
    ensures
        out@ == admin_categories_html(cats@),
{
    if cats.len() == 0 {
        r#"<p class="muted">No categories yet.</p>"#.to_owned()
    } else {
        let mut out: String = r#"<ul class="ag-admin-list">"#.to_owned();
        out.append(admin_category_rows(cats).as_str());
        out.append("</ul>");
        out
    }
}

/// One recent thread with its controls.
pub open spec fn admin_thread_row_html(at: &AdminThreadVM, now: i64) -> Seq<char> {
    r#"<li class="ag-admin-row ag-key-shared">
  <div class="ag-admin-row__lead">
    <div class="ag-row__chips">"#@ + shared_chips_html(at.thread.kind, at.thread.answer_state)
        + r#"</div>
    <a class="ag-row__title" href=""#@ + escape_text(thread_href_text(&at.thread.id)) + r#"">"#@
        + t_html(&at.thread.title) + r#"</a>
    <p class="ag-row__by">"#@ + row_byline_html(&at.thread, now) + r#"</p>
  </div>
  "#@ + admin_thread_toolbar_html(&at.toolbar) + r#"
</li>"#@
}

/// One recent thread with its controls.
pub(crate) fn admin_thread_row(at: &AdminThreadVM, now: i64) -> (out: String)
    ensures
        out@ == admin_thread_row_html(at, now),
{
    let mut out: String = r#"<li class="ag-admin-row ag-key-shared">
  <div class="ag-admin-row__lead">
    <div class="ag-row__chips">"#.to_owned();
    out.append(shared_chips(at.thread.kind, at.thread.answer_state).as_str());
    out.append(r#"</div>
    <a class="ag-row__title" href=""#);
    out.append(escape(thread_href(&at.thread.id).as_str()).as_str());
    out.append(r#"">"#);
    out.append(t(&at.thread.title).as_str());
    out.append(r#"</a>
    <p class="ag-row__by">"#);
    out.append(row_byline(&at.thread, now).as_str());
    out.append(r#"</p>
  </div>
  "#);
    out.append(admin_thread_toolbar(&at.toolbar).as_str());
    out.append(r#"
</li>"#);
    out
}

/// The recent threads with their controls.
pub open spec fn admin_thread_rows_html(threads: Seq<AdminThreadVM>, now: i64) -> Seq<char>
    decreases threads.len(),
{
    if threads.len() == 0 {
        Seq::empty()
    } else {
        let item = threads.last();
        admin_thread_rows_html(threads.drop_last(), now) + (admin_thread_row_html(&item, now))
    }
}

/// The recent threads with their controls.
pub(crate) fn admin_thread_rows(threads: &Vec<AdminThreadVM>, now: i64) -> (out: String)
    ensures
        out@ == admin_thread_rows_html(threads@, now),
{
    let mut out = String::new();
    let mut i: usize = 0;
    assert(out@ =~= admin_thread_rows_html(threads@.take(0), now));
    while i < threads.len()
        invariant
            0 <= i <= threads@.len(),
            out@ == admin_thread_rows_html(threads@.take(i as int), now),
        decreases threads@.len() - i,
    {
        assert(threads@.take(i + 1).drop_last() =~= threads@.take(i as int));
        let item = &threads[i];
        let part: String = admin_thread_row(item, now);
        out.append(part.as_str());
        i = i + 1;
    }
    assert(threads@.take(i as int) =~= threads@);
    out
}

/// The thread list of the admin console.
pub open spec fn admin_threads_html(threads: Seq<AdminThreadVM>, now: i64, state: CollectionState) -> Seq<char> {
    (if threads.len() == 0 {
        empty_note_html(state, "No recent threads."@)
    } else {
        r#"<ul class="ag-admin-list">"#@ + admin_thread_rows_html(threads, now) + "</ul>"@
    })
}

/// The thread list of the admin console.
pub(crate) fn admin_threads(threads: &Vec<AdminThreadVM>, now: i64, state: CollectionState) -> (out: String)
    ensures
        out@ == admin_threads_html(threads@, now, state),
{
    if threads.len() == 0 {
        empty_note(state, "No recent threads.")
    } else {
        let mut out: String = r#"<ul class="ag-admin-list">"#.to_owned();
        out.append(admin_thread_rows(threads, now).as_str());
        out.append("</ul>");
        out
    }
}

/// The form that bans an author.
pub open spec fn add_ban_form_html(f: &AddBanFormVM) -> Seq<char> {
    r#"<form class="ag-form ag-admin-ban" method="post" action=""#@ + o_html(&f.submit.action)
        + r#"">"#@ + hidden_inputs_html(f.submit.csrf.0@, f.submit.fields@) + r#"
  <div class="ag-form__row">
    <input type="text" name="author_sub" maxlength=""#@
        + decimal_text(f.author_sub_max_chars as int) + r#"" value=""#@ + t_html(&f.subject_input)
        + r#"" placeholder="Author subject" aria-label="Author subject" required>
    <input type="text" name="reason" maxlength=""#@ + decimal_text(f.reason_max_chars as int)
        + r#"" value=""#@ + t_html(&f.reason)
        + r#"" placeholder="Reason" aria-label="Ban reason" required>
    <button class="btn btn-danger" type="submit">Ban author</button>
  </div>
</form>"#@
}

/// The form that bans an author.
pub(crate) fn add_ban_form(f: &AddBanFormVM) -> (out: String)
    ensures
        out@ == add_ban_form_html(f),
{
    let mut out: String = r#"<form class="ag-form ag-admin-ban" method="post" action=""#.to_owned();
    out.append(o(&f.submit.action).as_str());
    out.append(r#"">"#);
    out.append(hidden_inputs(f.submit.csrf.0.as_str(), &f.submit.fields).as_str());
    out.append(r#"
  <div class="ag-form__row">
    <input type="text" name="author_sub" maxlength=""#);
    out.append(decimal_len(f.author_sub_max_chars).as_str());
    out.append(r#"" value=""#);
    out.append(t(&f.subject_input).as_str());
    out.append(r#"" placeholder="Author subject" aria-label="Author subject" required>
    <input type="text" name="reason" maxlength=""#);
    out.append(decimal_len(f.reason_max_chars).as_str());
    out.append(r#"" value=""#);
    out.append(t(&f.reason).as_str());
    out.append(r#"" placeholder="Reason" aria-label="Ban reason" required>
    <button class="btn btn-danger" type="submit">Ban author</button>
  </div>
</form>"#);
    out
}

/// One banned author.
pub open spec fn banned_author_row_html(b: &BannedAuthorVM, now: i64) -> Seq<char> {
    r#"<li class="ag-admin-row ag-key-shared">
  <div class="ag-admin-row__lead">
    <p class="ag-admin-row__name">"#@ + t_html(&b.author_display) + r#"</p>
    <p class="ag-ban-reason">"#@ + t_html(&b.reason) + r#"</p>
    <p class="ag-row__by muted">Banned by "#@ + t_html(&b.banned_by) + " · "@
        + time_el_html(b.created_at, now) + r#"</p>
  </div>
  <div class="ag-admin-row__controls">"#@ + form_action_html(&b.unban) + r#"</div>
</li>"#@
}

/// One banned author.
pub(crate) fn banned_author_row(b: &BannedAuthorVM, now: i64) -> (out: String)
    ensures
        out@ == banned_author_row_html(b, now),
{
    let mut out: String = r#"<li class="ag-admin-row ag-key-shared">
  <div class="ag-admin-row__lead">
    <p class="ag-admin-row__name">"#.to_owned();
    out.append(t(&b.author_display).as_str());
    out.append(r#"</p>
    <p class="ag-ban-reason">"#);
    out.append(t(&b.reason).as_str());
    out.append(r#"</p>
    <p class="ag-row__by muted">Banned by "#);
    out.append(t(&b.banned_by).as_str());
    out.append(" · ");
    out.append(time_el(b.created_at, now).as_str());
    out.append(r#"</p>
  </div>
  <div class="ag-admin-row__controls">"#);
    out.append(form_action(&b.unban).as_str());
    out.append(r#"</div>
</li>"#);
    out
}

/// The banned authors.
pub open spec fn banned_author_rows_html(bans: Seq<BannedAuthorVM>, now: i64) -> Seq<char>
    decreases bans.len(),
{
    if bans.len() == 0 {
        Seq::empty()
    } else {
        let item = bans.last();
        banned_author_rows_html(bans.drop_last(), now) + (banned_author_row_html(&item, now))
    }
}

/// The banned authors.
pub(crate) fn banned_author_rows(bans: &Vec<BannedAuthorVM>, now: i64) -> (out: String)
    ensures
        out@ == banned_author_rows_html(bans@, now),
{
    let mut out = String::new();
    let mut i: usize = 0;
    assert(out@ =~= banned_author_rows_html(bans@.take(0), now));
    while i < bans.len()
        invariant
            0 <= i <= bans@.len(),
            out@ == banned_author_rows_html(bans@.take(i as int), now),
        decreases bans@.len() - i,
    {
        assert(bans@.take(i + 1).drop_last() =~= bans@.take(i as int));
        let item = &bans[i];
        let part: String = banned_author_row(item, now);
        out.append(part.as_str());
        i = i + 1;
    }
    assert(bans@.take(i as int) =~= bans@);
    out
}

/// The ban list of the admin console.
pub open spec fn banned_authors_html(bans: Seq<BannedAuthorVM>, now: i64) -> Seq<char> {
    (if bans.len() == 0 {
        r#"<p class="muted">No banned authors.</p>"#@
    } else {
        r#"<ul class="ag-admin-list">"#@ + banned_author_rows_html(bans, now) + "</ul>"@
    })
}

/// The ban list of the admin console.
pub(crate) fn banned_authors(bans: &Vec<BannedAuthorVM>, now: i64) -> (out: String)
    ensures
        out@ == banned_authors_html(bans@, now),
{
    if bans.len() == 0 {
        r#"<p class="muted">No banned authors.</p>"#.to_owned()
    } else {
        let mut out: String = r#"<ul class="ag-admin-list">"#.to_owned();
        out.append(banned_author_rows(bans, now).as_str());
        out.append("</ul>");
        out
    }
}

/// The main markup of the admin console.
pub open spec fn admin_main_html(s: &AdminShared, vs: &AdminViewerState) -> Seq<char> {
    r#"<div class="ag-admin">
  "#@ + crumbs_html(seq![linked("Home"@, "/"@), here("Administration"@)]) + r#"
  <header class="pagehead"><div class="ag-head-tools__lead">"#@ + eyebrow_html("Civic Authority"@)
        + r#"<h1 class="ag-head__title">Administration</h1><p class="muted">Every control here required a verified admin group.</p></div></header>
  <section class="ag-admin-sect ag-key-shared" aria-labelledby="ag-admin-categories-title">
    <h2 class="eyebrow ag-eyebrow" id="ag-admin-categories-title">Categories</h2>
    "#@ + create_category_form_html(&vs.create_category) + r#"
    "#@ + admin_categories_html(vs.categories@) + r#"
  </section>
  <section class="ag-admin-sect ag-key-shared" aria-labelledby="ag-admin-threads-title">
    <h2 class="eyebrow ag-eyebrow" id="ag-admin-threads-title">Recent threads</h2>
    <p class="muted ag-desk__bound">Up to "#@ + decimal_text(s.visible_thread_bound as int)
        + r#" recent threads</p>
    "#@ + admin_threads_html(vs.threads@, s.now, s.state) + r#"
  </section>
  <section class="ag-admin-sect ag-key-shared" aria-labelledby="ag-admin-bans-title">
    <h2 class="eyebrow ag-eyebrow" id="ag-admin-bans-title">Banned authors</h2>
    "#@ + add_ban_form_html(&vs.add_ban) + r#"
    "#@ + banned_authors_html(vs.banned_authors@, s.now) + r#"
  </section>
</div>"#@
}

/// The main markup of the admin console.
pub(crate) fn admin_main(s: &AdminShared, vs: &AdminViewerState) -> (out: String)
    ensures
        out@ == admin_main_html(s, vs),
{
    let mut out: String = r#"<div class="ag-admin">
  "#.to_owned();
    out.append(crumbs(&trail2(link_crumb("Home", "/"), here_crumb("Administration"))).as_str());
    out.append(r#"
  <header class="pagehead"><div class="ag-head-tools__lead">"#);
    out.append(eyebrow("Civic Authority").as_str());
    out.append(r#"<h1 class="ag-head__title">Administration</h1><p class="muted">Every control here required a verified admin group.</p></div></header>
  <section class="ag-admin-sect ag-key-shared" aria-labelledby="ag-admin-categories-title">
    <h2 class="eyebrow ag-eyebrow" id="ag-admin-categories-title">Categories</h2>
    "#);
    out.append(create_category_form(&vs.create_category).as_str());
    out.append(r#"
    "#);
    out.append(admin_categories(&vs.categories).as_str());
    out.append(r#"
  </section>
  <section class="ag-admin-sect ag-key-shared" aria-labelledby="ag-admin-threads-title">
    <h2 class="eyebrow ag-eyebrow" id="ag-admin-threads-title">Recent threads</h2>
    <p class="muted ag-desk__bound">Up to "#);
    out.append(decimal(s.visible_thread_bound).as_str());
    out.append(r#" recent threads</p>
    "#);
    out.append(admin_threads(&vs.threads, s.now, s.state).as_str());
    out.append(r#"
  </section>
  <section class="ag-admin-sect ag-key-shared" aria-labelledby="ag-admin-bans-title">
    <h2 class="eyebrow ag-eyebrow" id="ag-admin-bans-title">Banned authors</h2>
    "#);
    out.append(add_ban_form(&vs.add_ban).as_str());
    out.append(r#"
    "#);
    out.append(banned_authors(&vs.banned_authors, s.now).as_str());
    out.append(r#"
  </section>
</div>"#);
    out
}

/// The admin console.
pub open spec fn admin_html(assets: &ShellAssets, v: &AdminView) -> Seq<char> {
    page_html(assets, &v.chrome, admin_main_html(&v.shared, &v.viewer))
}

/// The admin console.
pub fn admin(assets: &ShellAssets, v: &AdminView) -> (out: String)
    ensures
        out@ == admin_html(assets, v),
{
    page(assets, &v.chrome, admin_main(&v.shared, &v.viewer).as_str())
}

} // verus!
