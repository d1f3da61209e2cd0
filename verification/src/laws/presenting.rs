//! Laws of the pages.

use vstd::prelude::*;

use crate::rows::{
    first_index, first_row, lemma_filter_push, lemma_first_index, lemma_first_index_unique,
};
use crate::text::{SlotRow, escape_text, filled_from, occurs_at, slot_row, stands_at};
use crate::view_model::{
    ActivityView, AdminView, AnswerDaisVM, BookmarkEditView, BookmarksView, CatchUpFeedVM,
    CategoryView, ComposeView, FocusView, HomeView, PageChrome, PostVM, SearchView,
    ThreadRowShared, ThreadRowViewerState, ThreadView,
};
use crate::views::{
    bookmark_action_html, form_action_opt_html, link_action_opt_html, reactions_row_html,
    row_marks_html, t_html, thread_row_html,
};
use crate::views::admin::{admin_html, admin_main_html};
use crate::views::forum::{
    category_html, category_main_html, compose_html, compose_main_html, home_html, home_main_html,
    on_dais, reply_posts_html, thread_html, thread_main_html,
};
use crate::views::personal::{
    activity_html, activity_main_html, bookmark_edit_html, bookmark_edit_main_html, bookmarks_html,
    bookmarks_main_html, catch_up_html, catch_up_main_html, focus_html, focus_main_html,
};
use crate::views::search::{search_html, search_main_html};
use crate::views::shell::{
    ShellAssets, activity_button_html, app_bar_html, bookmark_button_html, filled_shell, page_html,
    private_badge_html, shell_slots,
};

verus! {

/// How a response may be cached is not shown on the page.
pub proof fn law_cache_policy_is_not_shown(
    assets: &ShellAssets,
    a: &PageChrome,
    b: &PageChrome,
    main_html: Seq<char>,
)
    requires
        a.title == b.title,
        a.viewer_email == b.viewer_email,
        a.active_nav == b.active_nav,
        a.counts == b.counts,
    ensures
        page_html(assets, a, main_html) == page_html(assets, b, main_html),
{
}

/// Whether a slot's name is two braces, something else than a brace, and no opening brace behind.
spec fn braced(name: Seq<char>) -> bool {
    &&& name.len() >= 3
    &&& name[0] == '{'
    &&& name[1] == '{'
    &&& forall|j: int| 2 <= j < name.len() ==> #[trigger] name[j] != '{'
}

/// The walk over a template reaches every slot that stands in it.
proof fn lemma_reaches(template: Seq<char>, slots: Seq<SlotRow>, name: Seq<char>, i: int, k: int) -> (
    front: Seq<char>)
    requires
        0 <= i <= k,
        braced(name),
        occurs_at(template, name, k),
        forall|j: int| 0 <= j < slots.len() ==> braced(#[trigger] slots[j].name),
    ensures
        filled_from(template, slots, i) == front + filled_from(template, slots, k),
    decreases k - i,
{
    if i == k {
        assert(filled_from(template, slots, k) =~= Seq::empty() + filled_from(template, slots, k));
        Seq::empty()
    } else {
        let which = stands_at(template, i);
        lemma_first_index(slots, which);
        let (text, next) = match first_row(slots, which) {
            Some(x) => {
                if k < i + x.name.len() {
                    let at = template.subrange(i, i + x.name.len());
                    let there = template.subrange(k, k + name.len());
                    assert(at[k - i] == template[k]);
                    assert(there[0] == template[k] && there[1] == template[k + 1]);
                    assert(k - i == 1);
                    assert(at[2] == template[k + 1]);
                }
                (x.text, i + x.name.len())
            },
            None => (seq![template[i]], i + 1),
        };
        let rest = lemma_reaches(template, slots, name, next, k);
        let front = text + rest;
        assert(filled_from(template, slots, i) =~= front + filled_from(template, slots, k));
        front
    }
}

proof fn lemma_shell_slots(
    assets: &ShellAssets,
    app_bar: Seq<char>,
    title: Seq<char>,
    main_html: Seq<char>,
)
    ensures
        ({
            let slots = shell_slots(assets, app_bar, title, main_html);
            &&& slots.len() == 5
            &&& forall|j: int| 0 <= j < slots.len() ==> braced(#[trigger] slots[j].name)
            &&& forall|j: int| 0 <= j < 4 ==> #[trigger] slots[j].name[2] != slots[4].name[2]
            &&& slots[4] == slot_row("{{CONTENT}}"@, main_html)
        }),
{
    reveal_strlit("{{STYLE}}");
    reveal_strlit("{{DYNAMIC}}");
    reveal_strlit("{{APPBAR}}");
    reveal_strlit("{{TITLE}}");
    reveal_strlit("{{CONTENT}}");
}

/// No two slots of the shell have the same letter behind their braces.
proof fn lemma_slot_letters(
    assets: &ShellAssets,
    app_bar: Seq<char>,
    title: Seq<char>,
    main_html: Seq<char>,
)
    ensures
        ({
            let slots = shell_slots(assets, app_bar, title, main_html);
            &&& slots.len() == 5
            &&& slots[0].name[2] == 'S' && slots[1].name[2] == 'D' && slots[2].name[2] == 'A'
            &&& slots[3].name[2] == 'T' && slots[4].name[2] == 'C'
        }),
{
    reveal_strlit("{{STYLE}}");
    reveal_strlit("{{DYNAMIC}}");
    reveal_strlit("{{APPBAR}}");
    reveal_strlit("{{TITLE}}");
    reveal_strlit("{{CONTENT}}");
}

/// A slot of the shell is filled with its text.
proof fn lemma_slot_is_filled(
    assets: &ShellAssets,
    bar: Seq<char>,
    title: Seq<char>,
    main_html: Seq<char>,
    m: int,
    k: int,
) -> (at: int)
    requires
        0 <= m < 5,
        occurs_at(assets.shell@, shell_slots(assets, bar, title, main_html)[m].name, k),
    ensures
        occurs_at(
            filled_shell(assets, bar, title, main_html),
            shell_slots(assets, bar, title, main_html)[m].text,
            at,
        ),
{
    let slots = shell_slots(assets, bar, title, main_html);
    let name = slots[m].name;
    let text = slots[m].text;
    lemma_shell_slots(assets, bar, title, main_html);
    lemma_slot_letters(assets, bar, title, main_html);
    let shell = assets.shell@;
    assert(braced(name));
    let front = lemma_reaches(shell, slots, name, 0, k);
    let which = stands_at(shell, k);
    assert(which(slots[m]));
    assert forall|j: int| 0 <= j < m implies !which(#[trigger] slots[j]) by {
        if which(slots[j]) {
            assert(braced(slots[j].name));
            assert(shell.subrange(k, k + slots[j].name.len())[2] == shell[k + 2]);
            assert(shell.subrange(k, k + name.len())[2] == shell[k + 2]);
        }
    }
    lemma_first_index_unique(slots, which, m);
    let behind = filled_from(shell, slots, k + name.len());
    let at = front.len() as int;
    let whole = front + (text + behind);
    assert(filled_shell(assets, bar, title, main_html) == whole);
    assert(whole.subrange(at, at + text.len()) =~= text);
    at
}

/// A page has its style, its scripts, its bar, its title and its content each where the shell has
/// the slot for it.
pub proof fn law_shell_is_filled(
    assets: &ShellAssets,
    chrome: &PageChrome,
    main_html: Seq<char>,
    k: int,
) -> (at: int)
    ensures
        ({
            let page = page_html(assets, chrome, main_html);
            &&& occurs_at(assets.shell@, "{{STYLE}}"@, k) ==> occurs_at(page, assets.style@, at)
            &&& occurs_at(assets.shell@, "{{DYNAMIC}}"@, k) ==> occurs_at(page, assets.dynamic@, at)
            &&& occurs_at(assets.shell@, "{{APPBAR}}"@, k) ==> occurs_at(
                page,
                app_bar_html(chrome),
                at,
            )
            &&& occurs_at(assets.shell@, "{{TITLE}}"@, k) ==> occurs_at(
                page,
                escape_text(chrome.title.0@),
                at,
            )
            &&& occurs_at(assets.shell@, "{{CONTENT}}"@, k) ==> occurs_at(page, main_html, at)
        }),
{
    let bar = app_bar_html(chrome);
    let title = t_html(&chrome.title);
    let slots = shell_slots(assets, bar, title, main_html);
    let shell = assets.shell@;
    lemma_shell_slots(assets, bar, title, main_html);
    lemma_slot_letters(assets, bar, title, main_html);
    assert forall|i: int, j: int|
        0 <= i < 5 && 0 <= j < 5 && occurs_at(shell, #[trigger] slots[i].name, k) && occurs_at(
            shell,
            #[trigger] slots[j].name,
            k,
        ) implies i == j by {
        assert(braced(slots[i].name) && braced(slots[j].name));
        assert(shell.subrange(k, k + slots[i].name.len())[2] == shell[k + 2]);
        assert(shell.subrange(k, k + slots[j].name.len())[2] == shell[k + 2]);
    }
    if occurs_at(shell, slots[0].name, k) {
        lemma_slot_is_filled(assets, bar, title, main_html, 0, k)
    } else if occurs_at(shell, slots[1].name, k) {
        lemma_slot_is_filled(assets, bar, title, main_html, 1, k)
    } else if occurs_at(shell, slots[2].name, k) {
        lemma_slot_is_filled(assets, bar, title, main_html, 2, k)
    } else if occurs_at(shell, slots[3].name, k) {
        lemma_slot_is_filled(assets, bar, title, main_html, 3, k)
    } else if occurs_at(shell, slots[4].name, k) {
        lemma_slot_is_filled(assets, bar, title, main_html, 4, k)
    } else {
        0
    }
}

/// What stands outside the slots of a template stays as it is.
pub proof fn law_template_stays(template: Seq<char>, slots: Seq<SlotRow>, i: int)
    requires
        0 <= i <= template.len(),
        forall|k: int, x: SlotRow|
            i <= k < template.len() && slots.contains(x) ==> !#[trigger] stands_at(template, k)(x),
    ensures
        filled_from(template, slots, i) == template.skip(i),
    decreases template.len() - i,
{
    if i < template.len() {
        let which = stands_at(template, i);
        lemma_first_index(slots, which);
        if let Some(j) = first_index(slots, which) {
            assert(which(slots[j]));
            assert(slots.contains(slots[j]));
        }
        law_template_stays(template, slots, i + 1);
        assert(seq![template[i]] + template.skip(i + 1) =~= template.skip(i));
    } else {
        assert(template.skip(i) =~= Seq::empty());
    }
}

/// The content of a page stands in it letter for letter, whatever it holds, where the shell has the
/// slot for it.
pub proof fn law_content_stands_as_it_is(
    assets: &ShellAssets,
    chrome: &PageChrome,
    main_html: Seq<char>,
    k: int,
) -> (at: int)
    requires
        occurs_at(assets.shell@, "{{CONTENT}}"@, k),
    ensures
        occurs_at(page_html(assets, chrome, main_html), main_html, at),
{
    let bar = app_bar_html(chrome);
    let title = t_html(&chrome.title);
    let slots = shell_slots(assets, bar, title, main_html);
    let content = "{{CONTENT}}"@;
    lemma_shell_slots(assets, bar, title, main_html);
    let shell = assets.shell@;
    let front = lemma_reaches(shell, slots, content, 0, k);
    let which = stands_at(shell, k);
    assert(which(slots[4]));
    assert forall|j: int| 0 <= j < 4 implies !which(#[trigger] slots[j]) by {
        if which(slots[j]) {
            assert(shell.subrange(k, k + slots[j].name.len())[2] == shell[k + 2]);
            assert(shell.subrange(k, k + content.len())[2] == shell[k + 2]);
        }
    }
    lemma_first_index_unique(slots, which, 4);
    let behind = filled_from(shell, slots, k + content.len());
    let at = front.len() as int;
    let whole = front + (main_html + behind);
    assert(page_html(assets, chrome, main_html) == whole);
    assert(whole.subrange(at, at + main_html.len()) =~= main_html);
    at
}

/// A private count that is unavailable, or that counts nothing, paints no badge, and its button
/// leads where it always leads.
pub proof fn law_unavailable_count_is_not_painted(active: bool, n: i64)
    requires
        n <= 0,
    ensures
        private_badge_html(None) == Seq::<char>::empty(),
        private_badge_html(Some(n)) == Seq::<char>::empty(),
        bookmark_button_html(active, Some(n)) == bookmark_button_html(active, None),
        activity_button_html(active, Some(n)) == activity_button_html(active, None),
{
}

/// Whether a viewer has nothing of their own on a row.
pub open spec fn untouched(viewer: &ThreadRowViewerState) -> bool {
    &&& viewer.follow_level is None || viewer.follow_level->0 is Unset
    &&& viewer.bookmarked != Some(true)
    &&& viewer.unread_count is None || viewer.unread_count->0 <= 0
    &&& viewer.resume_href is None
}

/// Private state that is absent shows nothing: the row is the same for everyone without any.
pub proof fn law_absent_private_state_is_not_shown(
    shared: &ThreadRowShared,
    a: &ThreadRowViewerState,
    b: &ThreadRowViewerState,
    now: i64,
)
    requires
        untouched(a),
        untouched(b),
    ensures
        row_marks_html(a) == Seq::<char>::empty(),
        thread_row_html(shared, a, now) == thread_row_html(shared, b, now),
{
    assert(row_marks_html(a) =~= Seq::<char>::empty());
    assert(row_marks_html(b) =~= Seq::<char>::empty());
}

/// A control exists only when a handler supplied it.
pub proof fn law_missing_control_is_not_shown()
    ensures
        link_action_opt_html(&None) == Seq::<char>::empty(),
        form_action_opt_html(&None) == Seq::<char>::empty(),
        bookmark_action_html(&None) == Seq::<char>::empty(),
        reactions_row_html(Seq::empty()) == Seq::<char>::empty(),
{
}

/// The replies that are not on the dais.
pub open spec fn off_dais(dais: Option<AnswerDaisVM>) -> spec_fn(PostVM) -> bool {
    |reply: PostVM| !on_dais(dais, reply)
}

/// The accepted answer is left out of the chronology: the replies are shown as if it were not among
/// them.
pub proof fn law_answer_is_not_repeated(
    replies: Seq<PostVM>,
    dais: &Option<AnswerDaisVM>,
    now: i64,
)
    ensures
        reply_posts_html(replies, dais, now) == reply_posts_html(
            replies.filter(off_dais(*dais)),
            dais,
            now,
        ),
    decreases replies.len(),
{
    reveal(Seq::filter);
    if replies.len() > 0 {
        let d = replies.drop_last();
        let x = replies.last();
        law_answer_is_not_repeated(d, dais, now);
        assert(replies =~= d.push(x));
        lemma_filter_push(d, x, off_dais(*dais));
        let kept = replies.filter(off_dais(*dais));
        if !on_dais(*dais, x) {
            assert(kept.drop_last() =~= d.filter(off_dais(*dais)));
            assert(kept.last() == x);
        } else {
            assert(reply_posts_html(replies, dais, now) =~= reply_posts_html(d, dais, now));
        }
    } else {
        assert(replies.filter(off_dais(*dais)) =~= replies);
    }
}

// ---------------------------------------------------------------------------
// Pages.
// ---------------------------------------------------------------------------

/// The home page carries its own content, bar and title where the shell has the slots for them.
pub proof fn law_home_is_whole(assets: &ShellAssets, v: &HomeView, k: int) -> (at: int)
    ensures
        occurs_at(assets.shell@, "{{CONTENT}}"@, k) ==> occurs_at(
            home_html(assets, v),
            home_main_html(&v.shared, v.rows@),
            at,
        ),
        occurs_at(assets.shell@, "{{APPBAR}}"@, k) ==> occurs_at(
            home_html(assets, v),
            app_bar_html(&v.chrome),
            at,
        ),
        occurs_at(assets.shell@, "{{TITLE}}"@, k) ==> occurs_at(
            home_html(assets, v),
            escape_text(v.chrome.title.0@),
            at,
        ),
{
    law_shell_is_filled(assets, &v.chrome, home_main_html(&v.shared, v.rows@), k)
}

/// The page of a category carries its own content, bar and title where the shell has the slots for them.
pub proof fn law_category_is_whole(assets: &ShellAssets, v: &CategoryView, k: int) -> (at: int)
    ensures
        occurs_at(assets.shell@, "{{CONTENT}}"@, k) ==> occurs_at(
            category_html(assets, v),
            category_main_html(&v.shared, v.rows@, &v.viewer),
            at,
        ),
        occurs_at(assets.shell@, "{{APPBAR}}"@, k) ==> occurs_at(
            category_html(assets, v),
            app_bar_html(&v.chrome),
            at,
        ),
        occurs_at(assets.shell@, "{{TITLE}}"@, k) ==> occurs_at(
            category_html(assets, v),
            escape_text(v.chrome.title.0@),
            at,
        ),
{
    law_shell_is_filled(assets, &v.chrome, category_main_html(&v.shared, v.rows@, &v.viewer), k)
}

/// The page of a thread carries its own content, bar and title where the shell has the slots for them.
pub proof fn law_thread_is_whole(assets: &ShellAssets, v: &ThreadView, k: int) -> (at: int)
    ensures
        occurs_at(assets.shell@, "{{CONTENT}}"@, k) ==> occurs_at(
            thread_html(assets, v),
            thread_main_html(v),
            at,
        ),
        occurs_at(assets.shell@, "{{APPBAR}}"@, k) ==> occurs_at(
            thread_html(assets, v),
            app_bar_html(&v.chrome),
            at,
        ),
        occurs_at(assets.shell@, "{{TITLE}}"@, k) ==> occurs_at(
            thread_html(assets, v),
            escape_text(v.chrome.title.0@),
            at,
        ),
{
    law_shell_is_filled(assets, &v.chrome, thread_main_html(v), k)
}

/// The composer carries its own content, bar and title where the shell has the slots for them.
pub proof fn law_compose_is_whole(assets: &ShellAssets, v: &ComposeView, k: int) -> (at: int)
    ensures
        occurs_at(assets.shell@, "{{CONTENT}}"@, k) ==> occurs_at(
            compose_html(assets, v),
            compose_main_html(&v.shared, &v.viewer),
            at,
        ),
        occurs_at(assets.shell@, "{{APPBAR}}"@, k) ==> occurs_at(
            compose_html(assets, v),
            app_bar_html(&v.chrome),
            at,
        ),
        occurs_at(assets.shell@, "{{TITLE}}"@, k) ==> occurs_at(
            compose_html(assets, v),
            escape_text(v.chrome.title.0@),
            at,
        ),
{
    law_shell_is_filled(assets, &v.chrome, compose_main_html(&v.shared, &v.viewer), k)
}

/// The search page carries its own content, bar and title where the shell has the slots for them.
pub proof fn law_search_is_whole(assets: &ShellAssets, v: &SearchView, k: int) -> (at: int)
    ensures
        occurs_at(assets.shell@, "{{CONTENT}}"@, k) ==> occurs_at(
            search_html(assets, v),
            search_main_html(&v.shared, &v.viewer),
            at,
        ),
        occurs_at(assets.shell@, "{{APPBAR}}"@, k) ==> occurs_at(
            search_html(assets, v),
            app_bar_html(&v.chrome),
            at,
        ),
        occurs_at(assets.shell@, "{{TITLE}}"@, k) ==> occurs_at(
            search_html(assets, v),
            escape_text(v.chrome.title.0@),
            at,
        ),
{
    law_shell_is_filled(assets, &v.chrome, search_main_html(&v.shared, &v.viewer), k)
}

/// The catch-up page carries its own content, bar and title where the shell has the slots for them.
pub proof fn law_catch_up_is_whole(assets: &ShellAssets, v: &CatchUpFeedVM, k: int) -> (at: int)
    ensures
        occurs_at(assets.shell@, "{{CONTENT}}"@, k) ==> occurs_at(
            catch_up_html(assets, v),
            catch_up_main_html(v),
            at,
        ),
        occurs_at(assets.shell@, "{{APPBAR}}"@, k) ==> occurs_at(
            catch_up_html(assets, v),
            app_bar_html(&v.chrome),
            at,
        ),
        occurs_at(assets.shell@, "{{TITLE}}"@, k) ==> occurs_at(
            catch_up_html(assets, v),
            escape_text(v.chrome.title.0@),
            at,
        ),
{
    law_shell_is_filled(assets, &v.chrome, catch_up_main_html(v), k)
}

/// The focus page carries its own content, bar and title where the shell has the slots for them.
pub proof fn law_focus_is_whole(assets: &ShellAssets, v: &FocusView, k: int) -> (at: int)
    ensures
        occurs_at(assets.shell@, "{{CONTENT}}"@, k) ==> occurs_at(
            focus_html(assets, v),
            focus_main_html(v),
            at,
        ),
        occurs_at(assets.shell@, "{{APPBAR}}"@, k) ==> occurs_at(
            focus_html(assets, v),
            app_bar_html(&v.chrome),
            at,
        ),
        occurs_at(assets.shell@, "{{TITLE}}"@, k) ==> occurs_at(
            focus_html(assets, v),
            escape_text(v.chrome.title.0@),
            at,
        ),
{
    law_shell_is_filled(assets, &v.chrome, focus_main_html(v), k)
}

/// The activity page carries its own content, bar and title where the shell has the slots for them.
pub proof fn law_activity_is_whole(assets: &ShellAssets, v: &ActivityView, k: int) -> (at: int)
    ensures
        occurs_at(assets.shell@, "{{CONTENT}}"@, k) ==> occurs_at(
            activity_html(assets, v),
            activity_main_html(v),
            at,
        ),
        occurs_at(assets.shell@, "{{APPBAR}}"@, k) ==> occurs_at(
            activity_html(assets, v),
            app_bar_html(&v.chrome),
            at,
        ),
        occurs_at(assets.shell@, "{{TITLE}}"@, k) ==> occurs_at(
            activity_html(assets, v),
            escape_text(v.chrome.title.0@),
            at,
        ),
{
    law_shell_is_filled(assets, &v.chrome, activity_main_html(v), k)
}

/// The bookmark page carries its own content, bar and title where the shell has the slots for them.
pub proof fn law_bookmarks_is_whole(assets: &ShellAssets, v: &BookmarksView, k: int) -> (at: int)
    ensures
        occurs_at(assets.shell@, "{{CONTENT}}"@, k) ==> occurs_at(
            bookmarks_html(assets, v),
            bookmarks_main_html(v),
            at,
        ),
        occurs_at(assets.shell@, "{{APPBAR}}"@, k) ==> occurs_at(
            bookmarks_html(assets, v),
            app_bar_html(&v.chrome),
            at,
        ),
        occurs_at(assets.shell@, "{{TITLE}}"@, k) ==> occurs_at(
            bookmarks_html(assets, v),
            escape_text(v.chrome.title.0@),
            at,
        ),
{
    law_shell_is_filled(assets, &v.chrome, bookmarks_main_html(v), k)
}

/// The bookmark editor carries its own content, bar and title where the shell has the slots for them.
pub proof fn law_bookmark_edit_is_whole(assets: &ShellAssets, v: &BookmarkEditView, k: int) -> (at: int)
    ensures
        occurs_at(assets.shell@, "{{CONTENT}}"@, k) ==> occurs_at(
            bookmark_edit_html(assets, v),
            bookmark_edit_main_html(v),
            at,
        ),
        occurs_at(assets.shell@, "{{APPBAR}}"@, k) ==> occurs_at(
            bookmark_edit_html(assets, v),
            app_bar_html(&v.chrome),
            at,
        ),
        occurs_at(assets.shell@, "{{TITLE}}"@, k) ==> occurs_at(
            bookmark_edit_html(assets, v),
            escape_text(v.chrome.title.0@),
            at,
        ),
{
    law_shell_is_filled(assets, &v.chrome, bookmark_edit_main_html(v), k)
}

/// The console carries its own content, bar and title where the shell has the slots for them.
pub proof fn law_admin_is_whole(assets: &ShellAssets, v: &AdminView, k: int) -> (at: int)
    ensures
        occurs_at(assets.shell@, "{{CONTENT}}"@, k) ==> occurs_at(
            admin_html(assets, v),
            admin_main_html(&v.shared, &v.viewer),
            at,
        ),
        occurs_at(assets.shell@, "{{APPBAR}}"@, k) ==> occurs_at(
            admin_html(assets, v),
            app_bar_html(&v.chrome),
            at,
        ),
        occurs_at(assets.shell@, "{{TITLE}}"@, k) ==> occurs_at(
            admin_html(assets, v),
            escape_text(v.chrome.title.0@),
            at,
        ),
{
    law_shell_is_filled(assets, &v.chrome, admin_main_html(&v.shared, &v.viewer), k)
}

} // verus!
