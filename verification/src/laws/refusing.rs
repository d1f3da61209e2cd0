//! How a request is refused: what is missing is not found, what was changed meanwhile conflicts, and
//! what may not be done is invalid.

use vstd::prelude::*;

use crate::laws::delivering::thread_entry;
use crate::laws::desk::{category_entry, lemma_category_entry, lemma_opening_entry, opening_entry};
use crate::laws::keeping::{
    lemma_post_exists, lemma_saved_entry, may_remind_at, post_exists, saved_entry,
};
use crate::laws::showing::{first_reason, heard, post_named};
use crate::laws::writing::{
    category_exists, holds_post, lemma_category_exists, lemma_holds_post, lemma_post_named,
    lemma_recorded, lemma_thread_entry, recorded, too_many_names,
};
use crate::model::{CategoryFocusLevel, CategoryFormat, PostRow, ThreadFollowLevel, ThreadRow};
use crate::rows::{first_index, lemma_first_index, some_row};
use crate::store::activity::activity_mark;
use crate::store::answers::answer_mutation;
use crate::store::bookmarks::{bookmark_saving, bookmark_update};
use crate::store::catch_up::reading_mark;
use crate::store::categories::{category_deletion, category_transition};
use crate::store::editing::{post_deletion, thread_move};
use crate::store::focus::focus_change;
use crate::store::follow::{bookmark_of, delivery_of_to, level_change};
use crate::store::memory::Forum;
use crate::store::posting::{reply_addition, reply_addition_with_activity, thread_creation};
use crate::store::rules::receipt_ids;
use crate::store::tables::{category_is, post_is, thread_is};
use crate::store::types::{AcceptedAnswerAction, BookmarkReminderUpdate, Failure};
use crate::text::{blank_text, trim_text};

verus! {

/// Opening a thread is invalid with a post of another thread or when the clock is exhausted, finds
/// no category where there is none, and conflicts with a post that is recorded already.
pub proof fn law_opening_is_refused(f: Forum, thread: ThreadRow, first_post: PostRow)
    requires
        thread_creation(f, thread, first_post).1 is Err,
    ensures
        ({
            let e = thread_creation(f, thread, first_post).1->Err_0;
            if first_post.thread_id != thread.id {
                e is InvalidOperation
            } else if !category_exists(f, thread.category_id) {
                e is NotFound
            } else if recorded(f, first_post.id) {
                e is Conflict
            } else {
                e is InvalidOperation
            }
        }),
{
    lemma_category_exists(f, thread.category_id);
    lemma_recorded(f, first_post.id);
}

/// A reply finds no thread or category where there is none, is invalid in a locked thread, with a
/// quote from elsewhere or when the clock is exhausted, and conflicts when it is recorded already.
pub proof fn law_reply_is_refused(f: Forum, post: PostRow)
    requires
        reply_addition(f, post).1 is Err,
    ensures
        ({
            let e = reply_addition(f, post).1->Err_0;
            &&& (forall|n: int| !#[trigger] thread_entry(f, post.thread_id, n)) ==> e is NotFound
            &&& forall|n: int| #[trigger]
                thread_entry(f, post.thread_id, n) ==> if !category_exists(
                    f,
                    f.threads[n].category_id,
                ) {
                    e is NotFound
                } else if f.threads[n].locked || (post.quoted_post_id.len() > 0 && !holds_post(
                    f,
                    post.thread_id,
                    post.quoted_post_id,
                )) {
                    e is InvalidOperation
                } else if recorded(f, post.id) {
                    e is Conflict
                } else {
                    e is InvalidOperation
                }
        }),
{
    lemma_thread_entry(f, post.thread_id);
    lemma_holds_post(f, post.thread_id, post.quoted_post_id);
    lemma_recorded(f, post.id);
    if let Some(n) = first_index(f.threads, thread_is(post.thread_id)) {
        assert(thread_entry(f, post.thread_id, n));
        lemma_category_exists(f, f.threads[n].category_id);
    }
}

/// Telling of a reply is refused as the reply is, unless too many are named or watching, which is
/// invalid.
pub proof fn law_telling_is_refused(
    f: Forum,
    post: PostRow,
    mentioned: Seq<Seq<char>>,
    activity_id: Seq<char>,
)
    requires
        reply_addition_with_activity(f, post, mentioned, activity_id).1 is Err,
    ensures
        ({
            let e = reply_addition_with_activity(f, post, mentioned, activity_id).1->Err_0;
            &&& too_many_names(mentioned) ==> e is InvalidOperation
            &&& reply_addition(f, post).1 is Ok ==> e is InvalidOperation
        }),
{
}

/// A reply that opened its thread may not be deleted; one whose thread is gone is not found.
pub proof fn law_deletion_is_refused(f: Forum, id: Seq<char>)
    requires
        post_deletion(f, id).1 is Err,
    ensures
        forall|p: int| #[trigger]
            post_named(f, id, p) ==> if exists|n: int| #[trigger]
                thread_entry(f, f.posts[p].thread_id, n) {
                post_deletion(f, id).1->Err_0 is InvalidOperation
            } else {
                post_deletion(f, id).1->Err_0 is NotFound
            },
{
    lemma_post_named(f, id);
    if let Some(p) = first_index(f.posts, post_is(id)) {
        lemma_thread_entry(f, f.posts[p].thread_id);
        lemma_first_index(f.threads, thread_is(f.posts[p].thread_id));
        if let Some(n) = first_index(f.threads, thread_is(f.posts[p].thread_id)) {
            assert(thread_entry(f, f.posts[p].thread_id, n));
        }
    }
}

/// A move finds no thread or source category where there is none; everything else that stands in
/// its way makes it invalid.
pub proof fn law_move_is_refused(f: Forum, thread_id: Seq<char>, category_id: Seq<char>)
    requires
        thread_move(f, thread_id, category_id).1 is Err,
    ensures
        ({
            let e = thread_move(f, thread_id, category_id).1->Err_0;
            &&& (forall|n: int| !#[trigger] thread_entry(f, thread_id, n)) ==> e is NotFound
            &&& forall|n: int| #[trigger]
                thread_entry(f, thread_id, n) ==> if category_exists(f, f.threads[n].category_id) {
                    e is InvalidOperation
                } else {
                    e is NotFound
                }
        }),
{
    lemma_thread_entry(f, thread_id);
    if let Some(n) = first_index(f.threads, thread_is(thread_id)) {
        assert(thread_entry(f, thread_id, n));
        lemma_category_exists(f, f.threads[n].category_id);
    }
}

/// Accepting finds no thread, category or reply where there is none, and is invalid in a
/// discussion, without a reply, and for the original post.
pub proof fn law_accepting_is_refused(
    f: Forum,
    thread_id: Seq<char>,
    action: AcceptedAnswerAction,
    n: int,
    c: int,
)
    requires
        answer_mutation(f, thread_id, action).1 is Err,
        thread_entry(f, thread_id, n),
        category_entry(f, f.threads[n].category_id, c),
    ensures
        ({
            let e = answer_mutation(f, thread_id, action).1->Err_0;
            let id = trim_text(action->post_id@);
            &&& action is Accept
            &&& if !(f.categories[c].format is Question) || id.len() == 0 || (exists|o: int|
                #[trigger]
                opening_entry(f, thread_id, o) && f.original_posts[o].post_id == id) {
                e is InvalidOperation
            } else {
                e is NotFound
            }
        }),
{
    lemma_thread_entry(f, thread_id);
    lemma_category_entry(f, f.threads[n].category_id, c);
    lemma_opening_entry(f, thread_id);
}

/// An edit of a bookmark is invalid with a long note or a reminder that may not be set, is not found
/// where nothing was saved, and conflicts with a row that is not the one it was made against.
pub proof fn law_bookmark_edit_is_refused(
    f: Forum,
    owner_sub: Seq<char>,
    post_id: Seq<char>,
    bookmark_id: Seq<char>,
    version: i64,
    note: Seq<char>,
    reminder: BookmarkReminderUpdate,
    changed_at: i64,
)
    requires
        bookmark_update(
            f,
            owner_sub,
            post_id,
            bookmark_id,
            version,
            note,
            reminder,
            changed_at,
        ).1 is Err,
    ensures
        ({
            let e = bookmark_update(
                f,
                owner_sub,
                post_id,
                bookmark_id,
                version,
                note,
                reminder,
                changed_at,
            ).1->Err_0;
            if note.len() > 200 || (reminder is SetTo && !may_remind_at(
                reminder->SetTo_0 as int,
                changed_at as int,
            )) {
                e is InvalidOperation
            } else if !post_exists(f, post_id) || (forall|i: int|
                !#[trigger] saved_entry(f, owner_sub, post_id, i)) {
                e is NotFound
            } else {
                e is Conflict
            }
        }),
{
    lemma_post_exists(f, post_id);
    lemma_saved_entry(f, owner_sub, post_id);
    if let Some(i) = first_index(f.bookmarks, bookmark_of(owner_sub, post_id)) {
        assert(saved_entry(f, owner_sub, post_id, i));
    }
}

/// Saving finds no post where there is none, and is invalid beyond what an owner may keep; a level
/// finds no thread where there is none, and is invalid beyond what a thread may have of watchers; a
/// rule is invalid for nobody or beyond what a viewer may keep, and finds no category where there
/// is none.
pub proof fn law_keeping_is_refused(
    f: Forum,
    sub: Seq<char>,
    id: Seq<char>,
    bookmark_id: Seq<char>,
    at: i64,
    follow: ThreadFollowLevel,
    focus: CategoryFocusLevel,
)
    ensures
        ({
            let saved = bookmark_saving(f, sub, id, bookmark_id, at).1;
            let followed = level_change(f, id, sub, follow, at).1;
            let ruled = focus_change(f, sub, id, focus, at).1;
            &&& saved is Err ==> if post_exists(f, id) {
                saved->Err_0 is InvalidOperation
            } else {
                saved->Err_0 is NotFound
            }
            &&& followed is Err ==> if exists|n: int| #[trigger] thread_entry(f, id, n) {
                followed->Err_0 is InvalidOperation
            } else {
                followed->Err_0 is NotFound
            }
            &&& ruled is Err ==> if !blank_text(sub) && at >= 0 && !category_exists(f, id) {
                ruled->Err_0 is NotFound
            } else {
                ruled->Err_0 is InvalidOperation
            }
        }),
{
    lemma_post_exists(f, id);
    lemma_thread_entry(f, id);
    lemma_first_index(f.threads, thread_is(id));
    lemma_category_exists(f, id);
    if let Some(n) = first_index(f.threads, thread_is(id)) {
        assert(thread_entry(f, id, n));
    }
}

/// Marking posts read is invalid with no post or too many, for nobody and before time began; it
/// finds no thread where there is none and no post that is not of it. An event that a viewer was
/// not told of is not found.
pub proof fn law_marking_is_refused(
    f: Forum,
    viewer_sub: Seq<char>,
    thread_id: Seq<char>,
    post_ids: Seq<Seq<char>>,
    at: i64,
    activity_id: Seq<char>,
    read: bool,
)
    ensures
        ({
            let marked = reading_mark(f, viewer_sub, thread_id, post_ids, at).1;
            let ticked_off = activity_mark(f, activity_id, viewer_sub, read, at).1;
            &&& receipt_ids(post_ids) is Err || blank_text(viewer_sub) || at < 0 ==> marked is Err
                && marked->Err_0 is InvalidOperation
            &&& receipt_ids(post_ids) is Ok && !blank_text(viewer_sub) && at >= 0 && (forall|n: int|
                !#[trigger] thread_entry(f, thread_id, n)) ==> marked is Err
                && marked->Err_0 is NotFound
            &&& ticked_off is Err ==> ticked_off->Err_0 is NotFound
            &&& first_reason(f, viewer_sub, activity_id) is None ==> ticked_off is Err
        }),
{
    lemma_thread_entry(f, thread_id);
    lemma_first_index(f.threads, thread_is(thread_id));
    if let Some(n) = first_index(f.threads, thread_is(thread_id)) {
        assert(thread_entry(f, thread_id, n));
    }
    let to = delivery_of_to(activity_id, viewer_sub);
    let rows = f.activity_deliveries;
    if some_row(rows, to) {
        let k = choose|k: int| 0 <= k < rows.len() && to(#[trigger] rows[k]);
        assert(rows[k].activity_id == activity_id);
        assert(heard(f, viewer_sub, activity_id, rows[k].delivery.reason));
    }
}

/// A category that is not there is not found; one that cannot change or be deleted makes that
/// invalid.
pub proof fn law_category_change_is_refused(f: Forum, id: Seq<char>, format: CategoryFormat)
    ensures
        ({
            let changed = category_transition(f, id, format).1;
            let gone = category_deletion(f, id).1;
            &&& changed is Err ==> if category_exists(f, id) {
                changed->Err_0 is InvalidOperation
            } else {
                changed->Err_0 is NotFound
            }
            &&& !category_exists(f, id) ==> changed is Err
            &&& gone is Err ==> gone->Err_0 is InvalidOperation
        }),
{
    lemma_category_exists(f, id);
    lemma_first_index(f.categories, category_is(id));
}

/// A failure shows its kind before its words.
pub proof fn law_failures_are_shown(words: Seq<char>)
    ensures
        Failure::Backend(words).text() == "store error: "@ + words,
        Failure::InvalidOperation(words).text() == "invalid store operation: "@ + words,
        Failure::NotFound(words).text() == "store record not found: "@ + words,
        Failure::Conflict(words).text() == "store conflict: "@ + words,
{
}

} // verus!
