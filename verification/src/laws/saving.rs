//! What bookmarks promise.

use vstd::prelude::*;

use crate::laws::content::{lemma_first_row_other, lemma_first_row_update};
use crate::laws::state::{bookmark_key, consistent};
use crate::laws::state_writing::lemma_first_row_push;
use crate::model::BookmarkRow;
use crate::rows::{first_index, first_row, lemma_first_index, some_row, update_first};
use crate::store::bookmarks::{
    bookmark_listed, bookmark_removal, bookmark_saving, bookmark_snooze, bookmark_update,
    edit_target, new_bookmark, reminder_after, reminder_settling,
};
use crate::store::follow::bookmark_of;
use crate::store::memory::Forum;
use crate::store::rules::{in_state, note_check};
use crate::store::tables::post_is;
use crate::store::types::{BookmarkCursorRow, BookmarkReminderUpdate, BookmarkState};

verus! {

/// The row that was found is the only one of its owner on its post.
proof fn lemma_row_replaced(
    s: Seq<BookmarkRow>,
    owner_sub: Seq<char>,
    post_id: Seq<char>,
    row: BookmarkRow,
)
    requires
        first_index(s, bookmark_of(owner_sub, post_id)) is Some,
        bookmark_of(owner_sub, post_id)(row),
    ensures
        ({
            let i = first_index(s, bookmark_of(owner_sub, post_id))->0;
            &&& first_row(s.update(i, row), bookmark_of(owner_sub, post_id)) == Some(row)
            &&& forall|owner: Seq<char>, post: Seq<char>|
                owner != owner_sub || post != post_id ==> (#[trigger] first_row(
                    s.update(i, row),
                    bookmark_of(owner, post),
                )) == first_row(s, bookmark_of(owner, post))
        }),
{
    let which = bookmark_of(owner_sub, post_id);
    lemma_first_index(s, which);
    let i = first_index(s, which)->0;
    let change = |b: BookmarkRow|
        if which(b) {
            row
        } else {
            b
        };
    assert(update_first(s, which, change) =~= s.update(i, row));
    lemma_first_row_update(s, which, change);
    assert forall|owner: Seq<char>, post: Seq<char>|
        owner != owner_sub || post != post_id implies (#[trigger] first_row(
        s.update(i, row),
        bookmark_of(owner, post),
    )) == first_row(s, bookmark_of(owner, post)) by {
        lemma_first_row_other(s, which, change, bookmark_of(owner, post));
    }
}

/// Saving a post twice is saving it once: the bookmark from before is returned unchanged.
pub proof fn law_saving_is_idempotent(
    f: Forum,
    owner_sub: Seq<char>,
    post_id: Seq<char>,
    bookmark_id: Seq<char>,
    created_at: i64,
    later_id: Seq<char>,
    later: i64,
)
    requires
        bookmark_saving(f, owner_sub, post_id, bookmark_id, created_at).1 is Ok,
    ensures
        ({
            let (g, first) = bookmark_saving(f, owner_sub, post_id, bookmark_id, created_at);
            &&& bookmark_saving(g, owner_sub, post_id, later_id, later) == (g, first)
            &&& first_row(g.bookmarks, bookmark_of(owner_sub, post_id)) == Some(first->Ok_0)
        }),
{
    let which = bookmark_of(owner_sub, post_id);
    lemma_first_index(f.bookmarks, which);
    lemma_first_row_push(
        f.bookmarks,
        new_bookmark(bookmark_id, owner_sub, post_id, created_at),
        which,
    );
}

/// An edit is read back under the next version, on the same post and under the same identity, and
/// no other bookmark changes.
pub proof fn law_edit_reads_back(
    f: Forum,
    owner_sub: Seq<char>,
    post_id: Seq<char>,
    bookmark_id: Seq<char>,
    version: i64,
    note: Seq<char>,
    reminder: BookmarkReminderUpdate,
    changed_at: i64,
)
    requires
        bookmark_update(
            f,
            owner_sub,
            post_id,
            bookmark_id,
            version,
            note,
            reminder,
            changed_at,
        ).1 is Ok,
    ensures
        ({
            let before = first_row(f.bookmarks, bookmark_of(owner_sub, post_id))->0;
            let (g, r) = bookmark_update(
                f,
                owner_sub,
                post_id,
                bookmark_id,
                version,
                note,
                reminder,
                changed_at,
            );
            &&& first_row(g.bookmarks, bookmark_of(owner_sub, post_id)) == Some(r->Ok_0)
            &&& r->Ok_0.version == version + 1
            &&& r->Ok_0.bookmark_id == bookmark_id
            &&& r->Ok_0.note == note
            &&& r->Ok_0.created_at == before.created_at
            &&& r->Ok_0.remind_at == reminder_after(before.remind_at, reminder)
            &&& forall|owner: Seq<char>, post: Seq<char>|
                owner != owner_sub || post != post_id ==> (#[trigger] first_row(
                    g.bookmarks,
                    bookmark_of(owner, post),
                )) == first_row(f.bookmarks, bookmark_of(owner, post))
        }),
{
    let which = bookmark_of(owner_sub, post_id);
    lemma_first_index(f.bookmarks, which);
    let row = bookmark_update(
        f,
        owner_sub,
        post_id,
        bookmark_id,
        version,
        note,
        reminder,
        changed_at,
    ).1->Ok_0;
    lemma_row_replaced(f.bookmarks, owner_sub, post_id, row);
}

/// After an edit, whatever was made against the version before is a conflict and changes nothing.
pub proof fn law_stale_edit_conflicts(
    f: Forum,
    owner_sub: Seq<char>,
    post_id: Seq<char>,
    bookmark_id: Seq<char>,
    version: i64,
    note: Seq<char>,
    reminder: BookmarkReminderUpdate,
    changed_at: i64,
    stale_id: Seq<char>,
)
    requires
        bookmark_update(
            f,
            owner_sub,
            post_id,
            bookmark_id,
            version,
            note,
            reminder,
            changed_at,
        ).1 is Ok,
    ensures
        ({
            let g = bookmark_update(
                f,
                owner_sub,
                post_id,
                bookmark_id,
                version,
                note,
                reminder,
                changed_at,
            ).0;
            &&& edit_target(g, owner_sub, post_id, stale_id, version) is Err
            &&& edit_target(g, owner_sub, post_id, stale_id, version)->Err_0 is Conflict
            &&& bookmark_removal(g, owner_sub, post_id, stale_id, version).1 is Err
            &&& bookmark_removal(g, owner_sub, post_id, stale_id, version).0 == g
        }),
{
    law_edit_reads_back(
        f,
        owner_sub,
        post_id,
        bookmark_id,
        version,
        note,
        reminder,
        changed_at,
    );
    let g = bookmark_update(
        f,
        owner_sub,
        post_id,
        bookmark_id,
        version,
        note,
        reminder,
        changed_at,
    ).0;
    lemma_first_index(g.bookmarks, bookmark_of(owner_sub, post_id));
}

/// A removed bookmark is gone, and the other bookmarks stay.
pub proof fn law_removal_reads_back(
    f: Forum,
    owner_sub: Seq<char>,
    post_id: Seq<char>,
    bookmark_id: Seq<char>,
    version: i64,
)
    requires
        consistent(f),
        bookmark_removal(f, owner_sub, post_id, bookmark_id, version).1 is Ok,
    ensures
        ({
            let g = bookmark_removal(f, owner_sub, post_id, bookmark_id, version).0;
            &&& first_row(g.bookmarks, bookmark_of(owner_sub, post_id)) is None
            &&& forall|b: BookmarkRow| #[trigger]
                g.bookmarks.contains(b) <==> f.bookmarks.contains(b) && !bookmark_of(
                    owner_sub,
                    post_id,
                )(b)
        }),
{
    let s = f.bookmarks;
    let which = bookmark_of(owner_sub, post_id);
    let g = bookmark_removal(f, owner_sub, post_id, bookmark_id, version).0;
    let r = g.bookmarks;
    lemma_first_index(s, which);
    lemma_first_index(r, which);
    let i = first_index(s, which)->0;
    assert forall|k: int| 0 <= k < s.len() && k != i implies !which(#[trigger] s[k]) by {
        assert(bookmark_key()(s[k]) != bookmark_key()(s[i]));
    }
    assert forall|k: int| 0 <= k < r.len() implies !which(#[trigger] r[k]) by {
        let from = if k < i {
            k
        } else {
            k + 1
        };
        assert(r[k] == s[from]);
    }
    assert forall|b: BookmarkRow| #[trigger] r.contains(b) <==> s.contains(b) && !which(b) by {
        if r.contains(b) {
            let k = choose|k: int| 0 <= k < r.len() && r[k] == b;
            let from = if k < i {
                k
            } else {
                k + 1
            };
            assert(s[from] == b);
        }
        if s.contains(b) && !which(b) {
            let k = choose|k: int| 0 <= k < s.len() && s[k] == b;
            let to = if k < i {
                k
            } else {
                k - 1
            };
            assert(r[to] == b);
        }
    }
}

/// A post that was saved again under another identity is out of reach of edits made against the
/// removed bookmark, whatever their version.
pub proof fn law_recreated_bookmark_is_another(
    f: Forum,
    owner_sub: Seq<char>,
    post_id: Seq<char>,
    bookmark_id: Seq<char>,
    version: i64,
    new_id: Seq<char>,
    created_at: i64,
    stale: i64,
)
    requires
        consistent(f),
        bookmark_removal(f, owner_sub, post_id, bookmark_id, version).1 is Ok,
        new_id != bookmark_id,
    ensures
        ({
            let g = bookmark_removal(f, owner_sub, post_id, bookmark_id, version).0;
            let (h, saved) = bookmark_saving(g, owner_sub, post_id, new_id, created_at);
            saved is Ok ==> {
                &&& saved->Ok_0.bookmark_id == new_id
                &&& saved->Ok_0.version == 1
                &&& edit_target(h, owner_sub, post_id, bookmark_id, stale) is Err
                &&& edit_target(h, owner_sub, post_id, bookmark_id, stale)->Err_0 is Conflict
                &&& bookmark_removal(h, owner_sub, post_id, bookmark_id, stale).0 == h
            }
        }),
{
    let g = bookmark_removal(f, owner_sub, post_id, bookmark_id, version).0;
    law_removal_reads_back(f, owner_sub, post_id, bookmark_id, version);
    let (h, saved) = bookmark_saving(g, owner_sub, post_id, new_id, created_at);
    if saved is Ok {
        law_saving_is_idempotent(g, owner_sub, post_id, new_id, created_at, new_id, created_at);
        lemma_first_index(h.bookmarks, bookmark_of(owner_sub, post_id));
    }
}

/// A settled reminder is no longer due, and its bookmark stays.
pub proof fn law_settled_reminder_is_not_due(
    f: Forum,
    owner_sub: Seq<char>,
    post_id: Seq<char>,
    bookmark_id: Seq<char>,
    version: i64,
    remind_at: i64,
    changed_at: i64,
)
    ensures
        ({
            let (g, r) = reminder_settling(
                f,
                owner_sub,
                post_id,
                bookmark_id,
                version,
                None,
                changed_at,
            );
            r is Ok ==> {
                &&& !in_state(r->Ok_0, BookmarkState::Due, changed_at)
                &&& !in_state(r->Ok_0, BookmarkState::Scheduled, changed_at)
                &&& first_row(g.bookmarks, bookmark_of(owner_sub, post_id)) == Some(r->Ok_0)
                &&& r->Ok_0.version == version + 1
            }
        }),
        ({
            let (g, r) = bookmark_snooze(
                f,
                owner_sub,
                post_id,
                bookmark_id,
                version,
                remind_at,
                changed_at,
            );
            r is Ok ==> {
                &&& !in_state(r->Ok_0, BookmarkState::Due, changed_at)
                &&& in_state(r->Ok_0, BookmarkState::Scheduled, changed_at)
                &&& first_row(g.bookmarks, bookmark_of(owner_sub, post_id)) == Some(r->Ok_0)
                &&& r->Ok_0.version == version + 1
            }
        }),
{
    let which = bookmark_of(owner_sub, post_id);
    lemma_first_index(f.bookmarks, which);
    let r = reminder_settling(f, owner_sub, post_id, bookmark_id, version, None, changed_at).1;
    if r is Ok {
        lemma_row_replaced(f.bookmarks, owner_sub, post_id, r->Ok_0);
    }
    let s = bookmark_snooze(
        f,
        owner_sub,
        post_id,
        bookmark_id,
        version,
        remind_at,
        changed_at,
    ).1;
    if s is Ok {
        lemma_row_replaced(f.bookmarks, owner_sub, post_id, s->Ok_0);
    }
}

/// A refused edit leaves the forum as it was.
pub proof fn law_refused_edit_changes_nothing(
    f: Forum,
    owner_sub: Seq<char>,
    post_id: Seq<char>,
    bookmark_id: Seq<char>,
    version: i64,
    note: Seq<char>,
    reminder: BookmarkReminderUpdate,
    remind_at: i64,
    changed_at: i64,
)
    ensures
        ({
            let (g, r) = bookmark_update(
                f,
                owner_sub,
                post_id,
                bookmark_id,
                version,
                note,
                reminder,
                changed_at,
            );
            r is Err ==> g == f
        }),
        ({
            let (g, r) = reminder_settling(
                f,
                owner_sub,
                post_id,
                bookmark_id,
                version,
                None,
                changed_at,
            );
            r is Err ==> g == f
        }),
        ({
            let (g, r) = bookmark_snooze(
                f,
                owner_sub,
                post_id,
                bookmark_id,
                version,
                remind_at,
                changed_at,
            );
            r is Err ==> g == f
        }),
        ({
            let (g, r) = bookmark_removal(f, owner_sub, post_id, bookmark_id, version);
            r is Err ==> g == f
        }),
{
}

/// A bookmark list holds bookmarks of its owner in its scope, each on a live post.
pub proof fn law_bookmark_list_is_private(
    f: Forum,
    owner_sub: Seq<char>,
    state: BookmarkState,
    cursor: Option<BookmarkCursorRow>,
    now: i64,
    b: BookmarkRow,
)
    requires
        bookmark_listed(f, owner_sub, state, cursor, now)(b) is Some,
    ensures
        b.owner_sub == owner_sub,
        in_state(b, state, now),
        some_row(f.posts, post_is(b.post_id)),
        bookmark_listed(f, owner_sub, state, cursor, now)(b)->0.bookmark == b,
{
    lemma_first_index(f.posts, post_is(b.post_id));
}

/// A note on a bookmark whose reminder is due already can be edited, and keeps the reminder.
pub proof fn law_keeping_a_due_reminder(
    f: Forum,
    owner_sub: Seq<char>,
    post_id: Seq<char>,
    note: Seq<char>,
    changed_at: i64,
)
    requires
        some_row(f.posts, post_is(post_id)),
        first_row(f.bookmarks, bookmark_of(owner_sub, post_id)) is Some,
        first_row(f.bookmarks, bookmark_of(owner_sub, post_id))->0.version < i64::MAX,
        note_check(note) is Ok,
    ensures
        ({
            let row = first_row(f.bookmarks, bookmark_of(owner_sub, post_id))->0;
            let r = bookmark_update(
                f,
                owner_sub,
                post_id,
                row.bookmark_id,
                row.version,
                note,
                BookmarkReminderUpdate::Keep,
                changed_at,
            ).1;
            r is Ok && r->Ok_0.remind_at == row.remind_at && r->Ok_0.note == note
        }),
{
}

} // verus!
