//! Saving posts and reacting to them.

use vstd::prelude::*;

use crate::model::{Bookmark, BookmarkRow};
use crate::relational::command::{
    Ask, AskRow, Shape, Told, ToldRow, affected_at, begin, beginning, bookmark_at, commit_of,
    committing, just, no_steps, running, steps_of, text_at, told_affected, told_bookmark,
    told_text, without_steps,
};
use crate::relational::commands::following::{ask_pair, pair_question};
use crate::relational::commands::moderation::{just_commit, only_commit};
use crate::relational::commands::opening::{ask_text, clock_at, lock_question, told_clock};
use crate::relational::personal::{
    bookmark_insertion, bookmark_store, check_edit_request, create_bookmark, edit_bookmark,
    edit_request, edited_bookmark, fresh_bookmark, insert_bookmark, removal_write, remove_bookmark,
    settle_bookmark, settled_bookmark, store_bookmark,
};
use crate::relational::sql::{
    COUNT_BOOKMARKS, DELETE_REACTION, GUARD_BOOKMARK_OWNER, INSERT_REACTION, LOCK_BOOKMARK,
    LOCK_BOOKMARK_OWNER, LOCK_POST_ID, READ_BOOKMARK,
};
use crate::relational::statement::{Statement, statement};
use crate::rows::views;
use crate::store::rules::{reminder_check, validate_future_reminder};
use crate::store::types::{
    BookmarkCas, BookmarkReminderUpdate, Failure, StoreError, not_found, single,
};

verus! {

/// A post is saved, once the post and its owner are locked. A post that was saved before keeps its
/// bookmark; only a new one counts the bookmarks.
pub open spec fn saving(
    owner_sub: Seq<char>,
    post_id: Seq<char>,
    bookmark_id: Seq<char>,
    created_at: i64,
    told: Seq<ToldRow>,
) -> AskRow<BookmarkRow> {
    if told.len() == 0 {
        lock_question(begin(), LOCK_POST_ID@, post_id)
    } else if text_at(told, 0) is None {
        AskRow::Fail(Failure::NotFound("post not found"@))
    } else if told.len() == 1 {
        lock_question(
            running(seq![statement(GUARD_BOOKMARK_OWNER@).text(owner_sub)]),
            LOCK_BOOKMARK_OWNER@,
            owner_sub,
        )
    } else if told.len() == 2 {
        pair_question(no_steps(), Shape::Bookmark, READ_BOOKMARK@, owner_sub, post_id)
    } else {
        match bookmark_at(told, 2) {
            Some(b) => AskRow::Finish(just_commit(), b),
            None => if told.len() == 3 {
                AskRow::Fetch(
                    no_steps(),
                    Shape::Number,
                    statement(COUNT_BOOKMARKS@).text(owner_sub),
                )
            } else {
                match fresh_bookmark(
                    bookmark_id,
                    owner_sub,
                    post_id,
                    created_at,
                    clock_at(told, 3) as int,
                ) {
                    Err(e) => AskRow::Fail(e),
                    Ok(b) => AskRow::Finish(committing(seq![bookmark_insertion(b)]), b),
                }
            },
        }
    }
}

/// The next step of saving a post.
pub fn ensure_bookmark(
    owner_sub: &str,
    post_id: &str,
    bookmark_id: &str,
    created_at: i64,
    told: &Vec<Told>,
) -> (r: Ask<Bookmark>)
    ensures
        r@ == saving(owner_sub@, post_id@, bookmark_id@, created_at, views(told@)),
{
    if told.len() == 0 {
        return ask_text(beginning(), LOCK_POST_ID, post_id);
    }
    if told_text(told, 0).is_none() {
        return Ask::Fail(not_found("post not found"));
    }
    if told.len() == 1 {
        return ask_text(
            steps_of(just(Statement::new(GUARD_BOOKMARK_OWNER).text(owner_sub))),
            LOCK_BOOKMARK_OWNER,
            owner_sub,
        );
    }
    if told.len() == 2 {
        return ask_pair(without_steps(), Shape::Bookmark, READ_BOOKMARK, owner_sub, post_id);
    }
    match told_bookmark(told, 2) {
        Some(b) => Ask::Finish(only_commit(), b),
        None => {
            if told.len() == 3 {
                return Ask::Fetch(
                    without_steps(),
                    Shape::Number,
                    Statement::new(COUNT_BOOKMARKS).text(owner_sub),
                );
            }
            match create_bookmark(
                bookmark_id,
                owner_sub,
                post_id,
                created_at,
                told_clock(told, 3),
            ) {
                Err(e) => Ask::Fail(e),
                Ok(b) => Ask::Finish(commit_of(just(insert_bookmark(&b))), b),
            }
        },
    }
}

/// How far a bookmark is locked: the command says this next, or it has the bookmark.
pub open spec fn bookmark_lock<V>(owner_sub: Seq<char>, post_id: Seq<char>, told: Seq<ToldRow>) -> Result<
    BookmarkRow,
    AskRow<V>,
> {
    if told.len() == 0 {
        Err(lock_question(begin(), LOCK_POST_ID@, post_id))
    } else if text_at(told, 0) is None {
        Err(AskRow::Fail(Failure::NotFound("bookmark not found"@)))
    } else if told.len() == 1 {
        Err(pair_question(no_steps(), Shape::Bookmark, LOCK_BOOKMARK@, owner_sub, post_id))
    } else {
        match bookmark_at(told, 1) {
            None => Err(AskRow::Fail(Failure::NotFound("bookmark not found"@))),
            Some(b) => Ok(b),
        }
    }
}

fn lock_bookmark<T: View>(owner_sub: &str, post_id: &str, told: &Vec<Told>) -> (r: Result<
    Bookmark,
    Ask<T>,
>)
    ensures
        match r {
            Ok(b) => bookmark_lock::<T::V>(owner_sub@, post_id@, views(told@)) == Ok::<
                BookmarkRow,
                AskRow<T::V>,
            >(b@),
            Err(ask) => bookmark_lock::<T::V>(owner_sub@, post_id@, views(told@)) == Err::<
                BookmarkRow,
                AskRow<T::V>,
            >(ask@),
        },
{
    if told.len() == 0 {
        return Err(ask_text(beginning(), LOCK_POST_ID, post_id));
    }
    if told_text(told, 0).is_none() {
        return Err(Ask::Fail(not_found("bookmark not found")));
    }
    if told.len() == 1 {
        return Err(
            ask_pair(without_steps(), Shape::Bookmark, LOCK_BOOKMARK, owner_sub, post_id),
        );
    }
    match told_bookmark(told, 1) {
        None => Err(Ask::Fail(not_found("bookmark not found"))),
        Some(b) => Ok(b),
    }
}

/// A bookmark in its new state is stored.
pub open spec fn restored(b: Result<BookmarkRow, Failure>) -> AskRow<BookmarkRow> {
    match b {
        Err(e) => AskRow::Fail(e),
        Ok(b) => AskRow::Finish(committing(seq![bookmark_store(b)]), b),
    }
}

fn restore(b: Result<Bookmark, StoreError>) -> (r: Ask<Bookmark>)
    ensures
        r@ == restored(single(b)),
{
    match b {
        Err(e) => Ask::Fail(e),
        Ok(b) => Ask::Finish(commit_of(just(store_bookmark(&b))), b),
    }
}

/// The note and the reminder of a bookmark are edited, once it is locked.
pub open spec fn bookmark_editing(
    owner_sub: Seq<char>,
    post_id: Seq<char>,
    bookmark_id: Seq<char>,
    version: i64,
    note: Seq<char>,
    reminder: BookmarkReminderUpdate,
    changed_at: i64,
    told: Seq<ToldRow>,
) -> AskRow<BookmarkRow> {
    match edit_request(note, reminder, changed_at) {
        Err(e) => AskRow::Fail(e),
        Ok(_) => match bookmark_lock(owner_sub, post_id, told) {
            Err(ask) => ask,
            Ok(b) => restored(
                edited_bookmark(b, bookmark_id, version, note, reminder, changed_at),
            ),
        },
    }
}

/// The next step of editing a bookmark.
pub fn update_bookmark(
    owner_sub: &str,
    post_id: &str,
    expected: BookmarkCas<'_>,
    note: &str,
    reminder: BookmarkReminderUpdate,
    changed_at: i64,
    told: &Vec<Told>,
) -> (r: Ask<Bookmark>)
    ensures
        r@ == bookmark_editing(
            owner_sub@,
            post_id@,
            expected.bookmark_id@,
            expected.version,
            note@,
            reminder,
            changed_at,
            views(told@),
        ),
{
    if let Err(e) = check_edit_request(note, reminder, changed_at) {
        return Ask::Fail(e);
    }
    match lock_bookmark(owner_sub, post_id, told) {
        Err(ask) => ask,
        Ok(b) => restore(edit_bookmark(b, expected, note, reminder, changed_at)),
    }
}

/// A due reminder is settled, once its bookmark is locked: it is cleared, or moved to a later time
/// within the horizon.
pub open spec fn settling(
    owner_sub: Seq<char>,
    post_id: Seq<char>,
    bookmark_id: Seq<char>,
    version: i64,
    next: Option<i64>,
    changed_at: i64,
    told: Seq<ToldRow>,
) -> AskRow<BookmarkRow> {
    let check = match next {
        Some(at) => reminder_check(at as int, changed_at as int),
        None => Ok(()),
    };
    match check {
        Err(e) => AskRow::Fail(e),
        Ok(_) => match bookmark_lock(owner_sub, post_id, told) {
            Err(ask) => ask,
            Ok(b) => restored(settled_bookmark(b, bookmark_id, version, next, changed_at)),
        },
    }
}

/// The next step of settling a due reminder.
pub fn settle_reminder(
    owner_sub: &str,
    post_id: &str,
    expected: BookmarkCas<'_>,
    next: Option<i64>,
    changed_at: i64,
    told: &Vec<Told>,
) -> (r: Ask<Bookmark>)
    ensures
        r@ == settling(
            owner_sub@,
            post_id@,
            expected.bookmark_id@,
            expected.version,
            next,
            changed_at,
            views(told@),
        ),
{
    if let Some(at) = next {
        if let Err(e) = validate_future_reminder(at, changed_at) {
            return Ask::Fail(e);
        }
    }
    match lock_bookmark(owner_sub, post_id, told) {
        Err(ask) => ask,
        Ok(b) => restore(settle_bookmark(b, expected, next, changed_at)),
    }
}

/// A bookmark is removed, once it is locked.
pub open spec fn bookmark_removing(
    owner_sub: Seq<char>,
    post_id: Seq<char>,
    bookmark_id: Seq<char>,
    version: i64,
    told: Seq<ToldRow>,
) -> AskRow<()> {
    match bookmark_lock(owner_sub, post_id, told) {
        Err(ask) => ask,
        Ok(b) => match removal_write(b, bookmark_id, version) {
            Err(e) => AskRow::Fail(e),
            Ok(s) => AskRow::Finish(committing(seq![s]), ()),
        },
    }
}

/// The next step of removing a bookmark.
pub fn remove_saved(
    owner_sub: &str,
    post_id: &str,
    expected: BookmarkCas<'_>,
    told: &Vec<Told>,
) -> (r: Ask<()>)
    ensures
        r@ == bookmark_removing(
            owner_sub@,
            post_id@,
            expected.bookmark_id@,
            expected.version,
            views(told@),
        ),
{
    match lock_bookmark(owner_sub, post_id, told) {
        Err(ask) => ask,
        Ok(b) => match remove_bookmark(&b, expected) {
            Err(e) => Ask::Fail(e),
            Ok(s) => Ask::Finish(commit_of(just(s)), ()),
        },
    }
}

/// A reaction is given; when it was given before, it is taken back.
pub open spec fn toggling(
    post_id: Seq<char>,
    user_sub: Seq<char>,
    kind: Seq<char>,
    created_at: i64,
    told: Seq<ToldRow>,
) -> AskRow<bool> {
    if told.len() == 0 {
        AskRow::Fetch(
            no_steps(),
            Shape::Affected,
            statement(INSERT_REACTION@).text(post_id).text(user_sub).text(kind).number(created_at),
        )
    } else if affected_at(told, 0) > 0 {
        AskRow::Finish(no_steps(), true)
    } else {
        AskRow::Finish(
            running(seq![statement(DELETE_REACTION@).text(post_id).text(user_sub).text(kind)]),
            false,
        )
    }
}

/// The next step of toggling a reaction.
pub fn toggle_reaction(
    post_id: &str,
    user_sub: &str,
    kind: &str,
    created_at: i64,
    told: &Vec<Told>,
) -> (r: Ask<bool>)
    ensures
        r@ == toggling(post_id@, user_sub@, kind@, created_at, views(told@)),
{
    if told.len() == 0 {
        return Ask::Fetch(
            without_steps(),
            Shape::Affected,
            Statement::new(INSERT_REACTION).text(post_id).text(user_sub).text(kind).number(
                created_at,
            ),
        );
    }
    if told_affected(told, 0) > 0 {
        return Ask::Finish(without_steps(), true);
    }
    Ask::Finish(
        steps_of(
            just(Statement::new(DELETE_REACTION).text(post_id).text(user_sub).text(kind)),
        ),
        false,
    )
}

} // verus!
