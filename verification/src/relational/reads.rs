//! The reads and single writes whose text is fixed.

use vstd::prelude::*;

use crate::model::{BannedAuthor, Category};
use crate::relational::commands::moderation::category_insertion;
use crate::relational::sql::INSERT_CATEGORY;
use crate::relational::statement::{Statement, statement};
use crate::rows::opt;
use crate::store::rules::{focus_page_check, validate_category_focus_page};
use crate::store::types::{StoreError, maybe};
use crate::text::{blank_text, is_blank};

verus! {

/// The categories in their order.
pub const CATEGORIES: &'static str =
    "SELECT id, name, sort_order, format FROM categories ORDER BY sort_order, name";

/// One category.
pub const CATEGORY: &'static str =
    "SELECT id, name, sort_order, format FROM categories WHERE id = $1";

/// How many threads a category holds.
pub const THREADS_IN_CATEGORY: &'static str =
    "SELECT COUNT(*) AS n FROM threads WHERE category_id = $1";

/// Stores the name of a category.
pub const RENAME_CATEGORY: &'static str =
    "UPDATE categories SET name = $1 WHERE id = $2";

/// Stores the place of a category.
pub const ORDER_CATEGORY: &'static str =
    "UPDATE categories SET sort_order = $1 WHERE id = $2";

/// The threads in the order of display.
pub const RECENT_THREADS: &'static str =
    "SELECT id, category_id, title, author_sub, author_email, created_at, last_at, locked, \
    pinned, accepted_post_id FROM threads ORDER BY pinned DESC, last_at DESC, created_at \
    DESC, id DESC LIMIT $1";

/// The threads of a category in the order of display.
pub const CATEGORY_THREADS: &'static str =
    "SELECT id, category_id, title, author_sub, author_email, created_at, last_at, locked, \
    pinned, accepted_post_id FROM threads WHERE category_id = $1 ORDER BY pinned DESC, \
    last_at DESC, created_at DESC, id DESC LIMIT $2";

/// One thread.
pub const THREAD: &'static str =
    "SELECT id, category_id, title, author_sub, author_email, created_at, last_at, locked, \
    pinned, accepted_post_id FROM threads WHERE id = $1";

/// The threads with what they open with, latest first.
pub const DIGESTS: &'static str =
    "SELECT id, category_id, title, first_body_md FROM threads ORDER BY last_at DESC, \
    created_at DESC, id DESC LIMIT $1";

/// How many posts a thread holds.
pub const POSTS_IN_THREAD: &'static str =
    "SELECT COUNT(*) AS n FROM posts WHERE thread_id = $1";

/// One post.
pub const POST: &'static str =
    "SELECT id, thread_id, body_md, quoted_post_id, author_sub, author_email, created_at FROM \
    posts WHERE id = $1";

/// The accepted answer of a thread, when it is a reply in it.
pub const ACCEPTED_POST: &'static str =
    "SELECT p.id AS id, p.thread_id AS thread_id, p.body_md AS body_md, p.quoted_post_id AS \
    quoted_post_id, p.author_sub AS author_sub, p.author_email AS author_email, p.created_at \
    AS created_at FROM posts p JOIN threads t ON t.id = $1 WHERE p.id = t.accepted_post_id \
    AND p.thread_id = t.id AND p.id <> t.first_post_id FETCH FIRST 1 ROW ONLY";

/// The posts of a thread, the original first.
pub const THREAD_POSTS: &'static str =
    "SELECT id, thread_id, body_md, quoted_post_id, author_sub, author_email, created_at FROM \
    posts WHERE thread_id = $1 ORDER BY CASE WHEN id = (SELECT first_post_id FROM threads \
    WHERE id = $1) THEN 0 ELSE 1 END, created_at ASC, id ASC";

/// The original post of a thread.
pub const FIRST_POST: &'static str =
    "SELECT id, thread_id, body_md, quoted_post_id, author_sub, author_email, created_at FROM \
    posts WHERE thread_id = $1 AND id = (SELECT first_post_id FROM threads WHERE id = $1) \
    FETCH FIRST 1 ROW ONLY";

/// Stores the text of a post.
pub const UPDATE_POST: &'static str =
    "UPDATE posts SET body_md = $1 WHERE id = $2";

/// Stores whether a thread is locked.
pub const LOCK: &'static str =
    "UPDATE threads SET locked = $1 WHERE id = $2";

/// Stores whether a thread is pinned.
pub const PIN: &'static str =
    "UPDATE threads SET pinned = $1 WHERE id = $2";

/// How often a name is mentioned.
pub const MENTION_COUNT: &'static str =
    "SELECT COUNT(*) AS n FROM post_mentions WHERE mentioned_username = $1";

/// The mentions of a name, latest first.
pub const MENTIONS: &'static str =
    "SELECT post_id, thread_id, mentioned_username, created_at FROM post_mentions WHERE \
    mentioned_username = $1 ORDER BY created_at DESC, post_id DESC LIMIT $2";

/// The level at which a subject follows a thread.
pub const FOLLOW_LEVEL: &'static str =
    "SELECT CASE WHEN EXISTS (SELECT 1 FROM thread_follow_preferences WHERE thread_id = $1 AND \
    subscriber_sub = $2 AND level = 'mute') THEN 'mute' WHEN EXISTS (SELECT 1 FROM \
    thread_subscriptions WHERE thread_id = $1 AND subscriber_sub = $2) THEN 'watch' ELSE \
    COALESCE((SELECT level FROM thread_follow_preferences WHERE thread_id = $1 AND \
    subscriber_sub = $2), 'none') END";

/// The focus level of a viewer on a category.
pub const FOCUS_LEVEL: &'static str =
    "SELECT level FROM forum_category_focus_rules WHERE viewer_sub = $1 AND category_id = $2";

/// The focus rules of a viewer.
pub const FOCUS_RULES: &'static str =
    "SELECT c.id, c.name, c.sort_order, c.format, rule.level FROM forum_category_focus_rules \
    rule JOIN categories c ON c.id = rule.category_id WHERE rule.viewer_sub = $1 ORDER BY \
    c.sort_order ASC, c.id ASC";

/// The threads that the focus of a viewer shows.
pub const FOCUS_PAGE: &'static str =
    "SELECT t.id AS id, t.category_id AS category_id, t.title AS title, t.author_sub AS \
    author_sub, t.author_email AS author_email, t.created_at AS created_at, t.last_at AS \
    last_at, t.locked AS locked, t.pinned AS pinned, CASE WHEN c.format = 'question' AND \
    accepted.id IS NOT NULL THEN t.accepted_post_id ELSE '' END AS accepted_post_id, c.name \
    AS focus_category_name, c.sort_order AS focus_category_sort_order, c.format AS \
    focus_category_format, rule.level AS category_focus_level, CASE WHEN preference.level = \
    'mute' THEN 'mute' WHEN watcher.subscriber_sub IS NOT NULL THEN 'watch' ELSE \
    COALESCE(preference.level, 'none') END AS thread_follow_level FROM \
    forum_category_focus_rules AS rule JOIN categories AS c ON c.id = rule.category_id JOIN \
    threads AS t ON t.category_id = c.id LEFT JOIN posts AS accepted ON accepted.id = \
    t.accepted_post_id AND accepted.thread_id = t.id AND accepted.id <> t.first_post_id LEFT \
    JOIN thread_subscriptions AS watcher ON watcher.thread_id = t.id AND \
    watcher.subscriber_sub = $1 LEFT JOIN thread_follow_preferences AS preference ON \
    preference.thread_id = t.id AND preference.subscriber_sub = $1 WHERE rule.viewer_sub = $1 \
    AND t.created_at <= $2 AND CASE WHEN preference.level = 'mute' THEN 'mute' WHEN \
    watcher.subscriber_sub IS NOT NULL THEN 'watch' ELSE COALESCE(preference.level, 'none') \
    END <> 'mute' AND (rule.level IN ('priority', 'follow') OR CASE WHEN preference.level = \
    'mute' THEN 'mute' WHEN watcher.subscriber_sub IS NOT NULL THEN 'watch' ELSE \
    COALESCE(preference.level, 'none') END IN ('watch', 'follow')) ORDER BY CASE rule.level \
    WHEN 'priority' THEN 0 WHEN 'follow' THEN 1 ELSE 2 END, t.pinned DESC, t.last_at DESC, \
    t.created_at DESC, t.id DESC LIMIT $3";

/// The latest generation, shared with the writers.
pub const GENERATION: &'static str =
    "SELECT generation FROM forum_catch_up_clock WHERE id = 1 FOR SHARE";

/// How many events a viewer has not read.
pub const UNREAD_ACTIVITY: &'static str =
    "SELECT COUNT(*) AS n FROM forum_activity_events e JOIN threads t ON t.id = e.thread_id \
    JOIN posts p ON p.id = e.post_id AND p.thread_id = e.thread_id WHERE EXISTS (SELECT 1 \
    FROM forum_activity_deliveries d WHERE d.activity_id = e.id AND d.recipient_kind = \
    'subject' AND d.recipient_key = $1) AND NOT EXISTS (SELECT 1 FROM forum_activity_receipts \
    r WHERE r.activity_id = e.id AND r.viewer_sub = $1)";

/// How many reminders are due.
pub const DUE_COUNT: &'static str =
    "SELECT COUNT(*) FROM forum_bookmarks AS b JOIN posts AS p ON p.id = b.post_id WHERE \
    b.owner_sub = $1 AND b.remind_at <= $2";

/// One bookmark with its post.
pub const BOOKMARK: &'static str =
    "SELECT b.bookmark_id, b.owner_sub, b.post_id, b.note, b.remind_at, b.created_at, \
    b.updated_at, b.version, p.thread_id, t.title AS thread_title, p.author_email AS \
    post_author_email, p.body_md AS post_body_md, p.created_at AS post_created_at FROM \
    forum_bookmarks AS b JOIN posts AS p ON p.id = b.post_id JOIN threads AS t ON t.id = \
    p.thread_id WHERE b.owner_sub = $1 AND b.post_id = $2";

/// The reactions to a post by kind.
pub const REACTIONS: &'static str =
    "SELECT kind, COUNT(*) AS n, SUM(CASE WHEN user_sub = $2 THEN 1 ELSE 0 END) AS mine FROM \
    post_reactions WHERE post_id = $1 GROUP BY kind ORDER BY kind";

/// The banned authors, latest first.
pub const BANS: &'static str =
    "SELECT author_sub, reason, banned_by, created_at FROM banned_authors ORDER BY created_at \
    DESC, author_sub ASC";

/// Whether an author is banned.
pub const BAN_COUNT: &'static str =
    "SELECT COUNT(*) AS n FROM banned_authors WHERE author_sub = $1";

/// Removes a ban.
pub const DELETE_BAN: &'static str =
    "DELETE FROM banned_authors WHERE author_sub = $1";

/// Stores a ban, in place of an earlier one.
pub const UPSERT_BAN: &'static str =
    "INSERT INTO banned_authors (author_sub, reason, banned_by, created_at) VALUES ($1, $2, \
    $3, $4) ON CONFLICT (author_sub) DO UPDATE SET reason = EXCLUDED.reason, banned_by = \
    EXCLUDED.banned_by, created_at = EXCLUDED.created_at";

/// Reads the categories, by their order and then by name.
pub fn list_categories_query() -> (s: Statement)
    ensures
        s@ == statement(CATEGORIES@),
{
    Statement::new(CATEGORIES)
}

/// Reads a category.
pub fn get_category_query(id: &str) -> (s: Statement)
    ensures
        s@ == statement(CATEGORY@).text(id@),
{
    Statement::new(CATEGORY).text(id)
}

/// Counts the threads of a category.
pub fn count_threads_query(category_id: &str) -> (s: Statement)
    ensures
        s@ == statement(THREADS_IN_CATEGORY@).text(category_id@),
{
    Statement::new(THREADS_IN_CATEGORY).text(category_id)
}

/// Renames a category.
pub fn rename_category_statement(id: &str, name: &str) -> (s: Statement)
    ensures
        s@ == statement(RENAME_CATEGORY@).text(name@).text(id@),
{
    Statement::new(RENAME_CATEGORY).text(name).text(id)
}

/// Moves a category to another place.
pub fn set_category_order_statement(id: &str, sort_order: i64) -> (s: Statement)
    ensures
        s@ == statement(ORDER_CATEGORY@).number(sort_order).text(id@),
{
    Statement::new(ORDER_CATEGORY).number(sort_order).text(id)
}

/// Reads the latest threads, pinned ones first; without room there is nothing to ask for.
pub fn recent_threads_query(limit: i64) -> (r: Option<Statement>)
    ensures
        opt(r) == if limit <= 0 {
            None
        } else {
            Some(statement(RECENT_THREADS@).number(limit))
        },
{
    if limit <= 0 {
        return None;
    }
    Some(Statement::new(RECENT_THREADS).number(limit))
}

/// Reads the latest threads of a category, pinned ones first; without room there is nothing to ask
/// for.
pub fn threads_in_category_query(category_id: &str, limit: i64) -> (r: Option<Statement>)
    ensures
        opt(r) == if limit <= 0 {
            None
        } else {
            Some(statement(CATEGORY_THREADS@).text(category_id@).number(limit))
        },
{
    if limit <= 0 {
        return None;
    }
    Some(Statement::new(CATEGORY_THREADS).text(category_id).number(limit))
}

/// Reads a thread.
pub fn get_thread_query(id: &str) -> (s: Statement)
    ensures
        s@ == statement(THREAD@).text(id@),
{
    Statement::new(THREAD).text(id)
}

/// Reads what the latest threads open with; without room there is nothing to ask for.
pub fn thread_digests_query(limit: i64) -> (r: Option<Statement>)
    ensures
        opt(r) == if limit <= 0 {
            None
        } else {
            Some(statement(DIGESTS@).number(limit))
        },
{
    if limit <= 0 {
        return None;
    }
    Some(Statement::new(DIGESTS).number(limit))
}

/// Counts the posts of a thread.
pub fn count_posts_query(thread_id: &str) -> (s: Statement)
    ensures
        s@ == statement(POSTS_IN_THREAD@).text(thread_id@),
{
    Statement::new(POSTS_IN_THREAD).text(thread_id)
}

/// Reads a post.
pub fn get_post_query(id: &str) -> (s: Statement)
    ensures
        s@ == statement(POST@).text(id@),
{
    Statement::new(POST).text(id)
}

/// Reads the accepted answer of a thread, when it is a reply in it.
pub fn get_valid_accepted_post_query(thread_id: &str) -> (s: Statement)
    ensures
        s@ == statement(ACCEPTED_POST@).text(thread_id@),
{
    Statement::new(ACCEPTED_POST).text(thread_id)
}

/// Reads the posts of a thread, the original first.
pub fn posts_in_thread_query(thread_id: &str) -> (s: Statement)
    ensures
        s@ == statement(THREAD_POSTS@).text(thread_id@),
{
    Statement::new(THREAD_POSTS).text(thread_id)
}

/// Reads the original post of a thread.
pub fn first_post_in_thread_query(thread_id: &str) -> (s: Statement)
    ensures
        s@ == statement(FIRST_POST@).text(thread_id@),
{
    Statement::new(FIRST_POST).text(thread_id)
}

/// Changes the text of a post.
pub fn update_post_statement(post_id: &str, body_md: &str) -> (s: Statement)
    ensures
        s@ == statement(UPDATE_POST@).text(body_md@).text(post_id@),
{
    Statement::new(UPDATE_POST).text(body_md).text(post_id)
}

/// Locks or unlocks a thread.
pub fn set_thread_locked_statement(thread_id: &str, locked: bool) -> (s: Statement)
    ensures
        s@ == statement(LOCK@).flag(locked).text(thread_id@),
{
    Statement::new(LOCK).flag(locked).text(thread_id)
}

/// Pins or unpins a thread.
pub fn set_thread_pinned_statement(thread_id: &str, pinned: bool) -> (s: Statement)
    ensures
        s@ == statement(PIN@).flag(pinned).text(thread_id@),
{
    Statement::new(PIN).flag(pinned).text(thread_id)
}

/// Counts the mentions of a name.
pub fn count_mentions_for_user_query(mentioned_username: &str) -> (s: Statement)
    ensures
        s@ == statement(MENTION_COUNT@).text(mentioned_username@),
{
    Statement::new(MENTION_COUNT).text(mentioned_username)
}

/// Reads the latest mentions of a name.
pub fn mentions_for_user_query(mentioned_username: &str, limit: i64) -> (s: Statement)
    ensures
        s@ == statement(MENTIONS@).text(mentioned_username@).number(limit),
{
    Statement::new(MENTIONS).text(mentioned_username).number(limit)
}

/// Reads the level at which a subject follows a thread: a mute before a watch before the rest.
pub fn thread_follow_level_query(thread_id: &str, subscriber_sub: &str) -> (s: Statement)
    ensures
        s@ == statement(FOLLOW_LEVEL@).text(thread_id@).text(subscriber_sub@),
{
    Statement::new(FOLLOW_LEVEL).text(thread_id).text(subscriber_sub)
}

/// Reads the focus level of a viewer on a category.
pub fn category_focus_level_query(viewer_sub: &str, category_id: &str) -> (s: Statement)
    ensures
        s@ == statement(FOCUS_LEVEL@).text(viewer_sub@).text(category_id@),
{
    Statement::new(FOCUS_LEVEL).text(viewer_sub).text(category_id)
}

/// Reads the focus rules of a viewer; a blank viewer has none.
pub fn category_focus_rules_query(viewer_sub: &str) -> (r: Option<Statement>)
    ensures
        opt(r) == if blank_text(viewer_sub@) {
            None
        } else {
            Some(statement(FOCUS_RULES@).text(viewer_sub@))
        },
{
    if is_blank(viewer_sub) {
        return None;
    }
    Some(Statement::new(FOCUS_RULES).text(viewer_sub))
}

/// Reads the threads that the focus of a viewer shows; a blank viewer, or a page without room, has
/// none.
pub fn category_focus_page_query(viewer_sub: &str, limit: i64, as_of: i64) -> (r: Result<
    Option<Statement>,
    StoreError,
>)
    ensures
        maybe(r) == match focus_page_check(limit as int, as_of as int) {
            Err(e) => Err(e),
            Ok(_) => Ok(
                if limit == 0 || blank_text(viewer_sub@) {
                    None
                } else {
                    Some(statement(FOCUS_PAGE@).text(viewer_sub@).number(as_of).number(limit))
                },
            ),
        },
{
    if let Err(e) = validate_category_focus_page(limit, as_of) {
        return Err(e);
    }
    if limit == 0 || is_blank(viewer_sub) {
        return Ok(None);
    }
    Ok(Some(Statement::new(FOCUS_PAGE).text(viewer_sub).number(as_of).number(limit)))
}

/// Reads the latest generation, once every writer before it is done.
pub fn catch_up_snapshot_generation_query() -> (s: Statement)
    ensures
        s@ == statement(GENERATION@),
{
    Statement::new(GENERATION)
}

/// Counts the live events that a viewer was told of and has not read.
pub fn unread_activity_count_query(viewer_sub: &str) -> (s: Statement)
    ensures
        s@ == statement(UNREAD_ACTIVITY@).text(viewer_sub@),
{
    Statement::new(UNREAD_ACTIVITY).text(viewer_sub)
}

/// Counts the reminders of an owner that are due.
pub fn due_bookmark_count_query(owner_sub: &str, now: i64) -> (s: Statement)
    ensures
        s@ == statement(DUE_COUNT@).text(owner_sub@).number(now),
{
    Statement::new(DUE_COUNT).text(owner_sub).number(now)
}

/// Reads the bookmark of an owner on a post.
pub fn get_bookmark_query(owner_sub: &str, post_id: &str) -> (s: Statement)
    ensures
        s@ == statement(BOOKMARK@).text(owner_sub@).text(post_id@),
{
    Statement::new(BOOKMARK).text(owner_sub).text(post_id)
}

/// The viewer whose reactions are marked; nobody is the empty text.
pub open spec fn viewer_text(viewer_sub: Option<&str>) -> Seq<char> {
    match viewer_sub {
        Some(viewer) => viewer@,
        None => ""@,
    }
}

/// Reads the reactions to a post by kind; nobody is the empty viewer.
pub fn reactions_for_post_query(post_id: &str, viewer_sub: Option<&str>) -> (s: Statement)
    ensures
        s@ == statement(REACTIONS@).text(post_id@).text(viewer_text(viewer_sub)),
{
    let viewer = match viewer_sub {
        Some(viewer) => viewer,
        None => "",
    };
    Statement::new(REACTIONS).text(post_id).text(viewer)
}

/// Reads the banned authors, latest first.
pub fn list_bans_query() -> (s: Statement)
    ensures
        s@ == statement(BANS@),
{
    Statement::new(BANS)
}

/// Counts the bans of an author.
pub fn is_banned_query(author_sub: &str) -> (s: Statement)
    ensures
        s@ == statement(BAN_COUNT@).text(author_sub@),
{
    Statement::new(BAN_COUNT).text(author_sub)
}

/// Lifts the ban of an author.
pub fn remove_ban_statement(author_sub: &str) -> (s: Statement)
    ensures
        s@ == statement(DELETE_BAN@).text(author_sub@),
{
    Statement::new(DELETE_BAN).text(author_sub)
}

/// Bans an author; a later ban replaces an earlier one.
pub fn add_ban_statement(ban: &BannedAuthor) -> (s: Statement)
    ensures
        s@ == statement(UPSERT_BAN@).text(ban@.author_sub).text(ban@.reason).text(
            ban@.banned_by,
        ).number(ban@.created_at),
{
    Statement::new(UPSERT_BAN).text(ban.author_sub.as_str()).text(ban.reason.as_str()).text(
        ban.banned_by.as_str(),
    ).number(ban.created_at)
}

/// Stores a category; one that is there already is kept.
pub fn create_category_statement(category: &Category) -> (s: Statement)
    ensures
        s@ == category_insertion()(category@),
{
    Statement::new(INSERT_CATEGORY).text(category.id.as_str()).text(category.name.as_str()).number(
        category.sort_order,
    ).text(category.format.as_str())
}

} // verus!
