//! The statements of the relational store, as text.

use vstd::prelude::*;

verus! {

/// Stores a thread.
pub const INSERT_THREAD: &'static str =
    "INSERT INTO threads (id, category_id, title, author_sub, author_email, created_at, \
    last_at, first_body_md, first_post_id, locked, pinned, accepted_post_id) VALUES ($1, $2, \
    $3, $4, $5, $6, $7, $8, $9, $10, $11, $12)";

/// Stores a post.
pub const INSERT_POST: &'static str =
    "INSERT INTO posts (id, thread_id, body_md, quoted_post_id, author_sub, author_email, \
    created_at) VALUES ($1, $2, $3, $4, $5, $6, $7)";

/// Stores the latest generation.
pub const ADVANCE_CLOCK: &'static str =
    "UPDATE forum_catch_up_clock SET generation = $1 WHERE id = 1";

/// Enters a post into the catch-up record.
pub const INSERT_POINT: &'static str =
    "INSERT INTO forum_catch_up_post_points (post_id, thread_id, activity_at, seq) VALUES ($1, \
    $2, $3, $4)";

/// Remembers an alias of a subject.
pub const INSERT_ALIAS: &'static str =
    "INSERT INTO forum_identity_aliases (alias, subject, created_at) VALUES ($1, $2, $3) ON \
    CONFLICT (alias, subject) DO NOTHING";

/// Stores an activity event.
pub const INSERT_EVENT: &'static str =
    "INSERT INTO forum_activity_events (id, kind, thread_id, post_id, actor_sub, created_at) \
    VALUES ($1, $2, $3, $4, $5, $6)";

/// Stores a delivery of an event.
pub const INSERT_DELIVERY: &'static str =
    "INSERT INTO forum_activity_deliveries (activity_id, recipient_kind, recipient_key, \
    reason) VALUES ($1, $2, $3, $4) ON CONFLICT (activity_id, recipient_kind, recipient_key, \
    reason) DO NOTHING";

/// Removes the mentions of a post.
pub const DELETE_MENTIONS: &'static str =
    "DELETE FROM post_mentions WHERE post_id = $1";

/// Stores a mention.
pub const INSERT_MENTION: &'static str =
    "INSERT INTO post_mentions (post_id, thread_id, mentioned_username, created_at) VALUES \
    ($1, $2, $3, $4) ON CONFLICT (post_id, mentioned_username) DO NOTHING";

/// Moves a thread to the time of its latest reply.
pub const BUMP_THREAD: &'static str =
    "UPDATE threads SET last_at = $1 WHERE id = $2";

/// Locks the posts of a thread.
pub const LOCK_THREAD_POSTS: &'static str =
    "SELECT id FROM posts WHERE thread_id = $1 ORDER BY id FOR UPDATE";

/// Removes the reactions in a thread.
pub const DELETE_THREAD_REACTIONS: &'static str =
    "DELETE FROM post_reactions WHERE post_id IN (SELECT id FROM posts WHERE thread_id = $1)";

/// Removes the mentions in a thread.
pub const DELETE_THREAD_MENTIONS: &'static str =
    "DELETE FROM post_mentions WHERE thread_id = $1";

/// Removes the watches of a thread.
pub const DELETE_THREAD_WATCHES: &'static str =
    "DELETE FROM thread_subscriptions WHERE thread_id = $1";

/// Removes the preferences about a thread.
pub const DELETE_THREAD_PREFERENCES: &'static str =
    "DELETE FROM thread_follow_preferences WHERE thread_id = $1";

/// Locks the events in a thread.
pub const LOCK_THREAD_EVENTS: &'static str =
    "SELECT id FROM forum_activity_events WHERE thread_id = $1 ORDER BY id FOR UPDATE";

/// Removes the events in a thread.
pub const DELETE_THREAD_EVENTS: &'static str =
    "DELETE FROM forum_activity_events WHERE thread_id = $1";

/// Removes the posts of a thread.
pub const DELETE_THREAD_POSTS: &'static str =
    "DELETE FROM posts WHERE thread_id = $1";

/// Removes a thread.
pub const DELETE_THREAD: &'static str =
    "DELETE FROM threads WHERE id = $1";

/// Removes the reactions to a post.
pub const DELETE_POST_REACTIONS: &'static str =
    "DELETE FROM post_reactions WHERE post_id = $1";

/// Locks the events about a post.
pub const LOCK_POST_EVENTS: &'static str =
    "SELECT id FROM forum_activity_events WHERE post_id = $1 ORDER BY id FOR UPDATE";

/// Removes the events about a post.
pub const DELETE_POST_EVENTS: &'static str =
    "DELETE FROM forum_activity_events WHERE post_id = $1";

/// Clears the quotes of a post.
pub const CLEAR_QUOTES: &'static str =
    "UPDATE posts SET quoted_post_id = '' WHERE quoted_post_id = $1";

/// Removes a post.
pub const DELETE_POST: &'static str =
    "DELETE FROM posts WHERE id = $1";

/// Stores the latest time and the accepted answer of a thread.
pub const SETTLE_THREAD: &'static str =
    "UPDATE threads SET last_at = $1, accepted_post_id = $2 WHERE id = $3";

/// Stores the category and the accepted answer of a thread.
pub const MOVE_THREAD: &'static str =
    "UPDATE threads SET category_id = $1, accepted_post_id = $2 WHERE id = $3";

/// Stores the accepted answer of a thread.
pub const SET_ACCEPTED: &'static str =
    "UPDATE threads SET accepted_post_id = $1 WHERE id = $2";

/// Stores the format of a category.
pub const SET_FORMAT: &'static str =
    "UPDATE categories SET format = $1 WHERE id = $2";

/// Removes a category.
pub const DELETE_CATEGORY: &'static str =
    "DELETE FROM categories WHERE id = $1";

/// Removes a watch.
pub const DELETE_WATCH: &'static str =
    "DELETE FROM thread_subscriptions WHERE thread_id = $1 AND subscriber_sub = $2";

/// Removes a follow or mute preference.
pub const DELETE_PREFERENCE: &'static str =
    "DELETE FROM thread_follow_preferences WHERE thread_id = $1 AND subscriber_sub = $2";

/// Stores a watch.
pub const UPSERT_WATCH: &'static str =
    "INSERT INTO thread_subscriptions (thread_id, subscriber_sub, created_at) VALUES ($1, $2, \
    $3) ON CONFLICT (thread_id, subscriber_sub) DO UPDATE SET created_at = EXCLUDED.created_at";

/// Stores a follow or mute preference.
pub const UPSERT_PREFERENCE: &'static str =
    "INSERT INTO thread_follow_preferences (thread_id, subscriber_sub, level, created_at) \
    VALUES ($1, $2, $3, $4) ON CONFLICT (thread_id, subscriber_sub) DO UPDATE SET level = \
    EXCLUDED.level, created_at = EXCLUDED.created_at";

/// Withdraws the deliveries a viewer got only for watching a thread.
pub const DELETE_FOLLOWING_DELIVERIES: &'static str =
    "DELETE FROM forum_activity_deliveries WHERE recipient_kind = 'subject' AND recipient_key \
    = $1 AND reason = 'following' AND activity_id IN (SELECT id FROM forum_activity_events \
    WHERE thread_id = $2)";

/// Removes the receipts of events that no longer reach the viewer.
pub const DELETE_ORPHAN_RECEIPTS: &'static str =
    "DELETE FROM forum_activity_receipts AS receipt WHERE receipt.viewer_sub = $1 AND \
    receipt.activity_id IN (SELECT id FROM forum_activity_events WHERE thread_id = $2) AND \
    NOT EXISTS (SELECT 1 FROM forum_activity_deliveries AS delivery WHERE \
    delivery.activity_id = receipt.activity_id AND delivery.recipient_kind = 'subject' AND \
    delivery.recipient_key = $1)";

/// Removes the events of a thread that reach nobody.
pub const DELETE_ORPHAN_EVENTS: &'static str =
    "DELETE FROM forum_activity_events AS event WHERE event.thread_id = $1 AND NOT EXISTS \
    (SELECT 1 FROM forum_activity_deliveries AS delivery WHERE delivery.activity_id = \
    event.id)";

/// Removes a focus rule.
pub const DELETE_FOCUS_RULE: &'static str =
    "DELETE FROM forum_category_focus_rules WHERE viewer_sub = $1 AND category_id = $2";

/// Changes a focus rule.
pub const UPDATE_FOCUS_RULE: &'static str =
    "UPDATE forum_category_focus_rules SET level = $1, updated_at = GREATEST($2, created_at) \
    WHERE viewer_sub = $3 AND category_id = $4";

/// Stores a focus rule.
pub const INSERT_FOCUS_RULE: &'static str =
    "INSERT INTO forum_category_focus_rules (viewer_sub, category_id, level, created_at, \
    updated_at) VALUES ($1, $2, $3, $4, $4)";

/// Stores a read receipt.
pub const INSERT_READ_RECEIPT: &'static str =
    "INSERT INTO forum_post_read_receipts (viewer_sub, post_id, read_at, read_seq) VALUES ($1, \
    $2, $3, $4) ON CONFLICT (viewer_sub, post_id) DO NOTHING";

/// Gives a read receipt without a generation its first one.
pub const SEQUENCE_READ_RECEIPT: &'static str =
    "UPDATE forum_post_read_receipts SET read_seq = $1 WHERE viewer_sub = $2 AND post_id = $3 \
    AND read_seq IS NULL";

/// Marks an event read.
pub const UPSERT_ACTIVITY_RECEIPT: &'static str =
    "INSERT INTO forum_activity_receipts (activity_id, viewer_sub, read_at) VALUES ($1, $2, \
    $3) ON CONFLICT (activity_id, viewer_sub) DO UPDATE SET read_at = EXCLUDED.read_at";

/// Marks an event unread.
pub const DELETE_ACTIVITY_RECEIPT: &'static str =
    "DELETE FROM forum_activity_receipts WHERE activity_id = $1 AND viewer_sub = $2";

/// Stores a bookmark.
pub const INSERT_BOOKMARK: &'static str =
    "INSERT INTO forum_bookmarks (bookmark_id, owner_sub, post_id, note, remind_at, \
    created_at, updated_at, version) VALUES ($1, $2, $3, $4, $5, $6, $7, $8)";

/// Stores the changed parts of a bookmark.
pub const UPDATE_BOOKMARK: &'static str =
    "UPDATE forum_bookmarks SET note = $1, remind_at = $2, updated_at = $3, version = $4 WHERE \
    owner_sub = $5 AND post_id = $6 AND bookmark_id = $7";

/// Removes a bookmark.
pub const DELETE_BOOKMARK: &'static str =
    "DELETE FROM forum_bookmarks WHERE owner_sub = $1 AND post_id = $2 AND bookmark_id = $3";

/// Enters an older post into the catch-up record.
pub const BACKFILL_POINT: &'static str =
    "INSERT INTO forum_catch_up_post_points (post_id, thread_id, activity_at, seq) VALUES ($1, \
    $2, $3, $4) ON CONFLICT (post_id) DO NOTHING";

/// Reads the category of a thread.
pub const CATEGORY_OF_THREAD: &'static str =
    "SELECT category_id FROM threads WHERE id = $1";

/// Locks a category.
pub const LOCK_CATEGORY: &'static str =
    "SELECT id FROM categories WHERE id = $1 FOR UPDATE";

/// Locks a category and reads its format.
pub const LOCK_CATEGORY_FORMAT: &'static str =
    "SELECT format FROM categories WHERE id = $1 FOR UPDATE";

/// Locks a thread and reads its category.
pub const LOCK_THREAD_CATEGORY: &'static str =
    "SELECT category_id FROM threads WHERE id = $1 FOR UPDATE";

/// Locks a thread.
pub const LOCK_THREAD_ID: &'static str =
    "SELECT id FROM threads WHERE id = $1 FOR UPDATE";

/// Reads the thread of a post.
pub const THREAD_OF_POST: &'static str =
    "SELECT thread_id FROM posts WHERE id = $1";

/// Locks a post.
pub const LOCK_POST_ID: &'static str =
    "SELECT id FROM posts WHERE id = $1 FOR UPDATE";

/// Locks a post and reads its thread.
pub const LOCK_POST_THREAD: &'static str =
    "SELECT thread_id FROM posts WHERE id = $1 FOR UPDATE";

/// Locks the threads of a category and reads their pointers.
pub const LOCK_THREADS_OF_CATEGORY: &'static str =
    "SELECT id, first_post_id, accepted_post_id FROM threads WHERE category_id = $1 ORDER BY \
    id FOR UPDATE";

/// Counts the threads of a category.
pub const COUNT_THREADS: &'static str =
    "SELECT COUNT(*) FROM threads WHERE category_id = $1";

/// Counts the categories.
pub const COUNT_CATEGORIES: &'static str =
    "SELECT COUNT(*) AS n FROM categories";

/// Stores a category.
pub const INSERT_CATEGORY: &'static str =
    "INSERT INTO categories (id, name, sort_order, format) VALUES ($1, $2, $3, $4) ON CONFLICT \
    (id) DO NOTHING";

/// Locks the clock and reads the latest generation.
pub const LOCK_CLOCK: &'static str =
    "SELECT generation FROM forum_catch_up_clock WHERE id = 1 FOR UPDATE";

/// Reads up to two subjects that use an alias.
pub const SUBJECTS_OF_ALIAS: &'static str =
    "SELECT subject FROM forum_identity_aliases WHERE alias = $1 ORDER BY subject LIMIT 2";

/// Reads the watchers of a thread that do not mute it.
pub const WATCHERS: &'static str =
    "SELECT subscriber_sub FROM thread_subscriptions WHERE thread_id = $1 AND NOT EXISTS \
    (SELECT 1 FROM thread_follow_preferences AS preference WHERE preference.thread_id = \
    thread_subscriptions.thread_id AND preference.subscriber_sub = \
    thread_subscriptions.subscriber_sub AND preference.level = 'mute') ORDER BY \
    subscriber_sub LIMIT $2";

/// Reads whether a viewer watches a thread.
pub const OWN_WATCH: &'static str =
    "SELECT subscriber_sub FROM thread_subscriptions WHERE thread_id = $1 AND subscriber_sub = \
    $2";

/// Reads the watchers of a thread.
pub const ALL_WATCHERS: &'static str =
    "SELECT subscriber_sub FROM thread_subscriptions WHERE thread_id = $1 ORDER BY \
    subscriber_sub LIMIT $2";

/// Reads when the newest post of a thread was written.
pub const NEWEST_POST: &'static str =
    "SELECT MAX(created_at) FROM posts WHERE thread_id = $1";

/// Makes sure that a viewer can be locked for their focus rules.
pub const GUARD_FOCUS_OWNER: &'static str =
    "INSERT INTO forum_category_focus_owner_guards (viewer_sub) VALUES ($1) ON CONFLICT \
    (viewer_sub) DO NOTHING";

/// Locks a viewer for their focus rules.
pub const LOCK_FOCUS_OWNER: &'static str =
    "SELECT viewer_sub FROM forum_category_focus_owner_guards WHERE viewer_sub = $1 FOR UPDATE";

/// Locks a focus rule and reads its level.
pub const LOCK_FOCUS_RULE: &'static str =
    "SELECT level FROM forum_category_focus_rules WHERE viewer_sub = $1 AND category_id = $2 \
    FOR UPDATE";

/// Counts the focus rules of a viewer.
pub const COUNT_FOCUS_RULES: &'static str =
    "SELECT COUNT(*) FROM forum_category_focus_rules WHERE viewer_sub = $1";

/// Locks a read receipt and reads its generation.
pub const LOCK_READ_RECEIPT: &'static str =
    "SELECT read_seq FROM forum_post_read_receipts WHERE viewer_sub = $1 AND post_id = $2 FOR \
    UPDATE";

/// Reads what a receipt for an event locks.
pub const ACTIVITY_TARGET: &'static str =
    "SELECT t.category_id, e.thread_id, e.post_id, e.id AS activity_id FROM \
    forum_activity_events AS e JOIN threads AS t ON t.id = e.thread_id WHERE e.id = $1";

/// Locks an event that was delivered to the viewer.
pub const LOCK_EVENT: &'static str =
    "SELECT e.id FROM forum_activity_events AS e WHERE e.id = $1 AND e.thread_id = $2 AND \
    e.post_id = $3 AND EXISTS (SELECT 1 FROM forum_activity_deliveries AS d WHERE \
    d.activity_id = e.id AND d.recipient_kind = 'subject' AND d.recipient_key = $4) FOR \
    UPDATE OF e";

/// Marks an event read, unless it was read before.
pub const INSERT_ACTIVITY_RECEIPT: &'static str =
    "INSERT INTO forum_activity_receipts (activity_id, viewer_sub, read_at) VALUES ($1, $2, \
    $3) ON CONFLICT (activity_id, viewer_sub) DO NOTHING";

/// Makes sure that an owner can be locked for their bookmarks.
pub const GUARD_BOOKMARK_OWNER: &'static str =
    "INSERT INTO forum_bookmark_owner_guards (owner_sub) VALUES ($1) ON CONFLICT (owner_sub) \
    DO NOTHING";

/// Locks an owner for their bookmarks.
pub const LOCK_BOOKMARK_OWNER: &'static str =
    "SELECT owner_sub FROM forum_bookmark_owner_guards WHERE owner_sub = $1 FOR UPDATE";

/// Reads a bookmark.
pub const READ_BOOKMARK: &'static str =
    "SELECT bookmark_id, owner_sub, post_id, note, remind_at, created_at, updated_at, version \
    FROM forum_bookmarks WHERE owner_sub = $1 AND post_id = $2";

/// Locks a bookmark.
pub const LOCK_BOOKMARK: &'static str =
    "SELECT bookmark_id, owner_sub, post_id, note, remind_at, created_at, updated_at, version \
    FROM forum_bookmarks WHERE owner_sub = $1 AND post_id = $2 FOR UPDATE";

/// Counts the bookmarks of an owner.
pub const COUNT_BOOKMARKS: &'static str =
    "SELECT COUNT(*) FROM forum_bookmarks WHERE owner_sub = $1";

/// Stores a reaction, unless it was given before.
pub const INSERT_REACTION: &'static str =
    "INSERT INTO post_reactions (post_id, user_sub, kind, created_at) VALUES ($1, $2, $3, $4) \
    ON CONFLICT (post_id, user_sub, kind) DO NOTHING";

/// Removes a reaction.
pub const DELETE_REACTION: &'static str =
    "DELETE FROM post_reactions WHERE post_id = $1 AND user_sub = $2 AND kind = $3";

/// Stores the title of a thread and the body of its original post.
pub const RETITLE_THREAD: &'static str =
    "UPDATE threads SET title = $1, first_body_md = $2 WHERE id = $3";

/// Stores the body of a post.
pub const REWRITE_POST: &'static str =
    "UPDATE posts SET body_md = $1 WHERE id = $2";

/// Locks a thread and reads it with the post it was opened with.
pub const LOCK_THREAD: &'static str =
    "SELECT id, category_id, title, author_sub, author_email, created_at, last_at, locked, \
    pinned, accepted_post_id, first_post_id FROM threads WHERE id = $1 FOR UPDATE";

/// Locks a post and reads it.
pub const LOCK_POST: &'static str =
    "SELECT id, thread_id, body_md, quoted_post_id, author_sub, author_email, created_at FROM \
    posts WHERE id = $1 FOR UPDATE";

/// The columns and tables of a thread list.
pub const LIST_SELECT: &'static str =
    "SELECT t.id AS id, t.category_id AS category_id, t.title AS title, t.author_sub AS \
    author_sub, t.author_email AS author_email, t.created_at AS created_at, t.last_at AS \
    last_at, t.locked AS locked, t.pinned AS pinned, CASE WHEN c.format = 'question' AND \
    accepted.id IS NOT NULL THEN t.accepted_post_id ELSE '' END AS accepted_post_id, \
    COUNT(p.id) AS post_count FROM threads t LEFT JOIN categories c ON c.id = t.category_id \
    LEFT JOIN posts accepted ON accepted.id = t.accepted_post_id AND accepted.thread_id = \
    t.id AND accepted.id <> t.first_post_id LEFT JOIN posts p ON p.thread_id = t.id";

/// Narrows a thread list to watched threads; the subscriber parameter follows.
pub const LIST_WATCHED: &'static str =
    " JOIN (SELECT watcher.thread_id FROM thread_subscriptions AS watcher WHERE \
    watcher.subscriber_sub = $";

/// Leaves muted threads out.
pub const LIST_NOT_MUTED: &'static str =
    " AND NOT EXISTS (SELECT 1 FROM thread_follow_preferences AS preference WHERE \
    preference.thread_id = watcher.thread_id AND preference.subscriber_sub = \
    watcher.subscriber_sub AND preference.level = 'mute')";

/// Adds followed threads; the subscriber parameter follows.
pub const LIST_FOLLOWED: &'static str =
    " UNION SELECT thread_id FROM thread_follow_preferences WHERE level = 'follow' AND \
    subscriber_sub = $";

/// Closes the subscription scope.
pub const LIST_JOINED: &'static str =
    ") s ON s.thread_id = t.id";

/// The grouping of a thread list.
pub const LIST_GROUP: &'static str =
    "t.id, t.category_id, t.title, t.author_sub, t.author_email, t.created_at, t.last_at, \
    t.locked, t.pinned, t.accepted_post_id, t.first_post_id, c.format, accepted.id";

/// The heat of a thread, up to the parameter of the current time.
pub const HOT_BEFORE: &'static str =
    "CAST(GREATEST(COUNT(p.id) - 1, 0) AS DOUBLE PRECISION) / POWER(CAST(GREATEST($";

/// The heat of a thread, behind the parameter of the current time.
pub const HOT_AFTER: &'static str =
    " - t.created_at, 0) AS DOUBLE PRECISION) / 3600.0 + 2.0, 1.5) DESC, COUNT(p.id) DESC, \
    t.last_at DESC, t.created_at DESC, t.id DESC";

/// The columns, tables, and match of a thread search.
pub const SEARCH_SELECT: &'static str =
    "SELECT t.id AS id, t.category_id AS category_id, t.title AS title, t.author_sub AS \
    author_sub, t.author_email AS author_email, t.created_at AS created_at, t.last_at AS \
    last_at, t.locked AS locked, t.pinned AS pinned, CASE WHEN c.format = 'question' AND \
    accepted.id IS NOT NULL THEN t.accepted_post_id ELSE '' END AS accepted_post_id, \
    t.first_body_md AS first_body_md, COALESCE(accepted.body_md, '') AS accepted_body_md, \
    (LOWER(COALESCE(accepted.body_md, '')) LIKE $1 ESCAPE '!') AS matched_in_solution, \
    (SELECT COUNT(*) FROM posts p WHERE p.thread_id = t.id) AS post_count FROM threads t LEFT \
    JOIN categories c ON c.id = t.category_id LEFT JOIN posts accepted ON accepted.id = \
    t.accepted_post_id AND accepted.thread_id = t.id AND accepted.id <> t.first_post_id AND \
    c.format = 'question' WHERE (LOWER(t.title) LIKE $1 ESCAPE '!' OR LOWER(t.first_body_md) \
    LIKE $1 ESCAPE '!' OR LOWER(COALESCE(accepted.body_md, '')) LIKE $1 ESCAPE '!')";

/// The order of a thread search; the limit parameter follows.
pub const SEARCH_ORDER: &'static str =
    " ORDER BY t.pinned DESC, t.last_at DESC, t.created_at DESC, t.id DESC LIMIT $";

/// The columns of a post.
pub const POST_COLUMNS: &'static str =
    "id, thread_id, body_md, quoted_post_id, author_sub, author_email, created_at";

/// The columns of a joined post.
pub const JOINED_POST_COLUMNS: &'static str =
    "p.id AS id, p.thread_id AS thread_id, p.body_md AS body_md, p.quoted_post_id AS \
    quoted_post_id, p.author_sub AS author_sub, p.author_email AS author_email, p.created_at \
    AS created_at";

/// The replies of a thread but for an excluded one.
pub const REPLIES_SCOPE: &'static str =
    " FROM posts WHERE thread_id = $1 AND id <> $2 AND ($3 IS NULL OR id <> $3) ";

/// The personal signals of threads; the thread parameters follow.
pub const SIGNALS_SELECT: &'static str =
    "SELECT t.id AS thread_id, CASE WHEN preference.level = 'mute' THEN 'mute' WHEN \
    watcher.subscriber_sub IS NOT NULL THEN 'watch' ELSE COALESCE(preference.level, 'none') \
    END AS follow_level, CASE WHEN t.author_sub = $1 THEN TRUE ELSE FALSE END AS authored, \
    EXISTS (SELECT 1 FROM posts AS participant WHERE participant.thread_id = t.id AND \
    participant.author_sub = $1) AS participated, EXISTS (SELECT 1 FROM forum_bookmarks AS \
    bookmark JOIN posts AS bookmarked_post ON bookmarked_post.id = bookmark.post_id WHERE \
    bookmark.owner_sub = $1 AND bookmarked_post.thread_id = t.id) AS bookmarked, EXISTS \
    (SELECT 1 FROM forum_post_read_receipts AS receipt JOIN posts AS read_post ON \
    read_post.id = receipt.post_id WHERE receipt.viewer_sub = $1 AND read_post.thread_id = \
    t.id) AS reading_started, EXISTS (SELECT 1 FROM posts AS unread_post WHERE \
    unread_post.thread_id = t.id AND NOT EXISTS (SELECT 1 FROM forum_post_read_receipts AS \
    receipt WHERE receipt.viewer_sub = $1 AND receipt.post_id = unread_post.id)) AS \
    has_unread FROM threads AS t LEFT JOIN thread_subscriptions AS watcher ON \
    watcher.thread_id = t.id AND watcher.subscriber_sub = $1 LEFT JOIN \
    thread_follow_preferences AS preference ON preference.thread_id = t.id AND \
    preference.subscriber_sub = $1 WHERE t.id IN (";

/// The posts of threads with their read receipts; the thread parameters follow.
pub const READING_SELECT: &'static str =
    "SELECT p.id AS id, p.thread_id AS thread_id, p.body_md AS body_md, p.quoted_post_id AS \
    quoted_post_id, p.author_sub AS author_sub, p.author_email AS author_email, p.created_at \
    AS created_at, r.read_at AS read_at FROM posts AS p JOIN threads AS t ON t.id = \
    p.thread_id LEFT JOIN forum_post_read_receipts AS r ON r.post_id = p.id AND r.viewer_sub \
    = $1 WHERE p.thread_id IN (";

/// The reading order of posts.
pub const READING_ORDER: &'static str =
    ") ORDER BY p.thread_id ASC, CASE WHEN p.id = t.first_post_id THEN 0 ELSE 1 END ASC, \
    p.created_at ASC, p.id ASC";

/// The columns and tables of a bookmark page.
pub const BOOKMARK_SELECT: &'static str =
    "SELECT b.bookmark_id, b.owner_sub, b.post_id, b.note, b.remind_at, b.created_at, \
    b.updated_at, b.version, p.thread_id, t.title AS thread_title, p.author_email AS \
    post_author_email, p.body_md AS post_body_md, p.created_at AS post_created_at FROM \
    forum_bookmarks AS b JOIN posts AS p ON p.id = b.post_id JOIN threads AS t ON t.id = \
    p.thread_id  WHERE b.owner_sub = $1";

/// Every bookmark, newest first.
pub const ALL_BOOKMARKS: &'static str =
    " AND ($2::BIGINT IS NULL OR b.created_at < $2 OR (b.created_at = $2 AND b.post_id < $3)) \
    ORDER BY b.created_at DESC, b.post_id DESC LIMIT $4";

/// The due bookmarks, earliest reminder first.
pub const DUE_BOOKMARKS: &'static str =
    " AND b.remind_at <= $4 AND ($2::BIGINT IS NULL OR b.remind_at > $2 OR (b.remind_at = $2 \
    AND b.post_id > $3)) ORDER BY b.remind_at ASC, b.post_id ASC LIMIT $5";

/// The scheduled bookmarks, earliest reminder first.
pub const SCHEDULED_BOOKMARKS: &'static str =
    " AND b.remind_at > $4 AND ($2::BIGINT IS NULL OR b.remind_at > $2 OR (b.remind_at = $2 \
    AND b.post_id > $3)) ORDER BY b.remind_at ASC, b.post_id ASC LIMIT $5";

/// The columns and the table of bookmarks; the owner parameter follows.
pub const BOOKMARKS_SELECT: &'static str =
    "SELECT bookmark_id, owner_sub, post_id, note, remind_at, created_at, updated_at, version \
    FROM forum_bookmarks WHERE owner_sub = ";

/// The posts of the snapshot; the candidate threads follow.
pub const CATCH_UP_SNAPSHOT: &'static str =
    "WITH snapshot_points AS ( SELECT post_id, thread_id, activity_at, seq FROM \
    forum_catch_up_post_points WHERE seq <= $3 AND activity_at <= $2 ), snapshot_posts AS ( \
    SELECT p.id, p.thread_id, p.body_md, p.quoted_post_id, p.author_sub, p.author_email, \
    p.created_at FROM posts AS p JOIN snapshot_points AS point ON point.post_id = p.id ), \
    personal_thread_ids AS ( ";

/// What a candidate thread shows in the snapshot; the scope of the view follows.
pub const CATCH_UP_PROJECTION: &'static str =
    " ), projected AS ( SELECT t.id AS id, t.category_id AS category_id, t.title AS title, \
    t.author_sub AS author_sub, t.author_email AS author_email, t.created_at AS created_at, \
    t.last_at AS last_at, t.locked AS locked, t.pinned AS pinned, CASE WHEN c.format = \
    'question' AND accepted.id IS NOT NULL THEN t.accepted_post_id ELSE '' END AS \
    accepted_post_id, t.first_post_id AS first_post_id, c.name AS category_name, c.format AS \
    category_format, CASE WHEN preference.level = 'mute' THEN 'mute' WHEN \
    watcher.subscriber_sub IS NOT NULL THEN 'watch' ELSE COALESCE(preference.level, 'none') \
    END AS follow_level, CASE WHEN t.author_sub = $1 THEN TRUE ELSE FALSE END AS authored, \
    EXISTS ( SELECT 1 FROM snapshot_posts AS participant WHERE participant.thread_id = t.id \
    AND participant.author_sub = $1 ) AS participated, EXISTS ( SELECT 1 FROM forum_bookmarks \
    AS bookmark JOIN snapshot_posts AS bookmarked_post ON bookmarked_post.id = \
    bookmark.post_id WHERE bookmark.owner_sub = $1 AND bookmark.created_at <= $2 AND \
    bookmarked_post.thread_id = t.id ) AS bookmarked, EXISTS ( SELECT 1 FROM \
    forum_post_read_receipts AS receipt JOIN snapshot_posts AS read_post ON read_post.id = \
    receipt.post_id WHERE receipt.viewer_sub = $1 AND receipt.read_at <= $2 AND \
    read_post.thread_id = t.id AND receipt.read_seq <= $3 ) AS reading_started, (SELECT \
    COUNT(*) FROM snapshot_posts AS unread_post WHERE unread_post.thread_id = t.id AND NOT \
    EXISTS ( SELECT 1 FROM forum_post_read_receipts AS receipt WHERE receipt.viewer_sub = $1 \
    AND receipt.post_id = unread_post.id AND receipt.read_at <= $2 AND receipt.read_seq <= $3 \
    )) AS unread_count, COALESCE((SELECT MAX(point.activity_at) FROM snapshot_points AS point \
    WHERE point.thread_id = t.id), t.created_at) AS activity_at, (SELECT COUNT(*) FROM \
    snapshot_posts AS counted_post WHERE counted_post.thread_id = t.id) AS post_count, CASE \
    WHEN c.format = 'question' AND accepted.id IS NOT NULL THEN TRUE ELSE FALSE END AS solved \
    FROM personal_thread_ids AS personal JOIN threads AS t ON t.id = personal.thread_id JOIN \
    categories AS c ON c.id = t.category_id JOIN snapshot_points AS initial_point ON \
    initial_point.post_id = t.first_post_id LEFT JOIN thread_subscriptions AS watcher ON \
    watcher.thread_id = t.id AND watcher.subscriber_sub = $1 LEFT JOIN \
    thread_follow_preferences AS preference ON preference.thread_id = t.id AND \
    preference.subscriber_sub = $1 LEFT JOIN snapshot_posts AS accepted ON accepted.id = \
    t.accepted_post_id AND accepted.thread_id = t.id AND accepted.id <> t.first_post_id WHERE \
    t.created_at <= $2 ), eligible AS ( SELECT * FROM projected WHERE follow_level <> 'mute' \
    AND ";

/// The page of the view with the first unread post of each thread.
pub const CATCH_UP_PAGE: &'static str =
    " ), page AS ( SELECT * FROM eligible WHERE ($4 = FALSE OR activity_at < $5 OR \
    (activity_at = $5 AND id < $6)) ORDER BY activity_at DESC, id DESC LIMIT $7 ) SELECT \
    page.*, first_unread.id AS unread_id, first_unread.thread_id AS unread_thread_id, \
    first_unread.body_md AS unread_body_md, first_unread.quoted_post_id AS \
    unread_quoted_post_id, first_unread.author_sub AS unread_author_sub, \
    first_unread.author_email AS unread_author_email, first_unread.created_at AS \
    unread_created_at FROM page LEFT JOIN snapshot_posts AS first_unread ON first_unread.id = \
    ( SELECT candidate.id FROM snapshot_posts AS candidate WHERE candidate.thread_id = \
    page.id AND NOT EXISTS ( SELECT 1 FROM forum_post_read_receipts AS receipt WHERE \
    receipt.viewer_sub = $1 AND receipt.post_id = candidate.id AND receipt.read_at <= $2 AND \
    receipt.read_seq <= $3 ) ORDER BY CASE WHEN candidate.id = page.first_post_id THEN 0 ELSE \
    1 END, candidate.created_at ASC, candidate.id ASC LIMIT 1 ) ORDER BY page.activity_at \
    DESC, page.id DESC";

/// Threads with unread posts that concern the viewer.
pub const UPDATES_SCOPE: &'static str =
    "unread_count > 0 AND (follow_level IN ('watch', 'follow') OR authored OR participated OR \
    bookmarked OR reading_started)";

/// Threads the viewer watches or follows.
pub const FOLLOWING_SCOPE: &'static str =
    "follow_level IN ('watch', 'follow')";

/// Questions the viewer asked.
pub const QUESTIONS_SCOPE: &'static str =
    "authored AND category_format = 'question'";

/// The threads the viewer watches or follows.
pub const FOLLOWING_SOURCES: &'static str =
    "SELECT watcher.thread_id FROM thread_subscriptions AS watcher WHERE \
    watcher.subscriber_sub = $1 AND NOT EXISTS (SELECT 1 FROM thread_follow_preferences AS \
    preference WHERE preference.thread_id = watcher.thread_id AND preference.subscriber_sub = \
    watcher.subscriber_sub AND preference.level = 'mute') UNION SELECT thread_id FROM \
    thread_follow_preferences WHERE subscriber_sub = $1 AND level = 'follow'";

/// The threads the viewer started.
pub const QUESTIONS_SOURCES: &'static str =
    "SELECT id AS thread_id FROM threads WHERE author_sub = $1 AND created_at <= $2";

/// The threads that concern the viewer in any way.
pub const UPDATES_SOURCES: &'static str =
    "SELECT watcher.thread_id FROM thread_subscriptions AS watcher WHERE \
    watcher.subscriber_sub = $1 AND NOT EXISTS (SELECT 1 FROM thread_follow_preferences AS \
    preference WHERE preference.thread_id = watcher.thread_id AND preference.subscriber_sub = \
    watcher.subscriber_sub AND preference.level = 'mute') UNION SELECT thread_id FROM \
    thread_follow_preferences WHERE subscriber_sub = $1 AND level = 'follow' UNION SELECT id \
    AS thread_id FROM threads WHERE author_sub = $1 UNION SELECT thread_id FROM \
    snapshot_posts WHERE author_sub = $1 UNION SELECT saved_post.thread_id FROM \
    forum_bookmarks AS bookmark JOIN snapshot_posts AS saved_post ON saved_post.id = \
    bookmark.post_id WHERE bookmark.owner_sub = $1 AND bookmark.created_at <= $2 UNION SELECT \
    read_post.thread_id FROM forum_post_read_receipts AS receipt JOIN snapshot_posts AS \
    read_post ON read_post.id = receipt.post_id WHERE receipt.viewer_sub = $1 AND \
    receipt.read_at <= $2 AND receipt.read_seq <= $3";

/// A page of the activity of a viewer.
pub const ACTIVITY_PAGE: &'static str =
    "WITH visible AS (SELECT e.id, e.kind, e.thread_id, e.post_id, e.actor_sub, e.created_at, \
    t.title AS thread_title, p.body_md AS post_body_md, p.created_at AS post_created_at, CASE \
    WHEN e.kind = 'post_created' THEN p.author_email ELSE COALESCE((SELECT \
    profile.author_email FROM posts AS profile WHERE profile.author_sub = e.actor_sub AND \
    profile.author_email <> '' ORDER BY profile.created_at DESC, profile.id DESC LIMIT 1), \
    (SELECT profile.author_email FROM threads AS profile WHERE profile.author_sub = \
    e.actor_sub AND profile.author_email <> '' ORDER BY profile.created_at DESC, profile.id \
    DESC LIMIT 1), '') END AS actor_email, CASE WHEN r.activity_id IS NULL THEN FALSE ELSE \
    TRUE END AS is_read, CASE WHEN EXISTS (SELECT 1 FROM forum_activity_deliveries d WHERE \
    d.activity_id = e.id AND d.reason = 'mention' AND d.recipient_kind = 'subject' AND \
    d.recipient_key = $1) THEN 'mention' WHEN EXISTS (SELECT 1 FROM forum_activity_deliveries \
    d WHERE d.activity_id = e.id AND d.reason = 'reply' AND d.recipient_kind = 'subject' AND \
    d.recipient_key = $1) THEN 'reply' WHEN EXISTS (SELECT 1 FROM forum_activity_deliveries d \
    WHERE d.activity_id = e.id AND d.reason = 'answer' AND d.recipient_kind = 'subject' AND \
    d.recipient_key = $1) THEN 'answer' ELSE 'following' END AS reason FROM \
    forum_activity_events e JOIN threads t ON t.id = e.thread_id JOIN posts p ON p.id = \
    e.post_id AND p.thread_id = e.thread_id LEFT JOIN forum_activity_receipts r ON \
    r.activity_id = e.id AND r.viewer_sub = $1 WHERE EXISTS (SELECT 1 FROM \
    forum_activity_deliveries d WHERE d.activity_id = e.id AND d.recipient_kind = 'subject' \
    AND d.recipient_key = $1) AND ($4::BIGINT IS NULL OR e.created_at < $4 OR (e.created_at = \
    $4 AND e.id < $5))) SELECT id, kind, thread_id, post_id, actor_sub, created_at, \
    thread_title, post_body_md, post_created_at, actor_email, is_read, reason FROM visible \
    WHERE ($2 = 'all' OR reason = $2) AND (NOT $3 OR NOT is_read) ORDER BY created_at DESC, \
    id DESC LIMIT $6";

} // verus!
