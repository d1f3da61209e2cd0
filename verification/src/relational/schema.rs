//! The schema of the relational store and how older schemas are brought up to it, as text.

use vstd::prelude::*;

verus! {

/// The table `categories`.
pub const CREATE_CATEGORIES: &'static str =
    "CREATE TABLE IF NOT EXISTS categories (id TEXT PRIMARY KEY, name TEXT NOT NULL, \
    sort_order BIGINT NOT NULL DEFAULT 0, format TEXT NOT NULL DEFAULT 'discussion')";

/// The column `format` of `categories`.
pub const ADD_CATEGORIES_FORMAT: &'static str =
    "ALTER TABLE categories ADD COLUMN IF NOT EXISTS format TEXT";

/// Classifies categories that never had a format.
pub const CLASSIFY_CATEGORIES: &'static str =
    "UPDATE categories SET format = CASE WHEN id = 'support' THEN 'question' ELSE 'discussion' \
    END WHERE format IS NULL";

/// Categories are discussions by default.
pub const DEFAULT_CATEGORY_FORMAT: &'static str =
    "ALTER TABLE categories ALTER COLUMN format SET DEFAULT 'discussion'";

/// Every category has a format.
pub const REQUIRE_CATEGORY_FORMAT: &'static str =
    "ALTER TABLE categories ALTER COLUMN format SET NOT NULL";

/// The table `threads`.
pub const CREATE_THREADS: &'static str =
    "CREATE TABLE IF NOT EXISTS threads (id TEXT PRIMARY KEY, category_id TEXT NOT NULL, title \
    TEXT NOT NULL, author_sub TEXT NOT NULL, author_email TEXT NOT NULL, created_at BIGINT \
    NOT NULL, last_at BIGINT NOT NULL)";

/// The column `first_body_md` of `threads`.
pub const ADD_THREADS_FIRST_BODY_MD: &'static str =
    "ALTER TABLE threads ADD COLUMN IF NOT EXISTS first_body_md TEXT NOT NULL DEFAULT ''";

/// The column `first_post_id` of `threads`.
pub const ADD_THREADS_FIRST_POST_ID: &'static str =
    "ALTER TABLE threads ADD COLUMN IF NOT EXISTS first_post_id TEXT NOT NULL DEFAULT ''";

/// The column `locked` of `threads`.
pub const ADD_THREADS_LOCKED: &'static str =
    "ALTER TABLE threads ADD COLUMN IF NOT EXISTS locked BOOLEAN NOT NULL DEFAULT FALSE";

/// The column `pinned` of `threads`.
pub const ADD_THREADS_PINNED: &'static str =
    "ALTER TABLE threads ADD COLUMN IF NOT EXISTS pinned BOOLEAN NOT NULL DEFAULT FALSE";

/// The column `accepted_post_id` of `threads`.
pub const ADD_THREADS_ACCEPTED_POST_ID: &'static str =
    "ALTER TABLE threads ADD COLUMN IF NOT EXISTS accepted_post_id TEXT NOT NULL DEFAULT ''";

/// An index of `threads`.
pub const IDX_THREADS_CATEGORY: &'static str =
    "CREATE INDEX IF NOT EXISTS idx_threads_category ON threads (category_id)";

/// An index of `threads`.
pub const IDX_THREADS_LAST_AT: &'static str =
    "CREATE INDEX IF NOT EXISTS idx_threads_last_at ON threads (last_at)";

/// An index of `threads`.
pub const IDX_THREADS_AUTHOR_SNAPSHOT: &'static str =
    "CREATE INDEX IF NOT EXISTS idx_threads_author_snapshot ON threads (author_sub, \
    created_at, id)";

/// The table `posts`.
pub const CREATE_POSTS: &'static str =
    "CREATE TABLE IF NOT EXISTS posts (id TEXT PRIMARY KEY, thread_id TEXT NOT NULL, body_md \
    TEXT NOT NULL, quoted_post_id TEXT NOT NULL DEFAULT '', author_sub TEXT NOT NULL, \
    author_email TEXT NOT NULL, created_at BIGINT NOT NULL)";

/// The column `quoted_post_id` of `posts`.
pub const ADD_POSTS_QUOTED_POST_ID: &'static str =
    "ALTER TABLE posts ADD COLUMN IF NOT EXISTS quoted_post_id TEXT NOT NULL DEFAULT ''";

/// An index of `posts`.
pub const IDX_POSTS_THREAD: &'static str =
    "CREATE INDEX IF NOT EXISTS idx_posts_thread ON posts (thread_id)";

/// An index of `posts`.
pub const IDX_POSTS_AUTHOR_SNAPSHOT: &'static str =
    "CREATE INDEX IF NOT EXISTS idx_posts_author_snapshot ON posts (author_sub, created_at, \
    thread_id)";

/// An index of `posts`.
pub const IDX_POSTS_THREAD_SNAPSHOT: &'static str =
    "CREATE INDEX IF NOT EXISTS idx_posts_thread_snapshot ON posts (thread_id, created_at, id)";

/// The table `forum_post_read_receipts`.
pub const CREATE_FORUM_POST_READ_RECEIPTS: &'static str =
    "CREATE TABLE IF NOT EXISTS forum_post_read_receipts (viewer_sub TEXT NOT NULL, post_id \
    TEXT NOT NULL, read_at BIGINT NOT NULL, PRIMARY KEY (viewer_sub, post_id), CONSTRAINT \
    fk_forum_post_read_receipt_post FOREIGN KEY (post_id) REFERENCES posts(id) ON DELETE \
    CASCADE)";

/// An index of `forum_post_read_receipts`.
pub const IDX_FORUM_POST_READ_RECEIPTS_POST: &'static str =
    "CREATE INDEX IF NOT EXISTS idx_forum_post_read_receipts_post ON forum_post_read_receipts \
    (post_id)";

/// An index of `forum_post_read_receipts`.
pub const IDX_FORUM_POST_READ_RECEIPTS_VIEWER_SNAPSHOT: &'static str =
    "CREATE INDEX IF NOT EXISTS idx_forum_post_read_receipts_viewer_snapshot ON \
    forum_post_read_receipts (viewer_sub, read_at, post_id)";

/// The table `forum_bookmark_owner_guards`.
pub const CREATE_FORUM_BOOKMARK_OWNER_GUARDS: &'static str =
    "CREATE TABLE IF NOT EXISTS forum_bookmark_owner_guards (owner_sub TEXT PRIMARY KEY)";

/// The table `forum_bookmarks`.
pub const CREATE_FORUM_BOOKMARKS: &'static str =
    "CREATE TABLE IF NOT EXISTS forum_bookmarks (bookmark_id TEXT NOT NULL, owner_sub TEXT NOT \
    NULL, post_id TEXT NOT NULL, note TEXT NOT NULL DEFAULT '', remind_at BIGINT, created_at \
    BIGINT NOT NULL, updated_at BIGINT NOT NULL, version BIGINT NOT NULL DEFAULT 1, PRIMARY \
    KEY (owner_sub, post_id), CONSTRAINT fk_forum_bookmark_post FOREIGN KEY (post_id) \
    REFERENCES posts(id) ON DELETE CASCADE, CHECK (char_length(note) <= 200), CHECK \
    (remind_at IS NULL OR remind_at >= 0), CHECK (version > 0))";

/// The column `bookmark_id` of `forum_bookmarks`.
pub const ADD_FORUM_BOOKMARKS_BOOKMARK_ID: &'static str =
    "ALTER TABLE forum_bookmarks ADD COLUMN IF NOT EXISTS bookmark_id TEXT";

/// Reads the bookmarks without an identity.
pub const UNIDENTIFIED_BOOKMARKS: &'static str =
    "SELECT owner_sub, post_id FROM forum_bookmarks WHERE bookmark_id IS NULL OR bookmark_id = \
    ''";

/// Gives a bookmark without an identity one.
pub const IDENTIFY_BOOKMARK: &'static str =
    "UPDATE forum_bookmarks SET bookmark_id = $1 WHERE owner_sub = $2 AND post_id = $3 AND \
    (bookmark_id IS NULL OR bookmark_id = '')";

/// Every bookmark has an identity.
pub const REQUIRE_BOOKMARK_ID: &'static str =
    "ALTER TABLE forum_bookmarks ALTER COLUMN bookmark_id SET NOT NULL";

/// An index of `forum_bookmarks`.
pub const IDX_FORUM_BOOKMARKS_IDENTITY: &'static str =
    "CREATE UNIQUE INDEX IF NOT EXISTS idx_forum_bookmarks_identity ON forum_bookmarks \
    (bookmark_id)";

/// An index of `forum_bookmarks`.
pub const IDX_FORUM_BOOKMARKS_RECENT: &'static str =
    "CREATE INDEX IF NOT EXISTS idx_forum_bookmarks_recent ON forum_bookmarks (owner_sub, \
    created_at DESC, post_id DESC)";

/// An index of `forum_bookmarks`.
pub const IDX_FORUM_BOOKMARKS_DUE: &'static str =
    "CREATE INDEX IF NOT EXISTS idx_forum_bookmarks_due ON forum_bookmarks (owner_sub, \
    remind_at ASC, post_id ASC) WHERE remind_at IS NOT NULL";

/// Records the original post of older threads.
pub const BACKFILL_FIRST_POST: &'static str =
    "UPDATE threads AS t SET first_post_id = (SELECT p.id FROM posts AS p WHERE p.thread_id = \
    t.id ORDER BY p.created_at ASC, p.id ASC FETCH FIRST 1 ROW ONLY) WHERE t.first_post_id = \
    '' AND EXISTS (SELECT 1 FROM posts AS p WHERE p.thread_id = t.id)";

/// Copies the original body of older threads.
pub const BACKFILL_FIRST_BODY: &'static str =
    "UPDATE threads AS t SET first_body_md = (SELECT p.body_md FROM posts AS p WHERE \
    p.thread_id = t.id AND p.id = t.first_post_id) WHERE t.first_body_md = '' AND EXISTS \
    (SELECT 1 FROM posts AS p WHERE p.thread_id = t.id AND p.id = t.first_post_id)";

/// Clears accepted pointers that name no reply of their thread.
pub const CLEAR_INVALID_ANSWERS: &'static str =
    "UPDATE threads AS t SET accepted_post_id = '' WHERE t.accepted_post_id <> '' AND NOT \
    EXISTS (SELECT 1 FROM posts AS p WHERE p.id = t.accepted_post_id AND p.thread_id = t.id \
    AND p.id <> t.first_post_id)";

/// An index of `posts`.
pub const IDX_POSTS_QUOTE: &'static str =
    "CREATE INDEX IF NOT EXISTS idx_posts_quote ON posts (quoted_post_id)";

/// The table `forum_catch_up_clock`.
pub const CREATE_FORUM_CATCH_UP_CLOCK: &'static str =
    "CREATE TABLE IF NOT EXISTS forum_catch_up_clock (id BIGINT PRIMARY KEY, generation BIGINT \
    NOT NULL, CHECK (id = 1), CHECK (generation >= 0))";

/// Starts the clock.
pub const START_CLOCK: &'static str =
    "INSERT INTO forum_catch_up_clock (id, generation) VALUES (1, 0) ON CONFLICT (id) DO \
    NOTHING";

/// The table `forum_catch_up_post_points`.
pub const CREATE_FORUM_CATCH_UP_POST_POINTS: &'static str =
    "CREATE TABLE IF NOT EXISTS forum_catch_up_post_points (post_id TEXT PRIMARY KEY, \
    thread_id TEXT NOT NULL REFERENCES threads(id) ON DELETE CASCADE, activity_at BIGINT NOT \
    NULL, seq BIGINT NOT NULL UNIQUE, CHECK (activity_at >= 0), CHECK (seq > 0))";

/// An index of `forum_catch_up_post_points`.
pub const IDX_CATCH_UP_POINTS_THREAD_SNAPSHOT: &'static str =
    "CREATE INDEX IF NOT EXISTS idx_catch_up_points_thread_snapshot ON \
    forum_catch_up_post_points (thread_id, seq, activity_at, post_id)";

/// The column `read_seq` of `forum_post_read_receipts`.
pub const ADD_FORUM_POST_READ_RECEIPTS_READ_SEQ: &'static str =
    "ALTER TABLE forum_post_read_receipts ADD COLUMN IF NOT EXISTS read_seq BIGINT";

/// An index of `forum_post_read_receipts`.
pub const IDX_POST_READ_RECEIPTS_VIEWER_GENERATION: &'static str =
    "CREATE INDEX IF NOT EXISTS idx_post_read_receipts_viewer_generation ON \
    forum_post_read_receipts (viewer_sub, read_seq, post_id)";

/// Reads the greatest generation of a post.
pub const GREATEST_POINT: &'static str =
    "SELECT MAX(seq) FROM forum_catch_up_post_points";

/// Reads the greatest generation of a read receipt.
pub const GREATEST_RECEIPT: &'static str =
    "SELECT MAX(read_seq) FROM forum_post_read_receipts";

/// Reads the posts without a catch-up point, oldest first.
pub const PENDING_POINTS: &'static str =
    "SELECT p.id, p.thread_id, p.created_at FROM posts AS p JOIN threads AS t ON t.id = \
    p.thread_id LEFT JOIN forum_catch_up_post_points AS point ON point.post_id = p.id WHERE \
    point.post_id IS NULL ORDER BY p.created_at ASC, p.thread_id ASC, p.id ASC";

/// Reads the read receipts without a generation, oldest first.
pub const PENDING_RECEIPTS: &'static str =
    "SELECT viewer_sub, post_id FROM forum_post_read_receipts WHERE read_seq IS NULL ORDER BY \
    read_at ASC, viewer_sub ASC, post_id ASC";

/// The table `post_mentions`.
pub const CREATE_POST_MENTIONS: &'static str =
    "CREATE TABLE IF NOT EXISTS post_mentions (post_id TEXT NOT NULL, thread_id TEXT NOT NULL, \
    mentioned_username TEXT NOT NULL, created_at BIGINT NOT NULL, PRIMARY KEY (post_id, \
    mentioned_username))";

/// An index of `post_mentions`.
pub const IDX_MENTIONS_USER: &'static str =
    "CREATE INDEX IF NOT EXISTS idx_mentions_user ON post_mentions (mentioned_username)";

/// An index of `post_mentions`.
pub const IDX_MENTIONS_THREAD: &'static str =
    "CREATE INDEX IF NOT EXISTS idx_mentions_thread ON post_mentions (thread_id)";

/// The table `forum_identity_aliases`.
pub const CREATE_FORUM_IDENTITY_ALIASES: &'static str =
    "CREATE TABLE IF NOT EXISTS forum_identity_aliases (alias TEXT NOT NULL, subject TEXT NOT \
    NULL, created_at BIGINT NOT NULL, PRIMARY KEY (alias, subject))";

/// An index of `forum_identity_aliases`.
pub const IDX_IDENTITY_ALIASES_SUBJECT: &'static str =
    "CREATE INDEX IF NOT EXISTS idx_identity_aliases_subject ON forum_identity_aliases \
    (subject)";

/// Reads the identities that ever wrote something.
pub const PAST_AUTHORS: &'static str =
    "SELECT author_sub, author_email, MIN(created_at) AS created_at FROM (SELECT author_sub, \
    author_email, created_at FROM posts UNION ALL SELECT author_sub, author_email, created_at \
    FROM threads) AS authors GROUP BY author_sub, author_email";

/// The table `thread_subscriptions`.
pub const CREATE_THREAD_SUBSCRIPTIONS: &'static str =
    "CREATE TABLE IF NOT EXISTS thread_subscriptions (thread_id TEXT NOT NULL, subscriber_sub \
    TEXT NOT NULL, created_at BIGINT NOT NULL, PRIMARY KEY (thread_id, subscriber_sub))";

/// The table `thread_follow_preferences`.
pub const CREATE_THREAD_FOLLOW_PREFERENCES: &'static str =
    "CREATE TABLE IF NOT EXISTS thread_follow_preferences (thread_id TEXT NOT NULL, \
    subscriber_sub TEXT NOT NULL, level TEXT NOT NULL, created_at BIGINT NOT NULL, CONSTRAINT \
    ck_thread_follow_preferences_level CHECK (level IN ('follow', 'mute')), CONSTRAINT \
    fk_thread_follow_preference_thread FOREIGN KEY (thread_id) REFERENCES threads(id) ON \
    DELETE CASCADE, PRIMARY KEY (thread_id, subscriber_sub))";

/// Reads whether watches once carried a level.
pub const HAS_LEVEL_COLUMN: &'static str =
    "SELECT EXISTS (SELECT 1 FROM information_schema.columns WHERE table_schema = \
    CURRENT_SCHEMA AND table_name = 'thread_subscriptions' AND column_name = 'level')";

/// Moves the levels other than watching to the preferences.
pub const MOVE_PREFERENCES: &'static str =
    "INSERT INTO thread_follow_preferences (thread_id, subscriber_sub, level, created_at) \
    SELECT subscription.thread_id, subscription.subscriber_sub, subscription.level, \
    subscription.created_at FROM thread_subscriptions AS subscription JOIN threads AS thread \
    ON thread.id = subscription.thread_id WHERE subscription.level IN ('follow', 'mute') ON \
    CONFLICT (thread_id, subscriber_sub) DO UPDATE SET level = EXCLUDED.level, created_at = \
    EXCLUDED.created_at";

/// Leaves only watches among the watches.
pub const KEEP_WATCHES: &'static str =
    "DELETE FROM thread_subscriptions WHERE level <> 'watch'";

/// Reads whether watches are checked to be watches.
pub const HAS_WATCH_CHECK: &'static str =
    "SELECT EXISTS (SELECT 1 FROM information_schema.table_constraints WHERE constraint_schema \
    = CURRENT_SCHEMA AND table_name = 'thread_subscriptions' AND constraint_name = \
    'ck_thread_subscriptions_watch_only' AND constraint_type = 'CHECK')";

/// Checks that watches are watches.
pub const ADD_WATCH_CHECK: &'static str =
    "ALTER TABLE thread_subscriptions ADD CONSTRAINT ck_thread_subscriptions_watch_only CHECK \
    (level = 'watch')";

/// Removes preferences about threads that are gone.
pub const DELETE_STRAY_PREFERENCES: &'static str =
    "DELETE FROM thread_follow_preferences AS preference WHERE NOT EXISTS (SELECT 1 FROM \
    threads AS thread WHERE thread.id = preference.thread_id)";

/// Reads whether preferences refer to threads.
pub const HAS_PREFERENCE_KEY: &'static str =
    "SELECT EXISTS (SELECT 1 FROM information_schema.table_constraints WHERE constraint_schema \
    = CURRENT_SCHEMA AND table_name = 'thread_follow_preferences' AND constraint_name = \
    'fk_thread_follow_preference_thread' AND constraint_type = 'FOREIGN KEY')";

/// Makes preferences refer to threads.
pub const ADD_PREFERENCE_KEY: &'static str =
    "ALTER TABLE thread_follow_preferences ADD CONSTRAINT fk_thread_follow_preference_thread \
    FOREIGN KEY (thread_id) REFERENCES threads(id) ON DELETE CASCADE";

/// Removes watches of muted threads.
pub const DELETE_MUTED_WATCHES: &'static str =
    "DELETE FROM thread_subscriptions AS watcher WHERE EXISTS (SELECT 1 FROM \
    thread_follow_preferences AS preference WHERE preference.thread_id = watcher.thread_id \
    AND preference.subscriber_sub = watcher.subscriber_sub AND preference.level = 'mute')";

/// An index of `thread_subscriptions`.
pub const IDX_SUBSCRIPTIONS_USER: &'static str =
    "CREATE INDEX IF NOT EXISTS idx_subscriptions_user ON thread_subscriptions (subscriber_sub)";

/// An index of `thread_subscriptions`.
pub const IDX_SUBSCRIPTIONS_USER_THREAD: &'static str =
    "CREATE INDEX IF NOT EXISTS idx_subscriptions_user_thread ON thread_subscriptions \
    (subscriber_sub, thread_id)";

/// An index of `thread_follow_preferences`.
pub const IDX_FOLLOW_PREFERENCES_USER: &'static str =
    "CREATE INDEX IF NOT EXISTS idx_follow_preferences_user ON thread_follow_preferences \
    (subscriber_sub, thread_id)";

/// The table `forum_category_focus_owner_guards`.
pub const CREATE_FORUM_CATEGORY_FOCUS_OWNER_GUARDS: &'static str =
    "CREATE TABLE IF NOT EXISTS forum_category_focus_owner_guards (viewer_sub TEXT PRIMARY KEY)";

/// The table `forum_category_focus_rules`.
pub const CREATE_FORUM_CATEGORY_FOCUS_RULES: &'static str =
    "CREATE TABLE IF NOT EXISTS forum_category_focus_rules (viewer_sub TEXT NOT NULL, \
    category_id TEXT NOT NULL, level TEXT NOT NULL, created_at BIGINT NOT NULL, updated_at \
    BIGINT NOT NULL, PRIMARY KEY (viewer_sub, category_id), CONSTRAINT \
    fk_forum_category_focus_category FOREIGN KEY (category_id) REFERENCES categories(id) ON \
    DELETE CASCADE, CHECK (level IN ('priority', 'follow', 'mute')), CHECK (created_at >= 0), \
    CHECK (updated_at >= created_at))";

/// An index of `forum_category_focus_rules`.
pub const IDX_CATEGORY_FOCUS_SUBJECT_LEVEL: &'static str =
    "CREATE INDEX IF NOT EXISTS idx_category_focus_subject_level ON forum_category_focus_rules \
    (viewer_sub, level, category_id)";

/// The table `forum_activity_events`.
pub const CREATE_FORUM_ACTIVITY_EVENTS: &'static str =
    "CREATE TABLE IF NOT EXISTS forum_activity_events (id TEXT PRIMARY KEY, kind TEXT NOT \
    NULL, thread_id TEXT NOT NULL, post_id TEXT NOT NULL, actor_sub TEXT NOT NULL, created_at \
    BIGINT NOT NULL)";

/// An index of `forum_activity_events`.
pub const IDX_ACTIVITY_EVENTS_ORDER: &'static str =
    "CREATE INDEX IF NOT EXISTS idx_activity_events_order ON forum_activity_events \
    (created_at, id)";

/// An index of `forum_activity_events`.
pub const IDX_ACTIVITY_EVENTS_THREAD: &'static str =
    "CREATE INDEX IF NOT EXISTS idx_activity_events_thread ON forum_activity_events (thread_id)";

/// An index of `forum_activity_events`.
pub const IDX_ACTIVITY_EVENTS_POST: &'static str =
    "CREATE INDEX IF NOT EXISTS idx_activity_events_post ON forum_activity_events (post_id)";

/// The table `forum_activity_deliveries`.
pub const CREATE_FORUM_ACTIVITY_DELIVERIES: &'static str =
    "CREATE TABLE IF NOT EXISTS forum_activity_deliveries (activity_id TEXT NOT NULL, \
    recipient_kind TEXT NOT NULL, recipient_key TEXT NOT NULL, reason TEXT NOT NULL, PRIMARY \
    KEY (activity_id, recipient_kind, recipient_key, reason), CONSTRAINT \
    fk_activity_delivery_event FOREIGN KEY (activity_id) REFERENCES forum_activity_events(id) \
    ON DELETE CASCADE)";

/// An index of `forum_activity_deliveries`.
pub const IDX_ACTIVITY_DELIVERIES_RECIPIENT: &'static str =
    "CREATE INDEX IF NOT EXISTS idx_activity_deliveries_recipient ON forum_activity_deliveries \
    (recipient_kind, recipient_key, activity_id)";

/// The table `forum_activity_receipts`.
pub const CREATE_FORUM_ACTIVITY_RECEIPTS: &'static str =
    "CREATE TABLE IF NOT EXISTS forum_activity_receipts (activity_id TEXT NOT NULL, viewer_sub \
    TEXT NOT NULL, read_at BIGINT NOT NULL, PRIMARY KEY (activity_id, viewer_sub), CONSTRAINT \
    fk_activity_receipt_event FOREIGN KEY (activity_id) REFERENCES forum_activity_events(id) \
    ON DELETE CASCADE)";

/// An index of `forum_activity_receipts`.
pub const IDX_ACTIVITY_RECEIPTS_VIEWER: &'static str =
    "CREATE INDEX IF NOT EXISTS idx_activity_receipts_viewer ON forum_activity_receipts \
    (viewer_sub, activity_id)";

/// Removes deliveries of events that are gone.
pub const DELETE_STRAY_DELIVERIES: &'static str =
    "DELETE FROM forum_activity_deliveries AS d WHERE NOT EXISTS (SELECT 1 FROM \
    forum_activity_events AS e WHERE e.id = d.activity_id)";

/// Removes receipts of events that are gone.
pub const DELETE_STRAY_RECEIPTS: &'static str =
    "DELETE FROM forum_activity_receipts AS r WHERE NOT EXISTS (SELECT 1 FROM \
    forum_activity_events AS e WHERE e.id = r.activity_id)";

/// Resolves deliveries to user names that one subject uses.
pub const RESOLVE_DELIVERIES: &'static str =
    "INSERT INTO forum_activity_deliveries (activity_id, recipient_kind, recipient_key, \
    reason) SELECT d.activity_id, 'subject', resolved.subject, d.reason FROM \
    forum_activity_deliveries AS d JOIN (SELECT alias, MIN(subject) AS subject FROM \
    forum_identity_aliases GROUP BY alias HAVING COUNT(*) = 1) AS resolved ON resolved.alias \
    = d.recipient_key WHERE d.recipient_kind = 'username' ON CONFLICT (activity_id, \
    recipient_kind, recipient_key, reason) DO NOTHING";

/// Removes deliveries that do not go to a subject.
pub const DELETE_UNRESOLVED_DELIVERIES: &'static str =
    "DELETE FROM forum_activity_deliveries WHERE recipient_kind <> 'subject'";

/// Withdraws deliveries that only came from watching.
pub const DELETE_UNWATCHED_DELIVERIES: &'static str =
    "DELETE FROM forum_activity_deliveries AS delivery WHERE delivery.recipient_kind = \
    'subject' AND delivery.reason = 'following' AND EXISTS (SELECT 1 FROM \
    forum_activity_events AS event WHERE event.id = delivery.activity_id AND (NOT EXISTS \
    (SELECT 1 FROM thread_subscriptions AS watcher WHERE watcher.thread_id = event.thread_id \
    AND watcher.subscriber_sub = delivery.recipient_key) OR EXISTS (SELECT 1 FROM \
    thread_follow_preferences AS preference WHERE preference.thread_id = event.thread_id AND \
    preference.subscriber_sub = delivery.recipient_key AND preference.level = 'mute')))";

/// Removes receipts of events that do not reach the viewer.
pub const DELETE_UNDELIVERED_RECEIPTS: &'static str =
    "DELETE FROM forum_activity_receipts AS r WHERE NOT EXISTS (SELECT 1 FROM \
    forum_activity_deliveries AS d WHERE d.activity_id = r.activity_id AND d.recipient_kind = \
    'subject' AND d.recipient_key = r.viewer_sub)";

/// Removes events that reach nobody.
pub const DELETE_UNDELIVERED_EVENTS: &'static str =
    "DELETE FROM forum_activity_events AS e WHERE NOT EXISTS (SELECT 1 FROM \
    forum_activity_deliveries AS d WHERE d.activity_id = e.id)";

/// Reads whether deliveries refer to events.
pub const HAS_DELIVERY_KEY: &'static str =
    "SELECT EXISTS (SELECT 1 FROM information_schema.table_constraints WHERE constraint_schema \
    = CURRENT_SCHEMA AND table_name = 'forum_activity_deliveries' AND constraint_name = \
    'fk_activity_delivery_event' AND constraint_type = 'FOREIGN KEY')";

/// Makes deliveries refer to events.
pub const ADD_DELIVERY_KEY: &'static str =
    "ALTER TABLE forum_activity_deliveries ADD CONSTRAINT fk_activity_delivery_event FOREIGN \
    KEY (activity_id) REFERENCES forum_activity_events(id) ON DELETE CASCADE";

/// Reads whether receipts refer to events.
pub const HAS_RECEIPT_KEY: &'static str =
    "SELECT EXISTS (SELECT 1 FROM information_schema.table_constraints WHERE constraint_schema \
    = CURRENT_SCHEMA AND table_name = 'forum_activity_receipts' AND constraint_name = \
    'fk_activity_receipt_event' AND constraint_type = 'FOREIGN KEY')";

/// Makes receipts refer to events.
pub const ADD_RECEIPT_KEY: &'static str =
    "ALTER TABLE forum_activity_receipts ADD CONSTRAINT fk_activity_receipt_event FOREIGN KEY \
    (activity_id) REFERENCES forum_activity_events(id) ON DELETE CASCADE";

/// The table `post_reactions`.
pub const CREATE_POST_REACTIONS: &'static str =
    "CREATE TABLE IF NOT EXISTS post_reactions (post_id TEXT NOT NULL, user_sub TEXT NOT NULL, \
    kind TEXT NOT NULL, created_at BIGINT NOT NULL, PRIMARY KEY (post_id, user_sub, kind))";

/// An index of `post_reactions`.
pub const IDX_REACTIONS_POST: &'static str =
    "CREATE INDEX IF NOT EXISTS idx_reactions_post ON post_reactions (post_id)";

/// The table `banned_authors`.
pub const CREATE_BANNED_AUTHORS: &'static str =
    "CREATE TABLE IF NOT EXISTS banned_authors (author_sub TEXT PRIMARY KEY, reason TEXT NOT \
    NULL DEFAULT '', banned_by TEXT NOT NULL DEFAULT '', created_at BIGINT NOT NULL)";

} // verus!
