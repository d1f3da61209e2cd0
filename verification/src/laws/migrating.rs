//! Laws of the migration.

use vstd::prelude::*;

use crate::relational::command::{
    AskRow, StepRow, ToldRow, committing, flag_at, no_steps, points_at, receipts_at, running,
    unidentified_at,
};
use crate::relational::commands::migration::{
    activity_repair, activity_schema, greatest_at, identification, identity_schema, mention_schema,
    migration, moderation_schema, point_backfill, point_backfills, receipt_backfill,
    receipt_backfills, unless,
};
use crate::relational::commands::opening::clock_at;
use crate::relational::schema::{
    ADD_PREFERENCE_KEY, ADD_WATCH_CHECK, CLASSIFY_CATEGORIES, CREATE_BANNED_AUTHORS,
    CREATE_FORUM_ACTIVITY_DELIVERIES, CREATE_FORUM_ACTIVITY_EVENTS, CREATE_FORUM_ACTIVITY_RECEIPTS,
    CREATE_FORUM_CATEGORY_FOCUS_OWNER_GUARDS, CREATE_FORUM_CATEGORY_FOCUS_RULES,
    CREATE_POST_REACTIONS, DELETE_MUTED_WATCHES, DELETE_STRAY_DELIVERIES, DELETE_STRAY_PREFERENCES,
    DELETE_STRAY_RECEIPTS, DELETE_UNDELIVERED_EVENTS, DELETE_UNDELIVERED_RECEIPTS,
    DELETE_UNRESOLVED_DELIVERIES, DELETE_UNWATCHED_DELIVERIES, IDENTIFY_BOOKMARK,
    IDX_ACTIVITY_DELIVERIES_RECIPIENT, IDX_ACTIVITY_EVENTS_ORDER, IDX_ACTIVITY_EVENTS_POST,
    IDX_ACTIVITY_EVENTS_THREAD, IDX_ACTIVITY_RECEIPTS_VIEWER, IDX_CATEGORY_FOCUS_SUBJECT_LEVEL,
    IDX_FOLLOW_PREFERENCES_USER, IDX_REACTIONS_POST, IDX_SUBSCRIPTIONS_USER,
    IDX_SUBSCRIPTIONS_USER_THREAD, KEEP_WATCHES, MOVE_PREFERENCES, RESOLVE_DELIVERIES,
};
use crate::relational::sql::{BACKFILL_POINT, SEQUENCE_READ_RECEIPT};
use crate::relational::statement::{ParamRow, StatementRow, statement};
use crate::relational::writing::{PendingPointRow, PendingReceiptRow, clock_update};

verus! {

/// A migration comes to an end after a bounded number of answers, and fails only when the
/// generations run out.
pub proof fn law_migration_ends(told: Seq<ToldRow>)
    ensures
        told.len() >= 12 ==> migration(told) is Finish,
        !(migration(told) is Restart),
        migration(told) is Fail ==> greatest_at(told) + points_at(told, 4).len() + receipts_at(
            told,
            5,
        ).len() > i64::MAX,
{
}

/// The generation that an older post gets.
pub open spec fn point_generation(s: StatementRow) -> i64 {
    s.params[3]->Int_0
}

/// The generation that an older receipt gets.
pub open spec fn receipt_generation(s: StatementRow) -> i64 {
    s.params[0]->Int_0
}

/// Older posts and then older receipts get generations that no row has yet, ascending in the order
/// in which they are given, and the clock is left at the last of them.
pub proof fn law_backfill_generations(
    start: i64,
    points: Seq<PendingPointRow>,
    receipts: Seq<PendingReceiptRow>,
)
    requires
        start + points.len() + receipts.len() <= i64::MAX,
    ensures
        ({
            let entered = point_backfills(start, points)->Ok_0;
            let marked = receipt_backfills(start + points.len(), receipts)->Ok_0;
            let last = start + points.len() + receipts.len();
            &&& point_backfills(start, points) is Ok
            &&& receipt_backfills(start + points.len(), receipts) is Ok
            &&& entered.len() == points.len()
            &&& marked.len() == receipts.len() + 1
            &&& forall|k: int|
                0 <= k < points.len() ==> point_generation(#[trigger] entered[k]) == start + k + 1
            &&& forall|k: int|
                0 <= k < receipts.len() ==> receipt_generation(#[trigger] marked[k]) == start
                    + points.len() + k + 1
            &&& marked.last() == clock_update(last as i64)
        }),
{
    let entered = point_backfills(start, points)->Ok_0;
    let marked = receipt_backfills(start + points.len(), receipts)->Ok_0;
    assert forall|k: int| 0 <= k < points.len() implies point_generation(#[trigger] entered[k])
        == start + k + 1 by {
        assert(entered[k] == point_backfill(start as int, points, k));
        assert(entered[k].params[3] == ParamRow::Int((start + k + 1) as i64));
    }
    assert forall|k: int| 0 <= k < receipts.len() implies receipt_generation(
        #[trigger] marked[k],
    ) == start + points.len() + k + 1 by {
        assert(marked[k] == receipt_backfill(start + points.len(), receipts, k));
        assert(marked[k].params[0] == ParamRow::Int((start + points.len() + k + 1) as i64));
    }
}

/// The generation that a migration stores is never below the clock, nor below that of any post or
/// receipt: it is the greatest of them, raised by one for every row that gets a generation.
pub proof fn law_migration_never_turns_back(told: Seq<ToldRow>)
    ensures
        clock_at(told, 1) <= greatest_at(told),
        clock_at(told, 2) <= greatest_at(told),
        clock_at(told, 3) <= greatest_at(told),
        told.len() == 6 && !(migration(told) is Fail) ==> {
            let n = receipts_at(told, 5).len() as int;
            let stored = greatest_at(told) + points_at(told, 4).len() + n;
            &&& clock_at(told, 1) <= stored <= i64::MAX
            &&& steps_of(migration(told))[n] == StepRow::Run(clock_update(stored as i64))
            &&& steps_of(migration(told))[n + 1] == StepRow::Commit
        },
{
    if told.len() == 6 && !(migration(told) is Fail) {
        let writes = receipt_backfills(
            greatest_at(told) + points_at(told, 4).len(),
            receipts_at(told, 5),
        )->Ok_0;
        let n = receipts_at(told, 5).len() as int;
        assert(committing(writes)[n] == StepRow::Run(writes[n]));
        assert(committing(writes)[n + 1] == StepRow::Commit);
    }
}

/// The steps of an answer.
pub open spec fn steps_of<V>(ask: AskRow<V>) -> Seq<StepRow> {
    match ask {
        AskRow::Fetch(steps, _, _) => steps,
        AskRow::Finish(steps, _) => steps,
        AskRow::Restart => Seq::empty(),
        AskRow::Fail(_) => Seq::empty(),
    }
}

/// Whether a statement leaves the definitions of the tables that are there.
pub open spec fn keeps_definitions(s: StatementRow) -> bool {
    !"ALTER"@.is_prefix_of(s.sql)
}

/// Whether the steps leave the definitions of the tables that are there.
pub open spec fn steps_keep_definitions(steps: Seq<StepRow>) -> bool {
    forall|i: int|
        0 <= i < steps.len() && (#[trigger] steps[i]) is Run ==> keeps_definitions(steps[i]->Run_0)
}

proof fn lemma_running_keeps(s: Seq<StatementRow>)
    requires
        forall|i: int| 0 <= i < s.len() ==> keeps_definitions(#[trigger] s[i]),
    ensures
        steps_keep_definitions(running(s)),
        steps_keep_definitions(committing(s)),
{
    assert forall|i: int| 0 <= i < running(s).len() implies keeps_definitions(
        (#[trigger] running(s)[i])->Run_0,
    ) by {
        assert(running(s)[i] == StepRow::Run(s[i]));
    }
}

/// A statement that begins with another letter begins with another word.
proof fn lemma_other_word(s: StatementRow)
    requires
        s.sql.len() > 0,
        s.sql[0] != 'A',
    ensures
        keeps_definitions(s),
{
    reveal_strlit("ALTER");
    if "ALTER"@.is_prefix_of(s.sql) {
        assert(s.sql.subrange(0, "ALTER"@.len() as int)[0] == s.sql[0]);
    }
}

/// The tables of focus rules and activity are created, never altered.
proof fn lemma_activity_schema_keeps()
    ensures
        forall|i: int|
            0 <= i < activity_schema().len() ==> keeps_definitions(#[trigger] activity_schema()[i]),
{
    assert(keeps_definitions(statement(IDX_SUBSCRIPTIONS_USER@))) by {
        reveal_strlit(
            "CREATE INDEX IF NOT EXISTS idx_subscriptions_user ON thread_subscriptions \
            (subscriber_sub)",
        );
        lemma_other_word(statement(IDX_SUBSCRIPTIONS_USER@));
    }
    assert(keeps_definitions(statement(IDX_SUBSCRIPTIONS_USER_THREAD@))) by {
        reveal_strlit(
            "CREATE INDEX IF NOT EXISTS idx_subscriptions_user_thread ON thread_subscriptions \
            (subscriber_sub, thread_id)",
        );
        lemma_other_word(statement(IDX_SUBSCRIPTIONS_USER_THREAD@));
    }
    assert(keeps_definitions(statement(IDX_FOLLOW_PREFERENCES_USER@))) by {
        reveal_strlit(
            "CREATE INDEX IF NOT EXISTS idx_follow_preferences_user ON \
            thread_follow_preferences (subscriber_sub, thread_id)",
        );
        lemma_other_word(statement(IDX_FOLLOW_PREFERENCES_USER@));
    }
    assert(keeps_definitions(statement(CREATE_FORUM_CATEGORY_FOCUS_OWNER_GUARDS@))) by {
        reveal_strlit(
            "CREATE TABLE IF NOT EXISTS forum_category_focus_owner_guards (viewer_sub TEXT \
            PRIMARY KEY)",
        );
        lemma_other_word(statement(CREATE_FORUM_CATEGORY_FOCUS_OWNER_GUARDS@));
    }
    assert(keeps_definitions(statement(CREATE_FORUM_CATEGORY_FOCUS_RULES@))) by {
        reveal_strlit(
            "CREATE TABLE IF NOT EXISTS forum_category_focus_rules (viewer_sub TEXT NOT NULL, \
            category_id TEXT NOT NULL, level TEXT NOT NULL, created_at BIGINT NOT NULL, \
            updated_at BIGINT NOT NULL, PRIMARY KEY (viewer_sub, category_id), CONSTRAINT \
            fk_forum_category_focus_category FOREIGN KEY (category_id) REFERENCES \
            categories(id) ON DELETE CASCADE, CHECK (level IN ('priority', 'follow', \
            'mute')), CHECK (created_at >= 0), CHECK (updated_at >= created_at))",
        );
        lemma_other_word(statement(CREATE_FORUM_CATEGORY_FOCUS_RULES@));
    }
    assert(keeps_definitions(statement(IDX_CATEGORY_FOCUS_SUBJECT_LEVEL@))) by {
        reveal_strlit(
            "CREATE INDEX IF NOT EXISTS idx_category_focus_subject_level ON \
            forum_category_focus_rules (viewer_sub, level, category_id)",
        );
        lemma_other_word(statement(IDX_CATEGORY_FOCUS_SUBJECT_LEVEL@));
    }
    assert(keeps_definitions(statement(CREATE_FORUM_ACTIVITY_EVENTS@))) by {
        reveal_strlit(
            "CREATE TABLE IF NOT EXISTS forum_activity_events (id TEXT PRIMARY KEY, kind TEXT \
            NOT NULL, thread_id TEXT NOT NULL, post_id TEXT NOT NULL, actor_sub TEXT NOT \
            NULL, created_at BIGINT NOT NULL)",
        );
        lemma_other_word(statement(CREATE_FORUM_ACTIVITY_EVENTS@));
    }
    assert(keeps_definitions(statement(IDX_ACTIVITY_EVENTS_ORDER@))) by {
        reveal_strlit(
            "CREATE INDEX IF NOT EXISTS idx_activity_events_order ON forum_activity_events \
            (created_at, id)",
        );
        lemma_other_word(statement(IDX_ACTIVITY_EVENTS_ORDER@));
    }
    assert(keeps_definitions(statement(IDX_ACTIVITY_EVENTS_THREAD@))) by {
        reveal_strlit(
            "CREATE INDEX IF NOT EXISTS idx_activity_events_thread ON forum_activity_events \
            (thread_id)",
        );
        lemma_other_word(statement(IDX_ACTIVITY_EVENTS_THREAD@));
    }
    assert(keeps_definitions(statement(IDX_ACTIVITY_EVENTS_POST@))) by {
        reveal_strlit(
            "CREATE INDEX IF NOT EXISTS idx_activity_events_post ON forum_activity_events \
            (post_id)",
        );
        lemma_other_word(statement(IDX_ACTIVITY_EVENTS_POST@));
    }
    assert(keeps_definitions(statement(CREATE_FORUM_ACTIVITY_DELIVERIES@))) by {
        reveal_strlit(
            "CREATE TABLE IF NOT EXISTS forum_activity_deliveries (activity_id TEXT NOT NULL, \
            recipient_kind TEXT NOT NULL, recipient_key TEXT NOT NULL, reason TEXT NOT NULL, \
            PRIMARY KEY (activity_id, recipient_kind, recipient_key, reason), CONSTRAINT \
            fk_activity_delivery_event FOREIGN KEY (activity_id) REFERENCES \
            forum_activity_events(id) ON DELETE CASCADE)",
        );
        lemma_other_word(statement(CREATE_FORUM_ACTIVITY_DELIVERIES@));
    }
    assert(keeps_definitions(statement(IDX_ACTIVITY_DELIVERIES_RECIPIENT@))) by {
        reveal_strlit(
            "CREATE INDEX IF NOT EXISTS idx_activity_deliveries_recipient ON \
            forum_activity_deliveries (recipient_kind, recipient_key, activity_id)",
        );
        lemma_other_word(statement(IDX_ACTIVITY_DELIVERIES_RECIPIENT@));
    }
    assert(keeps_definitions(statement(CREATE_FORUM_ACTIVITY_RECEIPTS@))) by {
        reveal_strlit(
            "CREATE TABLE IF NOT EXISTS forum_activity_receipts (activity_id TEXT NOT NULL, \
            viewer_sub TEXT NOT NULL, read_at BIGINT NOT NULL, PRIMARY KEY (activity_id, \
            viewer_sub), CONSTRAINT fk_activity_receipt_event FOREIGN KEY (activity_id) \
            REFERENCES forum_activity_events(id) ON DELETE CASCADE)",
        );
        lemma_other_word(statement(CREATE_FORUM_ACTIVITY_RECEIPTS@));
    }
    assert(keeps_definitions(statement(IDX_ACTIVITY_RECEIPTS_VIEWER@))) by {
        reveal_strlit(
            "CREATE INDEX IF NOT EXISTS idx_activity_receipts_viewer ON \
            forum_activity_receipts (viewer_sub, activity_id)",
        );
        lemma_other_word(statement(IDX_ACTIVITY_RECEIPTS_VIEWER@));
    }
}

/// The repair of older activity alters no table.
proof fn lemma_activity_repair_keeps()
    ensures
        forall|i: int|
            0 <= i < activity_repair().len() ==> keeps_definitions(#[trigger] activity_repair()[i]),
{
    assert(keeps_definitions(statement(DELETE_STRAY_DELIVERIES@))) by {
        reveal_strlit(
            "DELETE FROM forum_activity_deliveries AS d WHERE NOT EXISTS (SELECT 1 FROM \
            forum_activity_events AS e WHERE e.id = d.activity_id)",
        );
        lemma_other_word(statement(DELETE_STRAY_DELIVERIES@));
    }
    assert(keeps_definitions(statement(DELETE_STRAY_RECEIPTS@))) by {
        reveal_strlit(
            "DELETE FROM forum_activity_receipts AS r WHERE NOT EXISTS (SELECT 1 FROM \
            forum_activity_events AS e WHERE e.id = r.activity_id)",
        );
        lemma_other_word(statement(DELETE_STRAY_RECEIPTS@));
    }
    assert(keeps_definitions(statement(RESOLVE_DELIVERIES@))) by {
        reveal_strlit(
            "INSERT INTO forum_activity_deliveries (activity_id, recipient_kind, \
            recipient_key, reason) SELECT d.activity_id, 'subject', resolved.subject, \
            d.reason FROM forum_activity_deliveries AS d JOIN (SELECT alias, MIN(subject) AS \
            subject FROM forum_identity_aliases GROUP BY alias HAVING COUNT(*) = 1) AS \
            resolved ON resolved.alias = d.recipient_key WHERE d.recipient_kind = 'username' \
            ON CONFLICT (activity_id, recipient_kind, recipient_key, reason) DO NOTHING",
        );
        lemma_other_word(statement(RESOLVE_DELIVERIES@));
    }
    assert(keeps_definitions(statement(DELETE_UNRESOLVED_DELIVERIES@))) by {
        reveal_strlit(
            "DELETE FROM forum_activity_deliveries WHERE recipient_kind <> 'subject'",
        );
        lemma_other_word(statement(DELETE_UNRESOLVED_DELIVERIES@));
    }
    assert(keeps_definitions(statement(DELETE_UNWATCHED_DELIVERIES@))) by {
        reveal_strlit(
            "DELETE FROM forum_activity_deliveries AS delivery WHERE delivery.recipient_kind \
            = 'subject' AND delivery.reason = 'following' AND EXISTS (SELECT 1 FROM \
            forum_activity_events AS event WHERE event.id = delivery.activity_id AND (NOT \
            EXISTS (SELECT 1 FROM thread_subscriptions AS watcher WHERE watcher.thread_id = \
            event.thread_id AND watcher.subscriber_sub = delivery.recipient_key) OR EXISTS \
            (SELECT 1 FROM thread_follow_preferences AS preference WHERE preference.thread_id \
            = event.thread_id AND preference.subscriber_sub = delivery.recipient_key AND \
            preference.level = 'mute')))",
        );
        lemma_other_word(statement(DELETE_UNWATCHED_DELIVERIES@));
    }
    assert(keeps_definitions(statement(DELETE_UNDELIVERED_RECEIPTS@))) by {
        reveal_strlit(
            "DELETE FROM forum_activity_receipts AS r WHERE NOT EXISTS (SELECT 1 FROM \
            forum_activity_deliveries AS d WHERE d.activity_id = r.activity_id AND \
            d.recipient_kind = 'subject' AND d.recipient_key = r.viewer_sub)",
        );
        lemma_other_word(statement(DELETE_UNDELIVERED_RECEIPTS@));
    }
    assert(keeps_definitions(statement(DELETE_UNDELIVERED_EVENTS@))) by {
        reveal_strlit(
            "DELETE FROM forum_activity_events AS e WHERE NOT EXISTS (SELECT 1 FROM \
            forum_activity_deliveries AS d WHERE d.activity_id = e.id)",
        );
        lemma_other_word(statement(DELETE_UNDELIVERED_EVENTS@));
    }
}

/// The tables of reactions and bans are created, never altered.
proof fn lemma_moderation_schema_keeps()
    ensures
        forall|i: int|
            0 <= i < moderation_schema().len() ==> keeps_definitions(#[trigger] moderation_schema()[i]),
{
    assert(keeps_definitions(statement(CREATE_POST_REACTIONS@))) by {
        reveal_strlit(
            "CREATE TABLE IF NOT EXISTS post_reactions (post_id TEXT NOT NULL, user_sub TEXT \
            NOT NULL, kind TEXT NOT NULL, created_at BIGINT NOT NULL, PRIMARY KEY (post_id, \
            user_sub, kind))",
        );
        lemma_other_word(statement(CREATE_POST_REACTIONS@));
    }
    assert(keeps_definitions(statement(IDX_REACTIONS_POST@))) by {
        reveal_strlit(
            "CREATE INDEX IF NOT EXISTS idx_reactions_post ON post_reactions (post_id)",
        );
        lemma_other_word(statement(IDX_REACTIONS_POST@));
    }
    assert(keeps_definitions(statement(CREATE_BANNED_AUTHORS@))) by {
        reveal_strlit(
            "CREATE TABLE IF NOT EXISTS banned_authors (author_sub TEXT PRIMARY KEY, reason \
            TEXT NOT NULL DEFAULT '', banned_by TEXT NOT NULL DEFAULT '', created_at BIGINT \
            NOT NULL)",
        );
        lemma_other_word(statement(CREATE_BANNED_AUTHORS@));
    }
}

/// The repair of older relationships alters no table.
proof fn lemma_follow_repair_keeps()
    ensures
        keeps_definitions(statement(MOVE_PREFERENCES@)),
        keeps_definitions(statement(KEEP_WATCHES@)),
        keeps_definitions(statement(DELETE_STRAY_PREFERENCES@)),
        keeps_definitions(statement(DELETE_MUTED_WATCHES@)),
{
    assert(keeps_definitions(statement(MOVE_PREFERENCES@))) by {
        reveal_strlit(
            "INSERT INTO thread_follow_preferences (thread_id, subscriber_sub, level, \
            created_at) SELECT subscription.thread_id, subscription.subscriber_sub, \
            subscription.level, subscription.created_at FROM thread_subscriptions AS \
            subscription JOIN threads AS thread ON thread.id = subscription.thread_id WHERE \
            subscription.level IN ('follow', 'mute') ON CONFLICT (thread_id, subscriber_sub) \
            DO UPDATE SET level = EXCLUDED.level, created_at = EXCLUDED.created_at",
        );
        lemma_other_word(statement(MOVE_PREFERENCES@));
    }
    assert(keeps_definitions(statement(KEEP_WATCHES@))) by {
        reveal_strlit(
            "DELETE FROM thread_subscriptions WHERE level <> 'watch'",
        );
        lemma_other_word(statement(KEEP_WATCHES@));
    }
    assert(keeps_definitions(statement(DELETE_STRAY_PREFERENCES@))) by {
        reveal_strlit(
            "DELETE FROM thread_follow_preferences AS preference WHERE NOT EXISTS (SELECT 1 \
            FROM threads AS thread WHERE thread.id = preference.thread_id)",
        );
        lemma_other_word(statement(DELETE_STRAY_PREFERENCES@));
    }
    assert(keeps_definitions(statement(DELETE_MUTED_WATCHES@))) by {
        reveal_strlit(
            "DELETE FROM thread_subscriptions AS watcher WHERE EXISTS (SELECT 1 FROM \
            thread_follow_preferences AS preference WHERE preference.thread_id = \
            watcher.thread_id AND preference.subscriber_sub = watcher.subscriber_sub AND \
            preference.level = 'mute')",
        );
        lemma_other_word(statement(DELETE_MUTED_WATCHES@));
    }
}

/// The place of the answer on the constraint of the preferences.
pub open spec fn constraints_from(told: Seq<ToldRow>) -> int {
    if flag_at(told, 7) {
        9
    } else {
        8
    }
}

/// Whether the answers are those of a database that was migrated before: every row is complete, the
/// clock is not behind, and the constraints are there.
pub open spec fn migrated(told: Seq<ToldRow>) -> bool {
    let at = constraints_from(told);
    &&& told.len() == at + 3
    &&& unidentified_at(told, 0).len() == 0
    &&& clock_at(told, 2) <= clock_at(told, 1)
    &&& clock_at(told, 3) <= clock_at(told, 1)
    &&& points_at(told, 4).len() == 0
    &&& receipts_at(told, 5).len() == 0
    &&& flag_at(told, 7) ==> flag_at(told, 8)
    &&& flag_at(told, at)
    &&& flag_at(told, at + 1)
    &&& flag_at(told, at + 2)
}

/// A database that was migrated before is migrated again without failure: nothing is identified, no
/// row gets a generation, the clock is stored as it was, and no table is altered once the
/// constraints were looked for.
pub proof fn law_migration_again(told: Seq<ToldRow>)
    requires
        migrated(told),
    ensures
        forall|k: int| 0 <= k < told.len() ==> (#[trigger] migration(told.take(k))) is Fetch,
        migration(told) is Finish,
        steps_of(migration(told.take(1))) == running(identity_schema()).push(StepRow::Begin),
        steps_of(migration(told.take(5))) == no_steps(),
        steps_of(migration(told.take(6))) == committing(seq![clock_update(clock_at(told, 1))])
            + running(mention_schema()),
        forall|k: int|
            8 <= k <= told.len() ==> steps_keep_definitions(
                steps_of(#[trigger] migration(told.take(k))),
            ),
{
    let at = constraints_from(told);
    let one = told.take(1);
    let five = told.take(5);
    let six = told.take(6);
    assert(unidentified_at(one, 0) == unidentified_at(told, 0));
    assert(unidentified_at(one, 0).map_values(identification()) + identity_schema()
        =~= identity_schema());
    assert(points_at(five, 4) == points_at(told, 4));
    let none = point_backfills(greatest_at(five), points_at(five, 4))->Ok_0;
    assert(none =~= Seq::empty());
    assert(running(none) =~= no_steps());
    assert(points_at(six, 4) == points_at(told, 4));
    assert(receipts_at(six, 5) == receipts_at(told, 5));
    assert(clock_at(six, 1) == clock_at(told, 1) && clock_at(six, 2) == clock_at(told, 2)
        && clock_at(six, 3) == clock_at(told, 3));
    let writes = receipt_backfills(
        greatest_at(six) + points_at(six, 4).len(),
        receipts_at(six, 5),
    )->Ok_0;
    assert(writes =~= seq![clock_update(clock_at(told, 1))]);
    assert(told.take(told.len() as int) =~= told);
    assert forall|k: int| 0 <= k <= told.len() implies (k < told.len() ==> (
    #[trigger] migration(told.take(k))) is Fetch) && (k == told.len() ==> migration(told.take(k))
        is Finish) && (8 <= k ==> steps_keep_definitions(steps_of(migration(told.take(k))))) by {
        let t = told.take(k);
        assert(forall|i: int| 0 <= i < k ==> flag_at(t, i) == #[trigger] flag_at(told, i));
        if k == 5 {
            assert(t == five);
        } else if k == 6 {
            assert(t == six);
        } else if k >= 8 {
            lemma_late_steps(told, k);
        }
    }
}

/// The steps behind the question for the older levels.
proof fn lemma_late_steps(told: Seq<ToldRow>, k: int)
    requires
        migrated(told),
        8 <= k <= told.len(),
    ensures
        steps_keep_definitions(steps_of(migration(told.take(k)))),
{
    let t = told.take(k);
    let at = constraints_from(told);
    assert(forall|i: int| 0 <= i < k ==> flag_at(t, i) == #[trigger] flag_at(told, i));
    assert(flag_at(t, 7) == flag_at(told, 7));
    lemma_follow_repair_keeps();
    lemma_activity_schema_keeps();
    lemma_activity_repair_keeps();
    lemma_moderation_schema_keeps();
    lemma_running_keeps(seq![statement(MOVE_PREFERENCES@), statement(KEEP_WATCHES@)]);
    lemma_running_keeps(seq![statement(DELETE_STRAY_PREFERENCES@)]);
    lemma_running_keeps(seq![statement(DELETE_MUTED_WATCHES@)]);
    lemma_running_keeps(activity_schema());
    lemma_running_keeps(activity_repair());
    lemma_running_keeps(moderation_schema());
    lemma_running_keeps(Seq::empty());
    if k == at {
        assert(unless(true, ADD_WATCH_CHECK@).push(statement(DELETE_STRAY_PREFERENCES@))
            =~= seq![statement(DELETE_STRAY_PREFERENCES@)]);
        assert(Seq::<StatementRow>::empty().push(statement(DELETE_STRAY_PREFERENCES@))
            =~= seq![statement(DELETE_STRAY_PREFERENCES@)]);
    } else if k == at + 1 {
        assert(flag_at(t, at));
        assert(unless(true, ADD_PREFERENCE_KEY@).push(statement(DELETE_MUTED_WATCHES@))
            =~= seq![statement(DELETE_MUTED_WATCHES@)]);
    } else if k == at + 2 {
        assert(flag_at(t, at + 1));
    } else if k == at + 3 {
        assert(flag_at(t, at + 2));
    }
}

/// Rows that were completed before are left alone: the statements that complete older rows say that
/// they touch no category with a format, no bookmark with an identity, no post in the catch-up
/// record, and no receipt with a generation.
pub proof fn law_completed_rows_are_guarded()
    ensures
        " WHERE format IS NULL"@.is_suffix_of(CLASSIFY_CATEGORIES@),
        " AND (bookmark_id IS NULL OR bookmark_id = '')"@.is_suffix_of(IDENTIFY_BOOKMARK@),
        " ON CONFLICT (post_id) DO NOTHING"@.is_suffix_of(BACKFILL_POINT@),
        " AND read_seq IS NULL"@.is_suffix_of(SEQUENCE_READ_RECEIPT@),
{
    assert(" WHERE format IS NULL"@.is_suffix_of(CLASSIFY_CATEGORIES@)) by {
        reveal_strlit(" WHERE format IS NULL");
        reveal_strlit(
            "UPDATE categories SET format = CASE WHEN id = 'support' THEN 'question' ELSE \
            'discussion' END WHERE format IS NULL",
        );
    }
    assert(" AND (bookmark_id IS NULL OR bookmark_id = '')"@.is_suffix_of(IDENTIFY_BOOKMARK@)) by {
        reveal_strlit(" AND (bookmark_id IS NULL OR bookmark_id = '')");
        reveal_strlit(
            "UPDATE forum_bookmarks SET bookmark_id = $1 WHERE owner_sub = $2 AND post_id = \
            $3 AND (bookmark_id IS NULL OR bookmark_id = '')",
        );
    }
    assert(" ON CONFLICT (post_id) DO NOTHING"@.is_suffix_of(BACKFILL_POINT@)) by {
        reveal_strlit(" ON CONFLICT (post_id) DO NOTHING");
        reveal_strlit(
            "INSERT INTO forum_catch_up_post_points (post_id, thread_id, activity_at, seq) \
            VALUES ($1, $2, $3, $4) ON CONFLICT (post_id) DO NOTHING",
        );
    }
    assert(" AND read_seq IS NULL"@.is_suffix_of(SEQUENCE_READ_RECEIPT@)) by {
        reveal_strlit(" AND read_seq IS NULL");
        reveal_strlit(
            "UPDATE forum_post_read_receipts SET read_seq = $1 WHERE viewer_sub = $2 AND \
            post_id = $3 AND read_seq IS NULL",
        );
    }
}

} // verus!
