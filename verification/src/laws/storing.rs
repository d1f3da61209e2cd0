//! What the commands write to the tables: each change as a statement of its own, with the values of
//! the record it is about.

use vstd::prelude::*;

use crate::laws::asking::law_names_read_back;
use crate::laws::order::{law_ordered_set, law_text_less_irreflexive, law_text_less_total};
use crate::model::{
    ActivityDeliveryRow, ActivityEventRow, ActivityKind, ActivityReason, BookmarkRow,
    CategoryFocusLevel, CategoryFormat, PostRow, ThreadFollowLevel, ThreadRow,
};
use crate::relational::command::{
    AskRow, OpenedThreadRow, StepRow, ToldRow, affected_at, at_most, bookmark_at, committing,
    number_at, post_at, running, text_at, thread_at,
};
use crate::relational::commands::answering::answering;
use crate::relational::commands::following::follow_change;
use crate::relational::commands::moderation::{
    category_removing, locked_deletion, moving_locked, thread_deletion, thread_edit, transition,
};
use crate::relational::commands::opening::{clock_at, mentions_at};
use crate::relational::commands::receipts::{event_marking, target_progress};
use crate::relational::commands::replying::{reply_locks, replying, replying_to};
use crate::relational::commands::saving::{
    bookmark_editing, bookmark_removing, saving, settling, toggling,
};
use crate::relational::moderating::{
    AnswerActivityRow, accepted_id, answer_writes, format_update, move_writes, post_removal,
    stored_format, thread_removal, thread_settling,
};
use crate::relational::personal::{
    ActivityLockTargetRow, bookmark_insertion, bookmark_store, focus_writes, level_writes,
    read_writes, receipt_write, removal_write, target_order,
};
use crate::relational::sql::{
    ADVANCE_CLOCK, BUMP_THREAD, CLEAR_QUOTES, DELETE_ACTIVITY_RECEIPT, DELETE_BOOKMARK,
    DELETE_CATEGORY, DELETE_FOCUS_RULE, DELETE_FOLLOWING_DELIVERIES, DELETE_MENTIONS,
    DELETE_ORPHAN_EVENTS, DELETE_ORPHAN_RECEIPTS, DELETE_POST, DELETE_POST_EVENTS,
    DELETE_POST_REACTIONS, DELETE_PREFERENCE, DELETE_REACTION, DELETE_THREAD, DELETE_THREAD_EVENTS,
    DELETE_THREAD_MENTIONS, DELETE_THREAD_POSTS, DELETE_THREAD_PREFERENCES,
    DELETE_THREAD_REACTIONS, DELETE_THREAD_WATCHES, DELETE_WATCH, INSERT_ALIAS, INSERT_BOOKMARK,
    INSERT_DELIVERY, INSERT_EVENT, INSERT_FOCUS_RULE, INSERT_MENTION, INSERT_POINT, INSERT_POST,
    INSERT_REACTION, INSERT_READ_RECEIPT, INSERT_THREAD, MOVE_THREAD, NEWEST_POST, RETITLE_THREAD,
    REWRITE_POST, SEQUENCE_READ_RECEIPT, SETTLE_THREAD, SET_ACCEPTED, SET_FORMAT, UPDATE_BOOKMARK,
    UPDATE_FOCUS_RULE, UPSERT_ACTIVITY_RECEIPT, UPSERT_PREFERENCE, UPSERT_WATCH,
};
use crate::relational::statement::{ParamRow, StatementRow, statement};
use crate::relational::writing::{
    activity_writes, alias_insertion, mention_writes, opening_writes, post_insertion, reply_writes,
};
use crate::rows::{deduped, lemma_deduped};
use crate::store::posting::post_event;
use crate::store::rules::{alias_of, recipients};
use crate::store::types::{AcceptedAnswerAction, BookmarkReminderUpdate, Failure};
use crate::text::{blank_text, text_less};

verus! {

/// Whether a statement with the values is among the writes.
pub open spec fn writes(all: Seq<StatementRow>, sql: Seq<char>, params: Seq<ParamRow>) -> bool {
    exists|k: int|
        0 <= k < all.len() && (#[trigger] all[k]).sql == sql && all[k].params == params
}

proof fn lemma_writes(all: Seq<StatementRow>, k: int)
    requires
        0 <= k < all.len(),
    ensures
        writes(all, all[k].sql, all[k].params),
{
}

/// A new thread is written with every value of its own and the identifier and body of its original
/// post; the post is written behind it with every value of its own.
pub proof fn law_opening_is_written(thread: ThreadRow, first_post: PostRow)
    ensures
        ({
            let all = opening_writes(thread, first_post);
            &&& all.len() == 2
            &&& all[0].sql == INSERT_THREAD@
            &&& all[0].params == seq![
                ParamRow::Text(thread.id),
                ParamRow::Text(thread.category_id),
                ParamRow::Text(thread.title),
                ParamRow::Text(thread.author_sub),
                ParamRow::Text(thread.author_email),
                ParamRow::Int(thread.created_at),
                ParamRow::Int(thread.last_at),
                ParamRow::Text(first_post.body_md),
                ParamRow::Text(first_post.id),
                ParamRow::Flag(thread.locked),
                ParamRow::Flag(thread.pinned),
                ParamRow::Text(thread.accepted_post_id),
            ]
            &&& all[1].sql == INSERT_POST@
            &&& all[1].params == seq![
                ParamRow::Text(first_post.id),
                ParamRow::Text(first_post.thread_id),
                ParamRow::Text(first_post.body_md),
                ParamRow::Text(first_post.quoted_post_id),
                ParamRow::Text(first_post.author_sub),
                ParamRow::Text(first_post.author_email),
                ParamRow::Int(first_post.created_at),
            ]
        }),
{
    let all = opening_writes(thread, first_post);
    assert(all[0].params =~= seq![
        ParamRow::Text(thread.id),
        ParamRow::Text(thread.category_id),
        ParamRow::Text(thread.title),
        ParamRow::Text(thread.author_sub),
        ParamRow::Text(thread.author_email),
        ParamRow::Int(thread.created_at),
        ParamRow::Int(thread.last_at),
        ParamRow::Text(first_post.body_md),
        ParamRow::Text(first_post.id),
        ParamRow::Flag(thread.locked),
        ParamRow::Flag(thread.pinned),
        ParamRow::Text(thread.accepted_post_id),
    ]);
}

/// A reply advances the clock, enters the catch-up record at its own moment and that generation,
/// and moves its thread to its moment.
pub proof fn law_reply_is_written(post: PostRow, generation: i64)
    ensures
        ({
            let all = reply_writes(post, generation);
            &&& writes(all, ADVANCE_CLOCK@, seq![ParamRow::Int(generation)])
            &&& writes(
                all,
                INSERT_POINT@,
                seq![
                    ParamRow::Text(post.id),
                    ParamRow::Text(post.thread_id),
                    ParamRow::Int(post.created_at),
                    ParamRow::Int(generation),
                ],
            )
            &&& writes(
                all,
                BUMP_THREAD@,
                seq![ParamRow::Int(post.created_at), ParamRow::Text(post.thread_id)],
            )
        }),
{
    let all = reply_writes(post, generation);
    assert(all[0].params =~= seq![ParamRow::Int(generation)]);
    assert(all[1].params =~= seq![
        ParamRow::Text(post.id),
        ParamRow::Text(post.thread_id),
        ParamRow::Int(post.created_at),
        ParamRow::Int(generation),
    ]);
    assert(all[2].params =~= seq![
        ParamRow::Int(post.created_at),
        ParamRow::Text(post.thread_id),
    ]);
    lemma_writes(all, 0);
    lemma_writes(all, 1);
    lemma_writes(all, 2);
}

/// The alias of an author is written with the author, and nothing where they have none.
pub proof fn law_alias_is_written(subject: Seq<char>, email: Seq<char>, created_at: i64)
    ensures
        alias_of(subject, email) is None ==> alias_insertion(subject, email, created_at) is None,
        alias_of(subject, email) is Some ==> alias_insertion(subject, email, created_at) is Some
            && alias_insertion(subject, email, created_at)->0.sql == INSERT_ALIAS@
            && alias_insertion(subject, email, created_at)->0.params == seq![
            ParamRow::Text(alias_of(subject, email)->0),
            ParamRow::Text(subject),
            ParamRow::Int(created_at),
        ],
{
    if alias_of(subject, email) is Some {
        assert(alias_insertion(subject, email, created_at)->0.params =~= seq![
            ParamRow::Text(alias_of(subject, email)->0),
            ParamRow::Text(subject),
            ParamRow::Int(created_at),
        ]);
    }
}

/// The mentions of a post replace those it had: each name is written once, behind the removal.
pub proof fn law_mentions_are_written(
    post_id: Seq<char>,
    thread_id: Seq<char>,
    names: Seq<Seq<char>>,
    created_at: i64,
)
    ensures
        ({
            let all = mention_writes(post_id, thread_id, names, created_at);
            &&& all[0].sql == DELETE_MENTIONS@ && all[0].params == seq![ParamRow::Text(post_id)]
            &&& forall|i: int|
                0 <= i < names.len() ==> writes(
                    all,
                    INSERT_MENTION@,
                    seq![
                        ParamRow::Text(post_id),
                        ParamRow::Text(thread_id),
                        ParamRow::Text(#[trigger] names[i]),
                        ParamRow::Int(created_at),
                    ],
                )
            &&& all.len() <= names.len() + 1
        }),
{
    let all = mention_writes(post_id, thread_id, names, created_at);
    let distinct = deduped(names);
    lemma_deduped(names);
    assert(all[0].params =~= seq![ParamRow::Text(post_id)]);
    assert forall|i: int| 0 <= i < names.len() implies writes(
        all,
        INSERT_MENTION@,
        seq![
            ParamRow::Text(post_id),
            ParamRow::Text(thread_id),
            ParamRow::Text(#[trigger] names[i]),
            ParamRow::Int(created_at),
        ],
    ) by {
        assert(names.contains(names[i]));
        assert(distinct.contains(names[i]));
        let k = choose|k: int| 0 <= k < distinct.len() && distinct[k] == names[i];
        assert(all[k + 1].params =~= seq![
            ParamRow::Text(post_id),
            ParamRow::Text(thread_id),
            ParamRow::Text(names[i]),
            ParamRow::Int(created_at),
        ]);
        lemma_writes(all, k + 1);
    }
}

/// An event is written with every value of its own, and behind it each of its notices; an event
/// that nobody is told of is not written.
pub proof fn law_event_is_written(
    event: ActivityEventRow,
    deliveries: Seq<ActivityDeliveryRow>,
    k: int,
)
    requires
        0 <= k < deliveries.len(),
    ensures
        ({
            let all = activity_writes(event, deliveries);
            &&& all.len() == deliveries.len() + 1
            &&& all[0].sql == INSERT_EVENT@
            &&& all[0].params == seq![
                ParamRow::Text(event.id),
                ParamRow::Text(event.kind.text()),
                ParamRow::Text(event.thread_id),
                ParamRow::Text(event.post_id),
                ParamRow::Text(event.actor_sub),
                ParamRow::Int(event.created_at),
            ]
            &&& all[k + 1].sql == INSERT_DELIVERY@
            &&& all[k + 1].params == seq![
                ParamRow::Text(event.id),
                ParamRow::Text(deliveries[k].recipient_kind.text()),
                ParamRow::Text(deliveries[k].recipient_key),
                ParamRow::Text(deliveries[k].reason.text()),
            ]
            &&& activity_writes(event, Seq::empty()).len() == 0
        }),
{
    let all = activity_writes(event, deliveries);
    assert(all[0].params =~= seq![
        ParamRow::Text(event.id),
        ParamRow::Text(event.kind.text()),
        ParamRow::Text(event.thread_id),
        ParamRow::Text(event.post_id),
        ParamRow::Text(event.actor_sub),
        ParamRow::Int(event.created_at),
    ]);
    assert(all[k + 1].params =~= seq![
        ParamRow::Text(event.id),
        ParamRow::Text(deliveries[k].recipient_kind.text()),
        ParamRow::Text(deliveries[k].recipient_key),
        ParamRow::Text(deliveries[k].reason.text()),
    ]);
}

/// With a thread its reactions, mentions, watches, preferences, events and posts are removed, and
/// the thread itself last.
pub proof fn law_thread_is_removed_whole(id: Seq<char>)
    ensures
        ({
            let all = thread_removal(id);
            let own = seq![ParamRow::Text(id)];
            &&& writes(all, DELETE_THREAD_REACTIONS@, own)
            &&& writes(all, DELETE_THREAD_MENTIONS@, own)
            &&& writes(all, DELETE_THREAD_WATCHES@, own)
            &&& writes(all, DELETE_THREAD_PREFERENCES@, own)
            &&& writes(all, DELETE_THREAD_EVENTS@, own)
            &&& writes(all, DELETE_THREAD_POSTS@, own)
            &&& all.last().sql == DELETE_THREAD@
            &&& forall|k: int| 0 <= k < all.len() ==> (#[trigger] all[k]).params == own
        }),
{
    let all = thread_removal(id);
    let own = seq![ParamRow::Text(id)];
    assert forall|k: int| 0 <= k < all.len() implies (#[trigger] all[k]).params == own by {
        assert(all[k].params =~= own);
    }
    lemma_writes(all, 1);
    lemma_writes(all, 2);
    lemma_writes(all, 3);
    lemma_writes(all, 4);
    lemma_writes(all, 6);
    lemma_writes(all, 7);
}

/// With a reply its reactions, mentions and events are removed, whoever quoted it quotes nothing,
/// and the reply itself is removed last.
pub proof fn law_reply_is_removed_whole(id: Seq<char>)
    ensures
        ({
            let all = post_removal(id);
            let own = seq![ParamRow::Text(id)];
            &&& writes(all, DELETE_POST_REACTIONS@, own)
            &&& writes(all, DELETE_MENTIONS@, own)
            &&& writes(all, DELETE_POST_EVENTS@, own)
            &&& writes(all, CLEAR_QUOTES@, own)
            &&& all.last().sql == DELETE_POST@
            &&& forall|k: int| 0 <= k < all.len() ==> (#[trigger] all[k]).params == own
        }),
{
    let all = post_removal(id);
    let own = seq![ParamRow::Text(id)];
    assert forall|k: int| 0 <= k < all.len() implies (#[trigger] all[k]).params == own by {
        assert(all[k].params =~= own);
    }
    lemma_writes(all, 0);
    lemma_writes(all, 1);
    lemma_writes(all, 3);
    lemma_writes(all, 4);
}

/// A thread that lost a reply is written with the moment of its newest post, and keeps its answer
/// unless that was the reply or the original post.
pub proof fn law_thread_is_settled(
    thread: ThreadRow,
    first_post_id: Seq<char>,
    post_id: Seq<char>,
    at: i64,
)
    ensures
        ({
            let r = thread_settling(thread, first_post_id, post_id, Some(at));
            let answer = if thread.accepted_post_id == post_id || thread.accepted_post_id
                == first_post_id {
                Seq::empty()
            } else {
                thread.accepted_post_id
            };
            &&& r is Ok
            &&& r->Ok_0.sql == SETTLE_THREAD@
            &&& r->Ok_0.params == seq![
                ParamRow::Int(at),
                ParamRow::Text(answer),
                ParamRow::Text(thread.id),
            ]
            &&& thread_settling(thread, first_post_id, post_id, None) is Err
        }),
{
    let answer = if thread.accepted_post_id == post_id || thread.accepted_post_id == first_post_id {
        Seq::empty()
    } else {
        thread.accepted_post_id
    };
    assert(thread_settling(thread, first_post_id, post_id, Some(at))->Ok_0.params =~= seq![
        ParamRow::Int(at),
        ParamRow::Text(answer),
        ParamRow::Text(thread.id),
    ]);
}

/// A level is written where it belongs: watching among the watches, following and muting among the
/// preferences under its name; what does not hold any more is removed. Whoever does not watch loses
/// the notices of watching.
pub proof fn law_level_is_written(
    thread_id: Seq<char>,
    viewer_sub: Seq<char>,
    level: ThreadFollowLevel,
    created_at: i64,
)
    ensures
        ({
            let all = level_writes(thread_id, viewer_sub, level, created_at);
            let pair = seq![ParamRow::Text(thread_id), ParamRow::Text(viewer_sub)];
            let back = seq![ParamRow::Text(viewer_sub), ParamRow::Text(thread_id)];
            &&& level is Watch ==> writes(
                all,
                UPSERT_WATCH@,
                pair.push(ParamRow::Int(created_at)),
            )
            &&& !(level is Watch) ==> writes(all, DELETE_WATCH@, pair)
            &&& level is Follow || level is Mute ==> writes(
                all,
                UPSERT_PREFERENCE@,
                pair.push(ParamRow::Text(level.text())).push(ParamRow::Int(created_at)),
            )
            &&& !(level is Follow || level is Mute) ==> writes(all, DELETE_PREFERENCE@, pair)
            &&& level is Watch <==> all.len() == 2
            &&& !(level is Watch) ==> writes(all, DELETE_FOLLOWING_DELIVERIES@, back) && writes(
                all,
                DELETE_ORPHAN_RECEIPTS@,
                back,
            ) && writes(all, DELETE_ORPHAN_EVENTS@, seq![ParamRow::Text(thread_id)])
        }),
{
    let all = level_writes(thread_id, viewer_sub, level, created_at);
    let pair = seq![ParamRow::Text(thread_id), ParamRow::Text(viewer_sub)];
    let back = seq![ParamRow::Text(viewer_sub), ParamRow::Text(thread_id)];
    lemma_writes(all, 0);
    lemma_writes(all, 1);
    if level is Watch {
        assert(all[0].params =~= pair.push(ParamRow::Int(created_at)));
    } else {
        assert(all[0].params =~= pair);
        lemma_writes(all, 2);
        lemma_writes(all, 3);
        lemma_writes(all, 4);
        assert(all[2].params =~= back);
        assert(all[3].params =~= back);
        assert(all[4].params =~= seq![ParamRow::Text(thread_id)]);
    }
    if level is Follow || level is Mute {
        assert(all[1].params =~= pair.push(ParamRow::Text(level.text())).push(
            ParamRow::Int(created_at),
        ));
    } else {
        assert(all[1].params =~= pair);
    }
}

/// A bookmark is written with every value of its own, and found again by its owner, its post and
/// its identifier.
pub proof fn law_bookmark_is_written(b: BookmarkRow)
    ensures
        bookmark_insertion(b).sql == INSERT_BOOKMARK@,
        bookmark_insertion(b).params == seq![
            ParamRow::Text(b.bookmark_id),
            ParamRow::Text(b.owner_sub),
            ParamRow::Text(b.post_id),
            ParamRow::Text(b.note),
            ParamRow::OptInt(b.remind_at),
            ParamRow::Int(b.created_at),
            ParamRow::Int(b.updated_at),
            ParamRow::Int(b.version),
        ],
        bookmark_store(b).sql == UPDATE_BOOKMARK@,
        bookmark_store(b).params == seq![
            ParamRow::Text(b.note),
            ParamRow::OptInt(b.remind_at),
            ParamRow::Int(b.updated_at),
            ParamRow::Int(b.version),
            ParamRow::Text(b.owner_sub),
            ParamRow::Text(b.post_id),
            ParamRow::Text(b.bookmark_id),
        ],
        removal_write(b, b.bookmark_id, b.version) is Ok,
        removal_write(b, b.bookmark_id, b.version)->Ok_0.sql == DELETE_BOOKMARK@,
        removal_write(b, b.bookmark_id, b.version)->Ok_0.params == seq![
            ParamRow::Text(b.owner_sub),
            ParamRow::Text(b.post_id),
            ParamRow::Text(b.bookmark_id),
        ],
{
    assert(bookmark_insertion(b).params =~= seq![
        ParamRow::Text(b.bookmark_id),
        ParamRow::Text(b.owner_sub),
        ParamRow::Text(b.post_id),
        ParamRow::Text(b.note),
        ParamRow::OptInt(b.remind_at),
        ParamRow::Int(b.created_at),
        ParamRow::Int(b.updated_at),
        ParamRow::Int(b.version),
    ]);
}

/// A read mark is written for every post at the moment and the generation, behind the clock; an
/// event is ticked off or not, for the one viewer.
pub proof fn law_marks_are_written(
    viewer_sub: Seq<char>,
    ids: Seq<Seq<char>>,
    read_at: i64,
    generation: i64,
    k: int,
    read: bool,
)
    requires
        0 <= k < ids.len(),
    ensures
        ({
            let all = read_writes(viewer_sub, ids, read_at, generation);
            &&& all[0].sql == ADVANCE_CLOCK@ && all[0].params == seq![ParamRow::Int(generation)]
            &&& writes(
                all,
                INSERT_READ_RECEIPT@,
                seq![
                    ParamRow::Text(viewer_sub),
                    ParamRow::Text(ids[k]),
                    ParamRow::Int(read_at),
                    ParamRow::Int(generation),
                ],
            )
            &&& writes(
                all,
                SEQUENCE_READ_RECEIPT@,
                seq![
                    ParamRow::Int(generation),
                    ParamRow::Text(viewer_sub),
                    ParamRow::Text(ids[k]),
                ],
            )
            &&& receipt_write(ids[k], viewer_sub, read, read_at).params == (if read {
                seq![
                    ParamRow::Text(ids[k]),
                    ParamRow::Text(viewer_sub),
                    ParamRow::Int(read_at),
                ]
            } else {
                seq![ParamRow::Text(ids[k]), ParamRow::Text(viewer_sub)]
            })
            &&& receipt_write(ids[k], viewer_sub, read, read_at).sql == (if read {
                UPSERT_ACTIVITY_RECEIPT@
            } else {
                DELETE_ACTIVITY_RECEIPT@
            })
        }),
    decreases ids.len(),
{
    let all = read_writes(viewer_sub, ids, read_at, generation);
    let d = ids.drop_last();
    let front = read_writes(viewer_sub, d, read_at, generation);
    let marked = seq![
        ParamRow::Text(viewer_sub),
        ParamRow::Text(ids[k]),
        ParamRow::Int(read_at),
        ParamRow::Int(generation),
    ];
    let sequenced = seq![
        ParamRow::Int(generation),
        ParamRow::Text(viewer_sub),
        ParamRow::Text(ids[k]),
    ];
    lemma_clock_first(viewer_sub, d, read_at, generation);
    if k < d.len() {
        law_marks_are_written(viewer_sub, d, read_at, generation, k, read);
        assert(d[k] == ids[k]);
        let i = choose|i: int|
            0 <= i < front.len() && (#[trigger] front[i]).sql == INSERT_READ_RECEIPT@
                && front[i].params == marked;
        let j = choose|j: int|
            0 <= j < front.len() && (#[trigger] front[j]).sql == SEQUENCE_READ_RECEIPT@
                && front[j].params == sequenced;
        assert(all[i] == front[i] && all[j] == front[j]);
    } else {
        let n = front.len() as int;
        assert(all[n].params =~= marked);
        assert(all[n + 1].params =~= sequenced);
        lemma_writes(all, n);
        lemma_writes(all, n + 1);
    }
    let ticked_off = receipt_write(ids[k], viewer_sub, read, read_at);
    if read {
        assert(ticked_off.params =~= seq![
            ParamRow::Text(ids[k]),
            ParamRow::Text(viewer_sub),
            ParamRow::Int(read_at),
        ]);
    } else {
        assert(ticked_off.params =~= seq![ParamRow::Text(ids[k]), ParamRow::Text(viewer_sub)]);
    }
}

proof fn lemma_clock_first(
    viewer_sub: Seq<char>,
    ids: Seq<Seq<char>>,
    read_at: i64,
    generation: i64,
)
    ensures
        ({
            let all = read_writes(viewer_sub, ids, read_at, generation);
            &&& all.len() == 2 * ids.len() + 1
            &&& all[0].sql == ADVANCE_CLOCK@
            &&& all[0].params == seq![ParamRow::Int(generation)]
        }),
    decreases ids.len(),
{
    let all = read_writes(viewer_sub, ids, read_at, generation);
    if ids.len() > 0 {
        lemma_clock_first(viewer_sub, ids.drop_last(), read_at, generation);
    } else {
        assert(all[0].params =~= seq![ParamRow::Int(generation)]);
    }
}

/// A focus rule is added, changed or removed for the one viewer and category; setting what is there
/// already, or removing what is not, writes nothing.
pub proof fn law_focus_is_written(
    viewer_sub: Seq<char>,
    category_id: Seq<char>,
    level: CategoryFocusLevel,
    changed_at: i64,
    current: CategoryFocusLevel,
    rules: int,
)
    ensures
        ({
            let changed = focus_writes(
                viewer_sub,
                category_id,
                level,
                changed_at,
                Some(current.text()),
                rules,
            );
            let added = focus_writes(viewer_sub, category_id, level, changed_at, None, rules);
            let pair = seq![ParamRow::Text(viewer_sub), ParamRow::Text(category_id)];
            &&& changed is Ok
            &&& level is Unset ==> changed->Ok_0 is Some && (changed->Ok_0->0).sql
                == DELETE_FOCUS_RULE@ && (changed->Ok_0->0).params == pair && added
                == Ok::<Option<StatementRow>, Failure>(None)
            &&& !(level is Unset) && level == current ==> changed->Ok_0 is None
            &&& !(level is Unset) && level != current ==> changed->Ok_0 is Some && (
            changed->Ok_0->0).sql == UPDATE_FOCUS_RULE@ && (changed->Ok_0->0).params == seq![
                ParamRow::Text(level.text()),
                ParamRow::Int(changed_at),
            ] + pair
            &&& !(level is Unset) ==> (added is Ok <==> rules < 64)
            &&& !(level is Unset) && rules < 64 ==> added->Ok_0 is Some && (added->Ok_0->0).sql
                == INSERT_FOCUS_RULE@ && (added->Ok_0->0).params == pair.push(
                ParamRow::Text(level.text()),
            ).push(ParamRow::Int(changed_at))
        }),
{
    law_names_read_back(
        CategoryFormat::Question,
        ThreadFollowLevel::Unset,
        current,
        ActivityKind::PostCreated,
        ActivityReason::Mention,
    );
    let changed = focus_writes(
        viewer_sub,
        category_id,
        level,
        changed_at,
        Some(current.text()),
        rules,
    );
    let added = focus_writes(viewer_sub, category_id, level, changed_at, None, rules);
    let pair = seq![ParamRow::Text(viewer_sub), ParamRow::Text(category_id)];
    if level is Unset {
        assert((changed->Ok_0->0).params =~= pair);
    } else {
        if level != current {
            assert((changed->Ok_0->0).params =~= seq![
                ParamRow::Text(level.text()),
                ParamRow::Int(changed_at),
            ] + pair);
        }
        if rules < 64 {
            assert((added->Ok_0->0).params =~= pair.push(ParamRow::Text(level.text())).push(
                ParamRow::Int(changed_at),
            ));
        }
    }
}

/// The accepted answer of a thread is written as its pointer, and a moved thread with its category
/// and what remains of the pointer.
pub proof fn law_pointer_is_written(
    thread: ThreadRow,
    first_post_id: Seq<char>,
    accepted_in: Option<Seq<char>>,
    category_id: Seq<char>,
    format: CategoryFormat,
    post: Option<PostRow>,
)
    ensures
        ({
            let moved = move_writes(thread, first_post_id, accepted_in, category_id, format);
            let answered = answer_writes(thread, post, None);
            let valid = thread.accepted_post_id != first_post_id && accepted_in == Some(thread.id);
            &&& moved is Ok <==> thread.category_id == category_id || !valid || format is Question
            &&& moved is Ok ==> moved->Ok_0.sql == MOVE_THREAD@ && moved->Ok_0.params == seq![
                ParamRow::Text(category_id),
                ParamRow::Text(
                    if valid {
                        thread.accepted_post_id
                    } else {
                        Seq::empty()
                    },
                ),
                ParamRow::Text(thread.id),
            ]
            &&& answered.len() == 1
            &&& answered[0].sql == SET_ACCEPTED@
            &&& answered[0].params == seq![
                ParamRow::Text(
                    match post {
                        Some(p) => p.id,
                        None => Seq::empty(),
                    },
                ),
                ParamRow::Text(thread.id),
            ]
        }),
{
    let moved = move_writes(thread, first_post_id, accepted_in, category_id, format);
    let answered = answer_writes(thread, post, None);
    let valid = thread.accepted_post_id != first_post_id && accepted_in == Some(thread.id);
    if moved is Ok {
        assert(moved->Ok_0.params =~= seq![
            ParamRow::Text(category_id),
            ParamRow::Text(
                if valid {
                    thread.accepted_post_id
                } else {
                    Seq::empty()
                },
            ),
            ParamRow::Text(thread.id),
        ]);
    }
    assert(answered[0].params =~= seq![
        ParamRow::Text(
            match post {
                Some(p) => p.id,
                None => Seq::empty(),
            },
        ),
        ParamRow::Text(thread.id),
    ]);
}

/// The threads, posts and categories that a batch of events touches are locked in one order: by
/// category, then by thread, then by post, then by event.
pub proof fn law_locks_are_taken_in_one_order(a: ActivityLockTargetRow, b: ActivityLockTargetRow)
    ensures
        text_less(a.category_id, b.category_id) ==> target_order()(a, b) && !target_order()(b, a),
        a.category_id == b.category_id && text_less(a.thread_id, b.thread_id) ==> target_order()(
            a,
            b,
        ) && !target_order()(b, a),
        a.category_id == b.category_id && a.thread_id == b.thread_id && text_less(
            a.post_id,
            b.post_id,
        ) ==> target_order()(a, b) && !target_order()(b, a),
{
    law_text_less_total(a.category_id, b.category_id);
    law_text_less_total(a.thread_id, b.thread_id);
    law_text_less_total(a.post_id, b.post_id);
    law_text_less_irreflexive(a.category_id);
    law_text_less_irreflexive(a.thread_id);
    law_text_less_irreflexive(a.post_id);
}

// ---------------------------------------------------------------------------
// Finished commands.
// ---------------------------------------------------------------------------

/// Whether steps run a statement with the values.
pub open spec fn runs(steps: Seq<StepRow>, sql: Seq<char>, params: Seq<ParamRow>) -> bool {
    exists|k: int|
        0 <= k < steps.len() && #[trigger] steps[k] == StepRow::Run(StatementRow { sql, params })
}

/// Whether a command ends by running a statement with the values, and commits.
pub open spec fn ends_by_running<V>(
    ask: AskRow<V>,
    sql: Seq<char>,
    params: Seq<ParamRow>,
) -> bool {
    ask matches AskRow::Finish(steps, _) && runs(steps, sql, params) && steps.last()
        == StepRow::Commit
}

/// What is among the writes is run before the commit.
proof fn lemma_runs(all: Seq<StatementRow>, sql: Seq<char>, params: Seq<ParamRow>)
    requires
        writes(all, sql, params),
    ensures
        runs(committing(all), sql, params),
        runs(running(all), sql, params),
        committing(all).last() == StepRow::Commit,
{
    let k = choose|k: int|
        0 <= k < all.len() && (#[trigger] all[k]).sql == sql && all[k].params == params;
    assert(all[k] == (StatementRow { sql, params }));
    assert(committing(all)[k] == StepRow::Run(all[k]));
    assert(running(all)[k] == StepRow::Run(all[k]));
}

proof fn lemma_runs_sole(s: StatementRow)
    ensures
        runs(committing(seq![s]), s.sql, s.params),
        committing(seq![s]).last() == StepRow::Commit,
{
    assert(seq![s][0] == s);
    assert(writes(seq![s], s.sql, s.params));
    lemma_runs(seq![s], s.sql, s.params);
}

/// A finished reply has moved its thread and entered the catch-up record at the generation behind
/// the clock that was read; the post itself was stored with the question for the clock.
pub proof fn law_finished_reply_is_stored(post: PostRow, attempt: int, told: Seq<ToldRow>)
    ensures
        replying(post, attempt, told) is Finish ==> ends_by_running(
            replying(post, attempt, told),
            BUMP_THREAD@,
            seq![ParamRow::Int(post.created_at), ParamRow::Text(post.thread_id)],
        ) && ends_by_running(
            replying(post, attempt, told),
            INSERT_POINT@,
            seq![
                ParamRow::Text(post.id),
                ParamRow::Text(post.thread_id),
                ParamRow::Int(post.created_at),
                ParamRow::Int((clock_at(told, told_before_clock(post)) + 1) as i64),
            ],
        ),
        reply_locks::<()>(post, attempt, told) is Ready && told.len() == told_before_clock(post)
            ==> (replying(post, attempt, told) matches AskRow::Fetch(steps, _, _) && runs(
            steps,
            INSERT_POST@,
            post_insertion(post).params,
        )),
{
    let at = told_before_clock(post);
    if replying(post, attempt, told) is Finish {
        let generation = (clock_at(told, at) + 1) as i64;
        law_reply_is_written(post, generation);
        let all = reply_writes(post, generation);
        lemma_runs(
            all,
            BUMP_THREAD@,
            seq![ParamRow::Int(post.created_at), ParamRow::Text(post.thread_id)],
        );
        lemma_runs(
            all,
            INSERT_POINT@,
            seq![
                ParamRow::Text(post.id),
                ParamRow::Text(post.thread_id),
                ParamRow::Int(post.created_at),
                ParamRow::Int(generation),
            ],
        );
    }
    let known = at_most(alias_insertion(post.author_sub, post.author_email, post.created_at));
    let first = known.push(post_insertion(post));
    assert(first[known.len() as int] == post_insertion(post));
    assert(writes(first, INSERT_POST@, post_insertion(post).params));
    lemma_runs(first, INSERT_POST@, post_insertion(post).params);
}

/// How much is read before the clock when a reply is added: the category, its lock and the thread,
/// and the quoted post where there is one.
pub open spec fn told_before_clock(post: PostRow) -> int {
    if post.quoted_post_id.len() == 0 {
        3
    } else {
        4
    }
}

/// A finished reply that is told of has stored each name it mentions and a notice for each of the
/// subjects it reports.
pub proof fn law_finished_telling_is_stored(
    post: PostRow,
    aliases: Seq<Seq<char>>,
    activity_id: Seq<char>,
    direct: Seq<ActivityDeliveryRow>,
    told: Seq<ToldRow>,
    at: int,
)
    ensures
        ({
            let ask = replying_to(post, aliases, activity_id, direct, told, at);
            &&& ask is Finish ==> forall|i: int|
                0 <= i < aliases.len() ==> ends_by_running(
                    ask,
                    INSERT_MENTION@,
                    seq![
                        ParamRow::Text(post.id),
                        ParamRow::Text(post.thread_id),
                        ParamRow::Text(#[trigger] aliases[i]),
                        ParamRow::Int(post.created_at),
                    ],
                )
            &&& ask is Finish ==> forall|d: int|
                0 <= d < direct.len() ==> ends_by_running(
                    ask,
                    INSERT_DELIVERY@,
                    seq![
                        ParamRow::Text(activity_id),
                        ParamRow::Text((#[trigger] direct[d]).recipient_kind.text()),
                        ParamRow::Text(direct[d].recipient_key),
                        ParamRow::Text(direct[d].reason.text()),
                    ],
                ) && ask->Finish_1.delivery_subjects.contains(direct[d].recipient_key)
            &&& ask is Finish ==> ends_by_running(
                ask,
                BUMP_THREAD@,
                seq![ParamRow::Int(post.created_at), ParamRow::Text(post.thread_id)],
            )
        }),
{
    let ask = replying_to(post, aliases, activity_id, direct, told, at);
    let n = aliases.len() as int;
    if ask is Finish {
        let generation = (clock_at(told, at + n) + 1) as i64;
        let all_direct = direct + mentions_at(told, at, n, post.author_sub);
        let deliveries = deduped(all_direct);
        let moved = reply_writes(post, generation);
        let named = mention_writes(post.id, post.thread_id, aliases, post.created_at);
        let noticed_by = activity_writes(post_event(post, activity_id), deliveries);
        let all = moved + named + noticed_by;
        law_reply_is_written(post, generation);
        lemma_part_of_writes(moved, named, noticed_by);
        lemma_runs(
            all,
            BUMP_THREAD@,
            seq![ParamRow::Int(post.created_at), ParamRow::Text(post.thread_id)],
        );
        law_mentions_are_written(post.id, post.thread_id, aliases, post.created_at);
        assert forall|i: int| 0 <= i < aliases.len() implies ends_by_running(
            ask,
            INSERT_MENTION@,
            seq![
                ParamRow::Text(post.id),
                ParamRow::Text(post.thread_id),
                ParamRow::Text(#[trigger] aliases[i]),
                ParamRow::Int(post.created_at),
            ],
        ) by {
            lemma_runs(
                all,
                INSERT_MENTION@,
                seq![
                    ParamRow::Text(post.id),
                    ParamRow::Text(post.thread_id),
                    ParamRow::Text(aliases[i]),
                    ParamRow::Int(post.created_at),
                ],
            );
        }
        lemma_deduped(all_direct);
        law_ordered_set(recipients(deliveries));
        assert forall|d: int| 0 <= d < direct.len() implies ends_by_running(
            ask,
            INSERT_DELIVERY@,
            seq![
                ParamRow::Text(activity_id),
                ParamRow::Text((#[trigger] direct[d]).recipient_kind.text()),
                ParamRow::Text(direct[d].recipient_key),
                ParamRow::Text(direct[d].reason.text()),
            ],
        ) && ask->Finish_1.delivery_subjects.contains(direct[d].recipient_key) by {
            assert(all_direct[d] == direct[d]);
            assert(all_direct.contains(direct[d]));
            assert(deliveries.contains(direct[d]));
            let k = choose|k: int| 0 <= k < deliveries.len() && deliveries[k] == direct[d];
            law_event_is_written(post_event(post, activity_id), deliveries, k);
            assert(writes(noticed_by, noticed_by[k + 1].sql, noticed_by[k + 1].params));
            lemma_runs(all, INSERT_DELIVERY@, noticed_by[k + 1].params);
            assert(recipients(deliveries)[k] == direct[d].recipient_key);
            assert(recipients(deliveries).contains(direct[d].recipient_key));
        }
    }
}

/// What is written in a part is written in the whole.
proof fn lemma_part_of_writes(
    a: Seq<StatementRow>,
    b: Seq<StatementRow>,
    c: Seq<StatementRow>,
)
    ensures
        forall|sql: Seq<char>, params: Seq<ParamRow>| #[trigger]
            writes(a, sql, params) ==> writes(a + b + c, sql, params),
        forall|sql: Seq<char>, params: Seq<ParamRow>| #[trigger]
            writes(b, sql, params) ==> writes(a + b + c, sql, params),
        forall|sql: Seq<char>, params: Seq<ParamRow>| #[trigger]
            writes(c, sql, params) ==> writes(a + b + c, sql, params),
{
    let all = a + b + c;
    assert forall|sql: Seq<char>, params: Seq<ParamRow>| #[trigger]
        writes(a, sql, params) implies writes(all, sql, params) by {
        let k = choose|k: int|
            0 <= k < a.len() && (#[trigger] a[k]).sql == sql && a[k].params == params;
        assert(all[k] == a[k]);
    }
    assert forall|sql: Seq<char>, params: Seq<ParamRow>| #[trigger]
        writes(b, sql, params) implies writes(all, sql, params) by {
        let k = choose|k: int|
            0 <= k < b.len() && (#[trigger] b[k]).sql == sql && b[k].params == params;
        assert(all[a.len() + k] == b[k]);
    }
    assert forall|sql: Seq<char>, params: Seq<ParamRow>| #[trigger]
        writes(c, sql, params) implies writes(all, sql, params) by {
        let k = choose|k: int|
            0 <= k < c.len() && (#[trigger] c[k]).sql == sql && c[k].params == params;
        assert(all[a.len() + b.len() + k] == c[k]);
    }
}

/// A finished command about a bookmark has stored the bookmark it reports, or removed the one it
/// was told of.
pub proof fn law_finished_bookmark_is_stored(
    owner_sub: Seq<char>,
    post_id: Seq<char>,
    bookmark_id: Seq<char>,
    version: i64,
    note: Seq<char>,
    reminder: BookmarkReminderUpdate,
    next: Option<i64>,
    at: i64,
    told: Seq<ToldRow>,
)
    ensures
        ({
            let saved = saving(owner_sub, post_id, bookmark_id, at, told);
            let edited = bookmark_editing(
                owner_sub,
                post_id,
                bookmark_id,
                version,
                note,
                reminder,
                at,
                told,
            );
            let settled = settling(owner_sub, post_id, bookmark_id, version, next, at, told);
            let removed = bookmark_removing(owner_sub, post_id, bookmark_id, version, told);
            &&& saved is Finish && bookmark_at(told, 2) is None ==> ends_by_running(
                saved,
                INSERT_BOOKMARK@,
                bookmark_insertion(saved->Finish_1).params,
            )
            &&& saved is Finish && bookmark_at(told, 2) is Some ==> saved->Finish_1 == bookmark_at(
                told,
                2,
            )->0
            &&& edited is Finish ==> ends_by_running(
                edited,
                UPDATE_BOOKMARK@,
                bookmark_store(edited->Finish_1).params,
            )
            &&& settled is Finish ==> ends_by_running(
                settled,
                UPDATE_BOOKMARK@,
                bookmark_store(settled->Finish_1).params,
            )
            &&& removed is Finish ==> bookmark_at(told, 1) is Some && ends_by_running(
                removed,
                DELETE_BOOKMARK@,
                seq![
                    ParamRow::Text((bookmark_at(told, 1)->0).owner_sub),
                    ParamRow::Text((bookmark_at(told, 1)->0).post_id),
                    ParamRow::Text((bookmark_at(told, 1)->0).bookmark_id),
                ],
            )
        }),
{
    let saved = saving(owner_sub, post_id, bookmark_id, at, told);
    let edited = bookmark_editing(
        owner_sub,
        post_id,
        bookmark_id,
        version,
        note,
        reminder,
        at,
        told,
    );
    let settled = settling(owner_sub, post_id, bookmark_id, version, next, at, told);
    let removed = bookmark_removing(owner_sub, post_id, bookmark_id, version, told);
    if saved is Finish {
        lemma_runs_sole(bookmark_insertion(saved->Finish_1));
    }
    if edited is Finish {
        lemma_runs_sole(bookmark_store(edited->Finish_1));
    }
    if settled is Finish {
        lemma_runs_sole(bookmark_store(settled->Finish_1));
    }
    if removed is Finish {
        let b = bookmark_at(told, 1)->0;
        let s = removal_write(b, bookmark_id, version)->Ok_0;
        lemma_runs_sole(s);
        assert(s.params =~= seq![
            ParamRow::Text(b.owner_sub),
            ParamRow::Text(b.post_id),
            ParamRow::Text(b.bookmark_id),
        ]);
    }
}

/// A reaction is given with the values of the request, and taken back where it was given before.
pub proof fn law_reaction_is_stored(
    post_id: Seq<char>,
    user_sub: Seq<char>,
    kind: Seq<char>,
    created_at: i64,
    told: Seq<ToldRow>,
)
    ensures
        ({
            let ask = toggling(post_id, user_sub, kind, created_at, told);
            &&& told.len() == 0 ==> (ask matches AskRow::Fetch(_, _, s) && s.sql == INSERT_REACTION@
                && s.params == seq![
                ParamRow::Text(post_id),
                ParamRow::Text(user_sub),
                ParamRow::Text(kind),
                ParamRow::Int(created_at),
            ])
            &&& told.len() > 0 && affected_at(told, 0) > 0 ==> (ask matches AskRow::Finish(s, given)
                && s.len() == 0 && given)
            &&& told.len() > 0 && affected_at(told, 0) <= 0 ==> (ask matches AskRow::Finish(s, given)
                && !given && runs(
                s,
                DELETE_REACTION@,
                seq![ParamRow::Text(post_id), ParamRow::Text(user_sub), ParamRow::Text(kind)],
            ))
        }),
{
    let gift = statement(INSERT_REACTION@).text(post_id).text(user_sub).text(kind).number(
        created_at,
    );
    assert(gift.params =~= seq![
        ParamRow::Text(post_id),
        ParamRow::Text(user_sub),
        ParamRow::Text(kind),
        ParamRow::Int(created_at),
    ]);
    let back = statement(DELETE_REACTION@).text(post_id).text(user_sub).text(kind);
    assert(back.params =~= seq![
        ParamRow::Text(post_id),
        ParamRow::Text(user_sub),
        ParamRow::Text(kind),
    ]);
    assert(seq![back][0] == back);
    assert(writes(seq![back], back.sql, back.params));
    lemma_runs(seq![back], back.sql, back.params);
}

/// A finished change of level has stored the level for the viewer and the thread.
pub proof fn law_finished_level_is_stored(
    thread_id: Seq<char>,
    viewer_sub: Seq<char>,
    level: ThreadFollowLevel,
    created_at: i64,
    attempt: int,
    told: Seq<ToldRow>,
)
    ensures
        ({
            let ask = follow_change(thread_id, viewer_sub, level, created_at, attempt, told);
            let pair = seq![ParamRow::Text(thread_id), ParamRow::Text(viewer_sub)];
            &&& ask is Finish && level is Watch ==> ends_by_running(
                ask,
                UPSERT_WATCH@,
                pair.push(ParamRow::Int(created_at)),
            )
            &&& ask is Finish && !(level is Watch) ==> ends_by_running(ask, DELETE_WATCH@, pair)
                && ends_by_running(
                ask,
                DELETE_FOLLOWING_DELIVERIES@,
                seq![ParamRow::Text(viewer_sub), ParamRow::Text(thread_id)],
            )
            &&& ask is Finish && (level is Follow || level is Mute) ==> ends_by_running(
                ask,
                UPSERT_PREFERENCE@,
                pair.push(ParamRow::Text(level.text())).push(ParamRow::Int(created_at)),
            )
            &&& ask is Finish && !(level is Follow || level is Mute) ==> ends_by_running(
                ask,
                DELETE_PREFERENCE@,
                pair,
            )
        }),
{
    let all = level_writes(thread_id, viewer_sub, level, created_at);
    let pair = seq![ParamRow::Text(thread_id), ParamRow::Text(viewer_sub)];
    law_level_is_written(thread_id, viewer_sub, level, created_at);
    if level is Watch {
        lemma_runs(all, UPSERT_WATCH@, pair.push(ParamRow::Int(created_at)));
    } else {
        lemma_runs(all, DELETE_WATCH@, pair);
        lemma_runs(
            all,
            DELETE_FOLLOWING_DELIVERIES@,
            seq![ParamRow::Text(viewer_sub), ParamRow::Text(thread_id)],
        );
    }
    if level is Follow || level is Mute {
        lemma_runs(
            all,
            UPSERT_PREFERENCE@,
            pair.push(ParamRow::Text(level.text())).push(ParamRow::Int(created_at)),
        );
    } else {
        lemma_runs(all, DELETE_PREFERENCE@, pair);
    }
}

/// A finished answer has stored the pointer of the thread it reports.
pub proof fn law_finished_answer_is_stored(
    thread_id: Seq<char>,
    action: AcceptedAnswerAction,
    activity: Option<AnswerActivityRow>,
    attempt: int,
    told: Seq<ToldRow>,
)
    ensures
        ({
            let ask = answering(thread_id, action, activity, attempt, told);
            ask is Finish ==> ends_by_running(
                ask,
                SET_ACCEPTED@,
                seq![
                    ParamRow::Text(ask->Finish_1.thread.accepted_post_id),
                    ParamRow::Text(ask->Finish_1.thread.id),
                ],
            )
        }),
{
    let ask = answering(thread_id, action, activity, attempt, told);
    if ask is Finish {
        let thread = (thread_at(told, 2)->0).thread;
        let post = ask->Finish_1.accepted_post;
        let all = answer_writes(thread, post, activity);
        let s = statement(SET_ACCEPTED@).text(accepted_id(post)).text(thread.id);
        assert(all[0] == s);
        assert(s.params =~= seq![
            ParamRow::Text(ask->Finish_1.thread.accepted_post_id),
            ParamRow::Text(ask->Finish_1.thread.id),
        ]);
        assert(writes(all, SET_ACCEPTED@, s.params));
        lemma_runs(all, SET_ACCEPTED@, s.params);
    }
}

/// A thread is removed whole once it was found where it was read; a deletion that finds nothing
/// writes nothing.
pub proof fn law_finished_deletion_is_stored(id: Seq<char>, attempt: int, told: Seq<ToldRow>)
    ensures
        ({
            let ask = thread_deletion(id, attempt, told);
            ask is Finish && told.len() > 0 && text_at(told, 0) is Some && text_at(told, 2) is Some
                ==> ends_by_running(ask, DELETE_THREAD@, seq![ParamRow::Text(id)])
                && ends_by_running(ask, DELETE_THREAD_POSTS@, seq![ParamRow::Text(id)])
                && ends_by_running(ask, DELETE_THREAD_EVENTS@, seq![ParamRow::Text(id)])
        }),
{
    let all = thread_removal(id);
    let own = seq![ParamRow::Text(id)];
    law_thread_is_removed_whole(id);
    assert(writes(all, DELETE_THREAD@, own)) by {
        assert(all[all.len() - 1].sql == DELETE_THREAD@);
        assert(all[all.len() - 1].params == own);
    }
    lemma_runs(all, DELETE_THREAD@, own);
    lemma_runs(all, DELETE_THREAD_POSTS@, own);
    lemma_runs(all, DELETE_THREAD_EVENTS@, own);
}

/// A finished change of a category has stored its format, or removed it; where the format stays or
/// there is no category to remove, nothing is stored.
pub proof fn law_finished_category_is_stored(
    id: Seq<char>,
    format: CategoryFormat,
    told: Seq<ToldRow>,
)
    ensures
        ({
            let changed = transition(id, format, told);
            let removed = category_removing(id, told);
            &&& changed is Finish && stored_format(text_at(told, 0)->0) != format
                ==> ends_by_running(
                changed,
                SET_FORMAT@,
                seq![ParamRow::Text(format.text()), ParamRow::Text(id)],
            )
            &&& changed is Finish && stored_format(text_at(told, 0)->0) == format
                ==> changed->Finish_0 == seq![StepRow::Commit]
            &&& removed is Finish && text_at(told, 0) is Some ==> ends_by_running(
                removed,
                DELETE_CATEGORY@,
                seq![ParamRow::Text(id)],
            )
            &&& removed is Finish && text_at(told, 0) is None ==> removed->Finish_0.len() == 1
        }),
{
    let s = format_update(id, format);
    assert(s.params =~= seq![ParamRow::Text(format.text()), ParamRow::Text(id)]);
    lemma_runs_sole(s);
    let d = statement(DELETE_CATEGORY@).text(id);
    assert(d.params =~= seq![ParamRow::Text(id)]);
    lemma_runs_sole(d);
}

/// A finished move has stored the category and what remains of the answer.
pub proof fn law_finished_move_is_stored(
    t: OpenedThreadRow,
    hint: Seq<char>,
    category_id: Seq<char>,
    format: CategoryFormat,
    attempt: int,
    told: Seq<ToldRow>,
    at: int,
)
    ensures
        ({
            let ask = moving_locked(t, hint, category_id, format, attempt, told, at);
            let valid = !blank_text(t.thread.accepted_post_id) && t.thread.accepted_post_id
                != t.first_post_id && text_at(told, at) == Some(t.thread.id);
            ask is Finish ==> t.thread.category_id == hint && ends_by_running(
                ask,
                MOVE_THREAD@,
                seq![
                    ParamRow::Text(category_id),
                    ParamRow::Text(
                        if valid {
                            t.thread.accepted_post_id
                        } else {
                            Seq::empty()
                        },
                    ),
                    ParamRow::Text(t.thread.id),
                ],
            )
        }),
{
    let ask = moving_locked(t, hint, category_id, format, attempt, told, at);
    if ask is Finish {
        let accepted_in = if blank_text(t.thread.accepted_post_id) {
            None
        } else {
            text_at(told, at)
        };
        law_pointer_is_written(t.thread, t.first_post_id, accepted_in, category_id, format, None);
        lemma_runs_sole(
            move_writes(t.thread, t.first_post_id, accepted_in, category_id, format)->Ok_0,
        );
    }
}

/// A reply is removed with the question for the newest remaining post, and its thread is settled
/// with the answer.
pub proof fn law_finished_reply_deletion_is_stored(
    post_id: Seq<char>,
    category_hint: Seq<char>,
    thread_hint: Seq<char>,
    t: OpenedThreadRow,
    attempt: int,
    told: Seq<ToldRow>,
)
    requires
        t.thread.category_id == category_hint,
        post_at(told, 4) matches Some(p) && p.thread_id == thread_hint && p.id != t.first_post_id,
    ensures
        ({
            let ask = locked_deletion(post_id, category_hint, thread_hint, t, attempt, told);
            &&& told.len() == 5 ==> (ask matches AskRow::Fetch(steps, _, s) && runs(
                steps,
                DELETE_POST@,
                seq![ParamRow::Text(post_id)],
            ) && s.sql == NEWEST_POST@ && s.params == seq![ParamRow::Text(thread_hint)])
            &&& told.len() > 5 && number_at(told, 5) is Some ==> ends_by_running(
                ask,
                SETTLE_THREAD@,
                seq![
                    ParamRow::Int(number_at(told, 5)->0),
                    ParamRow::Text(
                        if t.thread.accepted_post_id == post_id || t.thread.accepted_post_id
                            == t.first_post_id {
                            Seq::empty()
                        } else {
                            t.thread.accepted_post_id
                        },
                    ),
                    ParamRow::Text(t.thread.id),
                ],
            )
        }),
{
    let all = post_removal(post_id);
    let own = seq![ParamRow::Text(post_id)];
    law_reply_is_removed_whole(post_id);
    assert(writes(all, DELETE_POST@, own)) by {
        assert(all[all.len() - 1].sql == DELETE_POST@);
        assert(all[all.len() - 1].params == own);
    }
    lemma_runs(all, DELETE_POST@, own);
    assert(statement(NEWEST_POST@).text(thread_hint).params =~= seq![ParamRow::Text(thread_hint)]);
    if number_at(told, 5) is Some {
        let at = number_at(told, 5)->0;
        law_thread_is_settled(t.thread, t.first_post_id, post_id, at);
        lemma_runs_sole(thread_settling(t.thread, t.first_post_id, post_id, Some(at))->Ok_0);
    }
}

/// Editing a thread stores the title with the thread and the body with both the thread and its
/// original post, in one transaction; ticking an event off stores the tick of the one viewer.
pub proof fn law_edits_are_stored(
    id: Seq<char>,
    title: Seq<char>,
    op_post_id: Seq<char>,
    body_md: Seq<char>,
    viewer_sub: Seq<char>,
    read: bool,
    at: i64,
    told: Seq<ToldRow>,
)
    ensures
        ({
            let steps = thread_edit(id, title, op_post_id, body_md);
            let ask = event_marking(id, viewer_sub, read, at, told);
            &&& runs(
                steps,
                RETITLE_THREAD@,
                seq![ParamRow::Text(title), ParamRow::Text(body_md), ParamRow::Text(id)],
            )
            &&& runs(
                steps,
                REWRITE_POST@,
                seq![ParamRow::Text(body_md), ParamRow::Text(op_post_id)],
            )
            &&& steps[0] == StepRow::Begin && steps.last() == StepRow::Commit
            &&& target_progress::<()>(viewer_sub, seq![id], told) is Ready ==> ends_by_running(
                ask,
                receipt_write(id, viewer_sub, read, at).sql,
                receipt_write(id, viewer_sub, read, at).params,
            )
        }),
{
    let steps = thread_edit(id, title, op_post_id, body_md);
    let first = statement(RETITLE_THREAD@).text(title).text(body_md).text(id);
    let second = statement(REWRITE_POST@).text(body_md).text(op_post_id);
    assert(first.params =~= seq![
        ParamRow::Text(title),
        ParamRow::Text(body_md),
        ParamRow::Text(id),
    ]);
    assert(second.params =~= seq![ParamRow::Text(body_md), ParamRow::Text(op_post_id)]);
    assert(steps[1] == StepRow::Run(first));
    assert(steps[2] == StepRow::Run(second));
    lemma_runs_sole(receipt_write(id, viewer_sub, read, at));
}

} // verus!
