//! Laws of the writing commands against the store in memory: when the database answers what that
//! store holds, a reply or a new thread ends as in that store, and tells the same subjects.

use vstd::prelude::*;

use crate::laws::agreement::{
    alias_delivery, law_mention_agrees, law_opening_agrees, law_recipients_agree, law_reply_agrees,
    subjects_of, watcher_sub,
};
use crate::laws::commanding::{
    ends_with, lemma_thread_is_whole, told_category, told_id, told_opened,
};
use crate::laws::order::{law_ordered_set, law_text_less_irreflexive, law_text_less_total};
use crate::laws::state::consistent;
use crate::model::{ActivityDeliveryRow, ActivityReason, PostRow, ThreadRow};
use crate::relational::command::{ToldRow, texts_at};
use crate::relational::commands::opening::{clock_at, mentions_at, opening_with_activity};
use crate::relational::commands::replying::{
    ReplyProgress, reply_locks, replying, replying_with_activity,
};
use crate::relational::writing::{
    direct_recipients_of, quoted_author_of, sole_delivery, watcher_delivery,
};
use crate::rows::{collected, count_rows, deduped, first_row, lemma_deduped, limited, some_row};
use crate::store::memory::Forum;
use crate::store::posting::{
    as_list, mention_delivery, point_of, reply_addition, reply_addition_with_activity, reply_check,
    thread_creation_with_activity, watches, with_alias,
};
use crate::store::rules::{delivery_to, mention_aliases, recipients};
use crate::store::tables::{category_is, post_is, thread_is};
use crate::store::types::{ActivityMutationRow, Failure, IdentityAliasRow, MAX_THREAD_FOLLOWERS};
use crate::text::text_less;
use crate::texts::ordered_set;

verus! {

/// Ascending lists with the same members are the same.
proof fn lemma_ascending_unique(s: Seq<Seq<char>>, t: Seq<Seq<char>>)
    requires
        forall|i: int, j: int| 0 <= i < j < s.len() ==> text_less(#[trigger] s[i], #[trigger] s[j]),
        forall|i: int, j: int| 0 <= i < j < t.len() ==> text_less(#[trigger] t[i], #[trigger] t[j]),
        forall|x: Seq<char>| #[trigger] s.contains(x) <==> t.contains(x),
    ensures
        s == t,
    decreases s.len(),
{
    if s.len() == 0 {
        if t.len() > 0 {
            assert(t.contains(t[0]));
            assert(s.contains(t[0]));
        }
        assert(s =~= t);
    } else {
        assert(s.contains(s.last()));
        assert(t.contains(s.last()));
        let k = choose|k: int| 0 <= k < t.len() && t[k] == s.last();
        let m = t.len() - 1;
        assert(t.contains(t[m]));
        assert(s.contains(t[m]));
        let l = choose|l: int| 0 <= l < s.len() && s[l] == t[m];
        if k < m {
            assert(text_less(t[k], t[m]));
            if l < s.len() - 1 {
                assert(text_less(s[l], s[s.len() - 1]));
            }
            law_text_less_total(t[k], t[m]);
            law_text_less_irreflexive(t[k]);
        }
        let a = s.drop_last();
        let b = t.drop_last();
        assert forall|x: Seq<char>| #[trigger] a.contains(x) <==> b.contains(x) by {
            if a.contains(x) {
                let i = choose|i: int| 0 <= i < a.len() && a[i] == x;
                assert(s[i] == x);
                assert(s.contains(x));
                assert(t.contains(x));
                let j = choose|j: int| 0 <= j < t.len() && t[j] == x;
                if j == m {
                    assert(text_less(s[i], s[s.len() - 1]));
                    law_text_less_irreflexive(x);
                }
                assert(b[j] == x);
            }
            if b.contains(x) {
                let j = choose|j: int| 0 <= j < b.len() && b[j] == x;
                assert(t[j] == x);
                assert(t.contains(x));
                assert(s.contains(x));
                let i = choose|i: int| 0 <= i < s.len() && s[i] == x;
                if i == s.len() - 1 {
                    assert(text_less(t[j], t[m]));
                    law_text_less_irreflexive(x);
                }
                assert(a[i] == x);
            }
        }
        lemma_ascending_unique(a, b);
        assert(s =~= a.push(s.last()));
        assert(t =~= b.push(s.last()));
    }
}

/// An ascending set is settled by its members.
proof fn lemma_same_set(s: Seq<Seq<char>>, t: Seq<Seq<char>>)
    requires
        forall|x: Seq<char>| #[trigger] s.contains(x) <==> t.contains(x),
    ensures
        ordered_set(s) == ordered_set(t),
{
    law_ordered_set(s);
    law_ordered_set(t);
    assert forall|x: Seq<char>| #[trigger] ordered_set(s).contains(x) <==> ordered_set(
        t,
    ).contains(x) by {
        assert(s.contains(x) <==> t.contains(x));
    }
    lemma_ascending_unique(ordered_set(s), ordered_set(t));
}

/// What the collected rows are.
proof fn lemma_collected_members<A, B>(s: Seq<A>, g: spec_fn(A) -> Option<B>)
    ensures
        forall|x: B|
            #[trigger] collected(s, g).contains(x) <==> exists|i: int|
                0 <= i < s.len() && g(#[trigger] s[i]) == Some(x),
    decreases s.len(),
{
    if s.len() > 0 {
        let d = s.drop_last();
        lemma_collected_members(d, g);
        assert forall|x: B|
            #[trigger] collected(s, g).contains(x) <==> exists|i: int|
                0 <= i < s.len() && g(#[trigger] s[i]) == Some(x) by {
            let c = collected(s, g);
            let rest = collected(d, g);
            if c.contains(x) {
                let k = choose|k: int| 0 <= k < c.len() && c[k] == x;
                if k < rest.len() {
                    assert(rest[k] == x);
                    assert(rest.contains(x));
                    let i = choose|i: int| 0 <= i < d.len() && g(#[trigger] d[i]) == Some(x);
                    assert(g(s[i]) == Some(x));
                } else {
                    assert(g(s[s.len() - 1]) == Some(x));
                }
            }
            if exists|i: int| 0 <= i < s.len() && g(#[trigger] s[i]) == Some(x) {
                let i = choose|i: int| 0 <= i < s.len() && g(#[trigger] s[i]) == Some(x);
                if i < d.len() {
                    assert(g(d[i]) == Some(x));
                    assert(rest.contains(x));
                    let k = choose|k: int| 0 <= k < rest.len() && rest[k] == x;
                    assert(c[k] == x);
                } else {
                    assert(c[c.len() - 1] == x);
                }
            }
        }
    }
}

/// The distinct deliveries of two lists with the same members reach the same subjects.
proof fn lemma_same_subjects(s: Seq<ActivityDeliveryRow>, t: Seq<ActivityDeliveryRow>)
    requires
        forall|d: ActivityDeliveryRow| #[trigger] s.contains(d) <==> t.contains(d),
    ensures
        ordered_set(recipients(deduped(s))) == ordered_set(recipients(deduped(t))),
{
    lemma_deduped(s);
    lemma_deduped(t);
    let a = deduped(s);
    let b = deduped(t);
    assert forall|x: Seq<char>| #[trigger] recipients(a).contains(x) <==> recipients(b).contains(
        x,
    ) by {
        if recipients(a).contains(x) {
            let i = choose|i: int| 0 <= i < a.len() && recipients(a)[i] == x;
            assert(a.contains(a[i]));
            assert(s.contains(a[i]));
            assert(b.contains(a[i]));
            let j = choose|j: int| 0 <= j < b.len() && b[j] == a[i];
            assert(recipients(b)[j] == x);
        }
        if recipients(b).contains(x) {
            let j = choose|j: int| 0 <= j < b.len() && recipients(b)[j] == x;
            assert(b.contains(b[j]));
            assert(t.contains(b[j]));
            assert(a.contains(b[j]));
            let i = choose|i: int| 0 <= i < a.len() && a[i] == b[j];
            assert(recipients(a)[i] == x);
        }
    }
    lemma_same_set(recipients(a), recipients(b));
}

/// The database answers with up to two subjects of an alias.
pub open spec fn told_subjects(aliases: Seq<IdentityAliasRow>) -> spec_fn(Seq<char>) -> ToldRow {
    |alias: Seq<char>| ToldRow::Texts(limited(subjects_of(aliases, alias), 2))
}

/// The mentions that were told are the mentions that the store in memory finds.
proof fn lemma_told_mentions(
    told: Seq<ToldRow>,
    at: int,
    rows: Seq<IdentityAliasRow>,
    aliases: Seq<Seq<char>>,
    actor_sub: Seq<char>,
)
    requires
        0 <= at,
        at + aliases.len() <= told.len(),
        forall|k: int|
            0 <= k < aliases.len() ==> #[trigger] told[at + k] == told_subjects(rows)(aliases[k]),
    ensures
        mentions_at(told, at, aliases.len() as int, actor_sub) == collected(
            aliases,
            mention_delivery(rows, actor_sub),
        ),
    decreases aliases.len(),
{
    if aliases.len() > 0 {
        let d = aliases.drop_last();
        let n = aliases.len() as int;
        assert forall|k: int| 0 <= k < d.len() implies #[trigger] told[at + k] == told_subjects(
            rows,
        )(d[k]) by {
            assert(told[at + k] == told_subjects(rows)(aliases[k]));
        }
        lemma_told_mentions(told, at, rows, d, actor_sub);
        let alias = aliases.last();
        let subjects = subjects_of(rows, alias);
        assert(told[at + (n - 1)] == told_subjects(rows)(aliases[n - 1]));
        assert(texts_at(told, at + n - 1) == limited(subjects, 2));
        assert(sole_delivery(limited(subjects, 2), actor_sub) == sole_delivery(
            subjects,
            actor_sub,
        ));
        law_mention_agrees(rows, alias, actor_sub);
        assert(mention_delivery(rows, actor_sub)(alias) == sole_delivery(subjects, actor_sub));
        let rest = collected(d, mention_delivery(rows, actor_sub));
        match mention_delivery(rows, actor_sub)(alias) {
            Some(x) => {
                assert(as_list(Some(x)) =~= seq![x]);
                assert(rest + seq![x] =~= rest.push(x));
            },
            None => {
                assert(rest + as_list(None) =~= rest);
            },
        }
    }
}

// ---------------------------------------------------------------------------
// Opening.
// ---------------------------------------------------------------------------

/// What the database answers about a new thread and the aliases in it.
pub open spec fn told_opening(
    f: Forum,
    thread: ThreadRow,
    first_post: PostRow,
    aliases: Seq<Seq<char>>,
) -> Seq<ToldRow> {
    let seen = with_alias(
        f,
        first_post.author_sub,
        first_post.author_email,
        first_post.created_at,
    );
    seq![told_id(some_row(f.categories, category_is(thread.category_id)), thread.category_id)]
        + aliases.map_values(told_subjects(seen.identity_aliases)) + seq![
        ToldRow::Number(Some(f.generation)),
    ]
}

/// A thread is opened or refused as in memory, and the same subjects are told.
pub proof fn law_telling_opening_ends_alike(
    f: Forum,
    thread: ThreadRow,
    first_post: PostRow,
    mentioned: Seq<Seq<char>>,
    activity_id: Seq<char>,
)
    requires
        !some_row(f.post_points, point_of(first_post.id)),
    ensures
        ends_with(
            opening_with_activity(
                thread,
                first_post,
                mentioned,
                activity_id,
                match mention_aliases(mentioned) {
                    Ok(aliases) => told_opening(f, thread, first_post, aliases),
                    Err(_) => Seq::empty(),
                },
            ),
            thread_creation_with_activity(f, thread, first_post, mentioned, activity_id).1,
        ),
{
    if mention_aliases(mentioned) is Ok {
        let aliases = mention_aliases(mentioned)->Ok_0;
        let n = aliases.len() as int;
        let told = told_opening(f, thread, first_post, aliases);
        let seen = with_alias(
            f,
            first_post.author_sub,
            first_post.author_email,
            first_post.created_at,
        );
        law_opening_agrees(f, thread, first_post);
        assert(told.len() == n + 2);
        assert(told[0] == told_id(
            some_row(f.categories, category_is(thread.category_id)),
            thread.category_id,
        ));
        assert(told[1 + n] == ToldRow::Number(Some(f.generation)));
        assert(clock_at(told, 1 + n) == f.generation);
        assert forall|k: int| 0 <= k < n implies #[trigger] told[1 + k] == told_subjects(
            seen.identity_aliases,
        )(aliases[k]) by {}
        lemma_told_mentions(told, 1, seen.identity_aliases, aliases, first_post.author_sub);
    }
}

// ---------------------------------------------------------------------------
// Replying.
// ---------------------------------------------------------------------------

/// What the database answers until a reply is checked.
pub open spec fn told_reply_locks(f: Forum, post: PostRow) -> Seq<ToldRow> {
    let category = told_category(f, post.thread_id);
    let locks = seq![category, category, told_opened(f, post.thread_id)];
    if post.quoted_post_id.len() > 0 {
        locks.push(ToldRow::Post(first_row(f.posts, post_is(post.quoted_post_id))))
    } else {
        locks
    }
}

/// A reply is checked as in memory, whatever is answered later.
proof fn lemma_reply_locks<V>(f: Forum, post: PostRow, attempt: int, told: Seq<ToldRow>)
    requires
        consistent(f),
        told_reply_locks(f, post).is_prefix_of(told),
    ensures
        match reply_locks::<V>(post, attempt, told) {
            ReplyProgress::Say(ask) => ask is Fail && reply_check(f, post) == Err::<(), Failure>(
                ask->Fail_0,
            ),
            ReplyProgress::Ready { thread, quoted_author, at } => {
                &&& reply_check(f, post) is Ok
                &&& first_row(f.threads, thread_is(post.thread_id)) == Some(thread)
                &&& quoted_author_of(post, first_row(f.posts, post_is(post.quoted_post_id))) == Ok::<
                    Option<Seq<char>>,
                    Failure,
                >(quoted_author)
                &&& at == told_reply_locks(f, post).len()
            },
        },
{
    let locks = told_reply_locks(f, post);
    assert(forall|k: int| 0 <= k < locks.len() ==> told[k] == #[trigger] locks[k]);
    assert(locks[0] == told_category(f, post.thread_id));
    assert(locks[1] == locks[0]);
    assert(locks[2] == told_opened(f, post.thread_id));
    if first_row(f.threads, thread_is(post.thread_id)) is Some {
        law_reply_agrees(f, post);
        lemma_thread_is_whole(f, post.thread_id);
        if post.quoted_post_id.len() > 0 {
            assert(locks[3] == ToldRow::Post(first_row(f.posts, post_is(post.quoted_post_id))));
        }
    }
}

/// A reply is added or refused as in memory; only the post's place in the catch-up record is left to
/// the database to refuse.
pub proof fn law_replying_ends_alike(f: Forum, post: PostRow, attempt: int)
    requires
        consistent(f),
        !some_row(f.post_points, point_of(post.id)),
    ensures
        ends_with(
            replying(
                post,
                attempt,
                told_reply_locks(f, post).push(ToldRow::Number(Some(f.generation))),
            ),
            reply_addition(f, post).1,
        ),
{
    let locks = told_reply_locks(f, post);
    let told = locks.push(ToldRow::Number(Some(f.generation)));
    assert(locks.is_prefix_of(told));
    lemma_reply_locks::<()>(f, post, attempt, told);
    assert(clock_at(told, locks.len() as int) == f.generation);
}

/// What the database answers about a reply, its watchers, and the aliases in it.
pub open spec fn told_reply(
    f: Forum,
    post: PostRow,
    watchers: Seq<Seq<char>>,
    aliases: Seq<Seq<char>>,
) -> Seq<ToldRow> {
    let seen = with_alias(f, post.author_sub, post.author_email, post.created_at);
    told_reply_locks(f, post) + seq![ToldRow::Texts(watchers)] + aliases.map_values(
        told_subjects(seen.identity_aliases),
    ) + seq![ToldRow::Number(Some(f.generation))]
}

/// A reply is added or refused as in memory, and the same subjects are told, in whatever order the
/// database lists the watchers. It shows one watcher more than there may be at the most.
pub proof fn law_telling_reply_ends_alike(
    f: Forum,
    post: PostRow,
    mentioned: Seq<Seq<char>>,
    activity_id: Seq<char>,
    watchers: Seq<Seq<char>>,
    attempt: int,
)
    requires
        consistent(f),
        !some_row(f.post_points, point_of(post.id)),
        watchers.len() > MAX_THREAD_FOLLOWERS <==> count_rows(
            f.subscriptions,
            watches(post.thread_id),
        ) > MAX_THREAD_FOLLOWERS,
        watchers.len() <= MAX_THREAD_FOLLOWERS ==> forall|x: Seq<char>| #[trigger]
            watchers.contains(x) <==> f.subscriptions.filter(watches(post.thread_id)).map_values(
                watcher_sub(),
            ).contains(x),
    ensures
        ends_with(
            replying_with_activity(
                post,
                mentioned,
                activity_id,
                attempt,
                match mention_aliases(mentioned) {
                    Ok(aliases) => told_reply(f, post, watchers, aliases),
                    Err(_) => Seq::empty(),
                },
            ),
            reply_addition_with_activity(f, post, mentioned, activity_id).1,
        ),
{
    if mention_aliases(mentioned) is Ok {
        let aliases = mention_aliases(mentioned)->Ok_0;
        let n = aliases.len() as int;
        let locks = told_reply_locks(f, post);
        let at = locks.len() as int;
        let told = told_reply(f, post, watchers, aliases);
        let seen = with_alias(f, post.author_sub, post.author_email, post.created_at);
        assert(locks.is_prefix_of(told));
        lemma_reply_locks::<ActivityMutationRow>(f, post, attempt, told);
        assert(told.len() == at + n + 2);
        assert(told[at] == ToldRow::Texts(watchers));
        assert(texts_at(told, at) == watchers);
        assert(told[at + 1 + n] == ToldRow::Number(Some(f.generation)));
        assert(clock_at(told, at + 1 + n) == f.generation);
        assert forall|k: int| 0 <= k < n implies #[trigger] told[at + 1 + k] == told_subjects(
            seen.identity_aliases,
        )(aliases[k]) by {}
        lemma_told_mentions(told, at + 1, seen.identity_aliases, aliases, post.author_sub);
        if reply_check(f, post) is Ok && watchers.len() <= MAX_THREAD_FOLLOWERS {
            let thread = first_row(f.threads, thread_is(post.thread_id))->0;
            let quoted = quoted_author_of(
                post,
                first_row(f.posts, post_is(post.quoted_post_id)),
            )->Ok_0;
            let held = f.subscriptions.filter(watches(post.thread_id)).map_values(watcher_sub());
            law_recipients_agree(f, thread, post, aliases);
            let mentions = collected(
                aliases,
                mention_delivery(seen.identity_aliases, post.author_sub),
            );
            assert(alias_delivery(seen.identity_aliases, post.author_sub) =~= mention_delivery(
                seen.identity_aliases,
                post.author_sub,
            )) by {
                assert forall|alias: Seq<char>| #[trigger]
                    alias_delivery(seen.identity_aliases, post.author_sub)(alias)
                        == mention_delivery(seen.identity_aliases, post.author_sub)(alias) by {
                    law_mention_agrees(seen.identity_aliases, alias, post.author_sub);
                }
            }
            let s = direct_recipients_of(thread, post, quoted, watchers)->Ok_0 + mentions;
            let t = direct_recipients_of(thread, post, quoted, held)->Ok_0 + mentions;
            lemma_watcher_order(thread, post, quoted, watchers, held, mentions);
            lemma_same_subjects(s, t);
        }
    }
}

/// The order of the watchers does not change who is told.
proof fn lemma_watcher_order(
    thread: ThreadRow,
    post: PostRow,
    quoted: Option<Seq<char>>,
    a: Seq<Seq<char>>,
    b: Seq<Seq<char>>,
    mentions: Seq<ActivityDeliveryRow>,
)
    requires
        a.len() <= MAX_THREAD_FOLLOWERS,
        b.len() <= MAX_THREAD_FOLLOWERS,
        forall|x: Seq<char>| #[trigger] a.contains(x) <==> b.contains(x),
    ensures
        forall|d: ActivityDeliveryRow|
            #[trigger] (direct_recipients_of(thread, post, quoted, a)->Ok_0 + mentions).contains(d)
                <==> (direct_recipients_of(thread, post, quoted, b)->Ok_0 + mentions).contains(d),
{
    let g = watcher_delivery(post);
    lemma_collected_members(a, g);
    lemma_collected_members(b, g);
    assert forall|d: ActivityDeliveryRow| collected(a, g).contains(d) <==> collected(
        b,
        g,
    ).contains(d) by {
        if collected(a, g).contains(d) {
            let i = choose|i: int| 0 <= i < a.len() && g(#[trigger] a[i]) == Some(d);
            assert(a.contains(a[i]));
            assert(b.contains(a[i]));
            let j = choose|j: int| 0 <= j < b.len() && b[j] == a[i];
            assert(g(b[j]) == Some(d));
        }
        if collected(b, g).contains(d) {
            let j = choose|j: int| 0 <= j < b.len() && g(#[trigger] b[j]) == Some(d);
            assert(b.contains(b[j]));
            assert(a.contains(b[j]));
            let i = choose|i: int| 0 <= i < a.len() && a[i] == b[j];
            assert(g(a[i]) == Some(d));
        }
    }
    let head = as_list(delivery_to(thread.author_sub, post.author_sub, ActivityReason::Reply))
        + as_list(
        match quoted {
            Some(author) => delivery_to(author, post.author_sub, ActivityReason::Reply),
            None => None,
        },
    );
    assert forall|d: ActivityDeliveryRow|
        #[trigger] (direct_recipients_of(thread, post, quoted, a)->Ok_0 + mentions).contains(d)
            <==> (direct_recipients_of(thread, post, quoted, b)->Ok_0 + mentions).contains(d) by {
        lemma_parts(head, collected(a, g), mentions, d);
        lemma_parts(head, collected(b, g), mentions, d);
        assert(collected(a, g).contains(d) <==> collected(b, g).contains(d));
    }
}

/// A joined list holds what its parts hold.
proof fn lemma_parts<A>(a: Seq<A>, b: Seq<A>, c: Seq<A>, x: A)
    ensures
        (a + b + c).contains(x) <==> a.contains(x) || b.contains(x) || c.contains(x),
{
    let s = a + b + c;
    if s.contains(x) {
        let k = choose|k: int| 0 <= k < s.len() && s[k] == x;
        if k < a.len() {
            assert(a[k] == x);
        } else if k < a.len() + b.len() {
            assert(b[k - a.len()] == x);
        } else {
            assert(c[k - a.len() - b.len()] == x);
        }
    }
    if a.contains(x) {
        let k = choose|k: int| 0 <= k < a.len() && a[k] == x;
        assert(s[k] == x);
    }
    if b.contains(x) {
        let k = choose|k: int| 0 <= k < b.len() && b[k] == x;
        assert(s[a.len() + k] == x);
    }
    if c.contains(x) {
        let k = choose|k: int| 0 <= k < c.len() && c[k] == x;
        assert(s[a.len() + b.len() + k] == x);
    }
}

} // verus!
