//! What reactions and bans promise.

use vstd::prelude::*;

use crate::laws::state::{consistent, reaction_key};
use crate::laws::tables::{
    lemma_count_bound, lemma_count_push, lemma_count_remove, lemma_some_filter,
    lemma_some_filter_keeps, lemma_some_push,
};
use crate::model::BannedAuthorRow;
use crate::rows::{
    count_rows, deduped, first_index, lemma_deduped, lemma_first_index, lemma_first_index_unique,
    lemma_push_contains, some_row,
};
use crate::store::memory::Forum;
use crate::store::reactions::{
    ban_not_of, ban_of, reaction_counts, reaction_is, reaction_kind, reaction_of, reaction_to,
    reaction_toggle, with_ban,
};
use crate::store::types::ReactionRow;

verus! {

/// A toggle reports and stores the opposite of what was there, and leaves every other reaction.
pub proof fn law_toggle_flips(
    f: Forum,
    post_id: Seq<char>,
    user_sub: Seq<char>,
    kind: Seq<char>,
    created_at: i64,
)
    requires
        consistent(f),
    ensures
        ({
            let (g, given) = reaction_toggle(f, post_id, user_sub, kind, created_at);
            &&& given != some_row(f.reactions, reaction_is(post_id, user_sub, kind))
            &&& some_row(g.reactions, reaction_is(post_id, user_sub, kind)) == given
            &&& forall|r: ReactionRow|
                !reaction_is(post_id, user_sub, kind)(r) ==> (#[trigger] g.reactions.contains(r)
                    <==> f.reactions.contains(r))
        }),
{
    let which = reaction_is(post_id, user_sub, kind);
    let (g, given) = reaction_toggle(f, post_id, user_sub, kind, created_at);
    let s = f.reactions;
    let r = g.reactions;
    lemma_first_index(s, which);
    match first_index(s, which) {
        Some(i) => {
            assert forall|k: int| 0 <= k < r.len() implies !which(#[trigger] r[k]) by {
                let from = if k < i {
                    k
                } else {
                    k + 1
                };
                assert(r[k] == s[from]);
                assert(reaction_key()(s[from]) != reaction_key()(s[i]));
            }
            assert forall|x: ReactionRow| !which(x) implies (#[trigger] r.contains(x)
                <==> s.contains(x)) by {
                if r.contains(x) {
                    let k = choose|k: int| 0 <= k < r.len() && r[k] == x;
                    let from = if k < i {
                        k
                    } else {
                        k + 1
                    };
                    assert(s[from] == x);
                }
                if s.contains(x) {
                    let k = choose|k: int| 0 <= k < s.len() && s[k] == x;
                    let to = if k < i {
                        k
                    } else {
                        k - 1
                    };
                    assert(r[to] == x);
                }
            }
        },
        None => {
            let x = ReactionRow { post_id, user_sub, kind, created_at };
            lemma_some_push(s, x, which);
            assert forall|y: ReactionRow| !which(y) implies (#[trigger] r.contains(y)
                <==> s.contains(y)) by {
                lemma_push_contains(s, x, y);
            }
        },
    }
}

/// A reaction that was given and taken back leaves no trace, and one that was taken back and given
/// again counts as before.
pub proof fn law_toggling_twice(
    f: Forum,
    post_id: Seq<char>,
    user_sub: Seq<char>,
    kind: Seq<char>,
    created_at: i64,
    later: i64,
)
    requires
        consistent(f),
    ensures
        ({
            let (g, first) = reaction_toggle(f, post_id, user_sub, kind, created_at);
            let (h, second) = reaction_toggle(g, post_id, user_sub, kind, later);
            &&& first != second
            &&& first ==> h == f
            &&& forall|p: spec_fn(ReactionRow) -> bool|
                (forall|a: ReactionRow, b: ReactionRow|
                    reaction_key()(a) == reaction_key()(b) ==> #[trigger] p(a) == #[trigger] p(b))
                    ==> #[trigger] count_rows(h.reactions, p) == count_rows(f.reactions, p)
        }),
{
    let which = reaction_is(post_id, user_sub, kind);
    let (g, first) = reaction_toggle(f, post_id, user_sub, kind, created_at);
    let (h, second) = reaction_toggle(g, post_id, user_sub, kind, later);
    law_toggle_flips(f, post_id, user_sub, kind, created_at);
    lemma_first_index(f.reactions, which);
    lemma_first_index(g.reactions, which);
    match first_index(f.reactions, which) {
        Some(i) => {
            let gone = f.reactions[i];
            let back = ReactionRow { post_id, user_sub, kind, created_at: later };
            assert forall|p: spec_fn(ReactionRow) -> bool|
                (forall|a: ReactionRow, b: ReactionRow|
                    reaction_key()(a) == reaction_key()(b) ==> #[trigger] p(a) == #[trigger] p(
                        b,
                    )) implies #[trigger] count_rows(h.reactions, p) == count_rows(
                f.reactions,
                p,
            ) by {
                lemma_count_remove(f.reactions, i, p);
                lemma_count_push(g.reactions, back, p);
                assert(reaction_key()(gone) == reaction_key()(back));
                assert(p(gone) == p(back));
            }
        },
        None => {
            let n = f.reactions.len() as int;
            assert forall|j: int| 0 <= j < n implies !which(#[trigger] g.reactions[j]) by {
                assert(!which(f.reactions[j]));
            }
            lemma_first_index_unique(g.reactions, which, n);
            assert(h.reactions =~= f.reactions);
            assert(h =~= f);
        },
    }
}

/// Every kind of reaction to a post is counted once, and only when it was given.
pub proof fn law_counts_are_positive(f: Forum, post_id: Seq<char>, viewer_sub: Option<Seq<char>>)
    requires
        f.reactions.len() <= i64::MAX,
    ensures
        ({
            let c = reaction_counts(f, post_id, viewer_sub);
            &&& forall|i: int| 0 <= i < c.len() ==> (#[trigger] c[i]).count > 0
            &&& forall|i: int, j: int|
                0 <= i < c.len() && 0 <= j < c.len() && i != j ==> (#[trigger] c[i]).kind != (
                #[trigger] c[j]).kind
        }),
{
    let reactions = f.reactions.filter(reaction_to(post_id));
    let kinds = reactions.map_values(reaction_kind());
    let unique = deduped(kinds);
    let c = reaction_counts(f, post_id, viewer_sub);
    lemma_deduped(kinds);
    lemma_count_bound(f.reactions, reaction_to(post_id));
    assert forall|i: int| 0 <= i < c.len() implies (#[trigger] c[i]).count > 0 by {
        let kind = unique[i];
        assert(unique.contains(kind));
        assert(kinds.contains(kind));
        let k = choose|k: int| 0 <= k < kinds.len() && kinds[k] == kind;
        assert(reaction_of(kind)(reactions[k]));
        lemma_count_bound(reactions, reaction_of(kind));
    }
    assert forall|i: int, j: int|
        0 <= i < c.len() && 0 <= j < c.len() && i != j implies (#[trigger] c[i]).kind != (
    #[trigger] c[j]).kind by {
        assert(unique[i] != unique[j]);
    }
}

/// A ban is read back, adding it again changes nothing, and lifting it lifts that ban alone.
pub proof fn law_bans_read_back(banned: Seq<BannedAuthorRow>, ban: BannedAuthorRow, other: Seq<char>)
    ensures
        some_row(with_ban(banned, ban), ban_of(ban.author_sub)),
        with_ban(with_ban(banned, ban), ban) == with_ban(banned, ban),
        other != ban.author_sub ==> (some_row(with_ban(banned, ban), ban_of(other)) <==> some_row(
            banned,
            ban_of(other),
        )),
        !some_row(banned.filter(ban_not_of(other)), ban_of(other)),
        other != ban.author_sub ==> (some_row(
            banned.filter(ban_not_of(other)),
            ban_of(ban.author_sub),
        ) <==> some_row(banned, ban_of(ban.author_sub))),
{
    let which = ban_of(ban.author_sub);
    let r = with_ban(banned, ban);
    lemma_first_index(banned, which);
    match first_index(banned, which) {
        Some(i) => {
            assert(which(r[i]));
            assert forall|j: int| 0 <= j < i implies !which(#[trigger] r[j]) by {
                assert(!which(banned[j]));
            }
            lemma_first_index_unique(r, which, i);
            assert(with_ban(r, ban) =~= r);
            if other != ban.author_sub {
                if some_row(banned, ban_of(other)) {
                    let k = choose|k: int|
                        0 <= k < banned.len() && ban_of(other)(#[trigger] banned[k]);
                    assert(ban_of(other)(r[k]));
                }
                if some_row(r, ban_of(other)) {
                    let k = choose|k: int| 0 <= k < r.len() && ban_of(other)(#[trigger] r[k]);
                    assert(ban_of(other)(banned[k]));
                }
            }
        },
        None => {
            let n = banned.len() as int;
            assert(which(r[n]));
            assert forall|j: int| 0 <= j < n implies !which(#[trigger] r[j]) by {
                assert(!which(banned[j]));
            }
            lemma_first_index_unique(r, which, n);
            assert(with_ban(r, ban) =~= r);
            lemma_some_push(banned, ban, ban_of(other));
        },
    }
    lemma_some_filter(banned, ban_not_of(other), ban_of(other));
    lemma_some_filter(banned, ban_not_of(other), which);
    if other != ban.author_sub && some_row(banned, which) {
        lemma_some_filter_keeps(banned, ban_not_of(other), which);
    }
}

} // verus!
