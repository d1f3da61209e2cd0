//! Reactions to posts, and blocked authors.

use vstd::prelude::*;

use crate::model::{BannedAuthor, BannedAuthorRow, ReactionCount, ReactionCountRow};
use crate::rows::{
    Record, any_row, as_count, count, count_rows, deduped, duplicate_rows, find_row, first_index,
    map_rows, opt, retain, select, some_row, sort_rows, sorted, to_count, views,
};
use crate::store::memory::{Forum, InMemoryStore};
use crate::store::types::{Failure, Reaction, ReactionRow, StoreError, listed, plain};
use crate::text::{same, str_less, text_less};
use crate::texts::distinct_names;

verus! {

// ---------------------------------------------------------------------------
// Reactions.
// ---------------------------------------------------------------------------

/// A user's reaction of a kind to a post.
pub open spec fn reaction_is(post_id: Seq<char>, user_sub: Seq<char>, kind: Seq<char>) -> spec_fn(
    ReactionRow,
) -> bool {
    |r: ReactionRow| r.post_id == post_id && r.user_sub == user_sub && r.kind == kind
}

/// The reactions to a post.
pub open spec fn reaction_to(post_id: Seq<char>) -> spec_fn(ReactionRow) -> bool {
    |r: ReactionRow| r.post_id == post_id
}

/// The reactions of a kind.
pub open spec fn reaction_of(kind: Seq<char>) -> spec_fn(ReactionRow) -> bool {
    |r: ReactionRow| r.kind == kind
}

/// The viewer's reactions of a kind.
pub open spec fn reaction_mine(kind: Seq<char>, viewer_sub: Option<Seq<char>>) -> spec_fn(
    ReactionRow,
) -> bool {
    |r: ReactionRow| r.kind == kind && viewer_sub == Some(r.user_sub)
}

/// The kind of a reaction.
pub open spec fn reaction_kind() -> spec_fn(ReactionRow) -> Seq<char> {
    |r: ReactionRow| r.kind
}

/// A user toggles a reaction: it is removed when it exists, and given otherwise.
pub open spec fn reaction_toggle(
    f: Forum,
    post_id: Seq<char>,
    user_sub: Seq<char>,
    kind: Seq<char>,
    created_at: i64,
) -> (Forum, bool) {
    match first_index(f.reactions, reaction_is(post_id, user_sub, kind)) {
        Some(i) => (Forum { reactions: f.reactions.remove(i), ..f }, false),
        None => (
            Forum {
                reactions: f.reactions.push(ReactionRow { post_id, user_sub, kind, created_at }),
                ..f
            },
            true,
        ),
    }
}

/// How often a kind of reaction was given.
pub open spec fn reaction_count(reactions: Seq<ReactionRow>, viewer_sub: Option<Seq<char>>) -> spec_fn(
    Seq<char>,
) -> ReactionCountRow {
    |kind: Seq<char>|
        ReactionCountRow {
            kind,
            count: as_count(count_rows(reactions, reaction_of(kind))),
            mine: some_row(reactions, reaction_mine(kind, viewer_sub)),
        }
}

/// The kinds of reactions to a post, in the order of their first occurrence, each with its count.
pub open spec fn reaction_counts(
    f: Forum,
    post_id: Seq<char>,
    viewer_sub: Option<Seq<char>>,
) -> Seq<ReactionCountRow> {
    let reactions = f.reactions.filter(reaction_to(post_id));
    deduped(reactions.map_values(reaction_kind())).map_values(
        reaction_count(reactions, viewer_sub),
    )
}

// ---------------------------------------------------------------------------
// Blocked authors.
// ---------------------------------------------------------------------------

/// The ban of an author.
pub open spec fn ban_of(author_sub: Seq<char>) -> spec_fn(BannedAuthorRow) -> bool {
    |b: BannedAuthorRow| b.author_sub == author_sub
}

/// The bans of the other authors.
pub open spec fn ban_not_of(author_sub: Seq<char>) -> spec_fn(BannedAuthorRow) -> bool {
    |b: BannedAuthorRow| b.author_sub != author_sub
}

/// The bans after one was added or refreshed.
pub open spec fn with_ban(banned: Seq<BannedAuthorRow>, ban: BannedAuthorRow) -> Seq<
    BannedAuthorRow,
> {
    match first_index(banned, ban_of(ban.author_sub)) {
        Some(i) => banned.update(i, ban),
        None => banned.push(ban),
    }
}

/// Whether a ban is listed before another: the newest first, then by author.
pub open spec fn ban_before(a: BannedAuthorRow, b: BannedAuthorRow) -> bool {
    if a.created_at != b.created_at {
        a.created_at > b.created_at
    } else {
        text_less(a.author_sub, b.author_sub)
    }
}

/// The order of the ban list.
pub open spec fn ban_order() -> spec_fn(BannedAuthorRow, BannedAuthorRow) -> bool {
    |a: BannedAuthorRow, b: BannedAuthorRow| !ban_before(b, a)
}

fn is_viewer(viewer_sub: Option<&str>, user_sub: &str) -> (r: bool)
    ensures
        r == (opt(viewer_sub) == Some(user_sub@)),
{
    match viewer_sub {
        Some(sub) => same(sub, user_sub),
        None => false,
    }
}

fn count_kind(reactions: &Vec<Reaction>, kind: &String, viewer_sub: Option<&str>) -> (r:
    ReactionCount)
    ensures
        r@ == reaction_count(views(reactions@), opt(viewer_sub))(kind@),
{
    let of_kind = |r: &Reaction| -> (b: bool)
        ensures
            b == reaction_of(kind@)(r@),
        { r.kind == *kind };
    let mine = |r: &Reaction| -> (b: bool)
        ensures
            b == reaction_mine(kind@, opt(viewer_sub))(r@),
        { r.kind == *kind && is_viewer(viewer_sub, r.user_sub.as_str()) };
    ReactionCount {
        kind: kind.clone(),
        count: to_count(count(reactions, of_kind, Ghost(reaction_of(kind@)))),
        mine: any_row(reactions, mine, Ghost(reaction_mine(kind@, opt(viewer_sub)))),
    }
}

impl InMemoryStore {
    /// Toggle a user's reaction of a kind to a post; the result says whether it is now given.
    pub fn toggle_reaction(&mut self, post_id: &str, user_sub: &str, kind: &str, created_at: i64) -> (r:
        Result<bool, StoreError>)
        ensures
            plain(r) == Ok::<bool, Failure>(
                reaction_toggle(old(self)@, post_id@, user_sub@, kind@, created_at).1,
            ),
            final(self)@ == reaction_toggle(
                old(self)@,
                post_id@,
                user_sub@,
                kind@,
                created_at,
            ).0,
    {
        let test = |r: &Reaction| -> (b: bool)
            ensures
                b == reaction_is(post_id@, user_sub@, kind@)(r@),
            {
                same(r.post_id.as_str(), post_id) && same(r.user_sub.as_str(), user_sub) && same(
                    r.kind.as_str(),
                    kind,
                )
            };
        let ghost before = self.reactions@;
        match find_row(&self.reactions, test, Ghost(reaction_is(post_id@, user_sub@, kind@))) {
            Some(i) => {
                let _ = self.reactions.remove(i);
                assert(views(self.reactions@) =~= views(before).remove(i as int));
                Ok(false)
            },
            None => {
                let reaction = Reaction {
                    post_id: post_id.to_owned(),
                    user_sub: user_sub.to_owned(),
                    kind: kind.to_owned(),
                    created_at,
                };
                self.reactions.push(reaction);
                assert(views(self.reactions@) =~= views(before).push(reaction@));
                Ok(true)
            },
        }
    }

    /// The kinds of reactions to a post with their counts.
    pub fn reactions_for_post(&self, post_id: &str, viewer_sub: Option<&str>) -> (r: Result<
        Vec<ReactionCount>,
        StoreError,
    >)
        ensures
            listed(r) == Ok::<Seq<ReactionCountRow>, Failure>(
                reaction_counts(self@, post_id@, opt(viewer_sub)),
            ),
    {
        let to_post = |r: &Reaction| -> (b: bool)
            ensures
                b == reaction_to(post_id@)(r@),
            { same(r.post_id.as_str(), post_id) };
        let selected = select(&self.reactions, to_post, Ghost(reaction_to(post_id@)));
        let reactions = &selected;
        let kind_of = |r: &Reaction| -> (k: String)
            ensures
                k@ == reaction_kind()(r@),
            { r.kind.clone() };
        let kinds = distinct_names(map_rows(reactions, kind_of, Ghost(reaction_kind())).as_slice());
        let f = |kind: &String| -> (c: ReactionCount)
            ensures
                c@ == reaction_count(views(reactions@), opt(viewer_sub))(kind@),
            { count_kind(reactions, kind, viewer_sub) };
        Ok(map_rows(&kinds, f, Ghost(reaction_count(views(reactions@), opt(viewer_sub)))))
    }

    /// All blocked authors, the most recently blocked first.
    pub fn list_bans(&self) -> (r: Result<Vec<BannedAuthor>, StoreError>)
        ensures
            listed(r) == Ok::<Seq<BannedAuthorRow>, Failure>(sorted(self@.banned, ban_order())),
    {
        let le = |a: &BannedAuthor, b: &BannedAuthor| -> (r: bool)
            ensures
                r == ban_order()(a@, b@),
            {
                if b.created_at != a.created_at {
                    !(b.created_at > a.created_at)
                } else {
                    !str_less(b.author_sub.as_str(), a.author_sub.as_str())
                }
            };
        Ok(sort_rows(duplicate_rows(&self.banned), le, Ghost(ban_order())))
    }

    fn find_ban(&self, author_sub: &str) -> (r: Option<usize>)
        ensures
            match r {
                Some(i) => i < self.banned@.len() && first_index(
                    self@.banned,
                    ban_of(author_sub@),
                ) == Some(i as int) && some_row(self@.banned, ban_of(author_sub@)),
                None => first_index(self@.banned, ban_of(author_sub@)) is None && !some_row(
                    self@.banned,
                    ban_of(author_sub@),
                ),
            },
    {
        let test = |b: &BannedAuthor| -> (k: bool)
            ensures
                k == ban_of(author_sub@)(b@),
            { same(b.author_sub.as_str(), author_sub) };
        find_row(&self.banned, test, Ghost(ban_of(author_sub@)))
    }

    /// Whether an author is blocked.
    pub fn is_banned(&self, author_sub: &str) -> (r: Result<bool, StoreError>)
        ensures
            plain(r) == Ok::<bool, Failure>(some_row(self@.banned, ban_of(author_sub@))),
    {
        Ok(self.find_ban(author_sub).is_some())
    }

    /// Block an author, or refresh the entry of a blocked one.
    pub fn add_ban(&mut self, ban: &BannedAuthor) -> (r: Result<(), StoreError>)
        ensures
            r is Ok,
            final(self)@ == (Forum { banned: with_ban(old(self)@.banned, ban@), ..old(self)@ }),
    {
        let ghost before = self.banned@;
        match self.find_ban(ban.author_sub.as_str()) {
            Some(i) => {
                self.banned.set(i, ban.duplicate());
                assert(views(self.banned@) =~= views(before).update(i as int, ban@));
            },
            None => {
                self.banned.push(ban.duplicate());
                assert(views(self.banned@) =~= views(before).push(ban@));
            },
        }
        Ok(())
    }

    /// Unblock an author.
    pub fn remove_ban(&mut self, author_sub: &str) -> (r: Result<(), StoreError>)
        ensures
            r is Ok,
            final(self)@ == (Forum {
                banned: old(self)@.banned.filter(ban_not_of(author_sub@)),
                ..old(self)@
            }),
    {
        let keep = |b: &BannedAuthor| -> (k: bool)
            ensures
                k == ban_not_of(author_sub@)(b@),
            { !same(b.author_sub.as_str(), author_sub) };
        retain(&mut self.banned, keep, Ghost(ban_not_of(author_sub@)));
        Ok(())
    }
}

} // verus!
