//! Categories: listing, administration, and format transitions.

use vstd::prelude::*;

use crate::model::{Category, CategoryFormat, CategoryRow, Thread, ThreadRow};
use crate::rows::{
    Record, any_row, as_count, count, count_rows, duplicate_rows, first_row, retain, some_row,
    sort_rows, sorted, to_count, update_first, views,
};
use crate::store::memory::{Forum, InMemoryStore};
use crate::store::tables::{
    category_is, find_category, thread_in, valid_accepted, valid_accepted_post,
};
use crate::store::types::{
    CategoryFocusRule, CategoryFocusRuleRow, Failure, StoreError, invalid, listed, maybe,
    not_found, plain,
};
use crate::text::{same, str_less, text_less};

verus! {

// ---------------------------------------------------------------------------
// What the commands and queries mean.
// ---------------------------------------------------------------------------

/// Whether a category is listed before another.
pub open spec fn category_before(a: CategoryRow, b: CategoryRow) -> bool {
    if a.sort_order != b.sort_order {
        a.sort_order < b.sort_order
    } else {
        text_less(a.name, b.name)
    }
}

/// The order of the category list: by sort order, then by name.
pub open spec fn category_order() -> spec_fn(CategoryRow, CategoryRow) -> bool {
    |a: CategoryRow, b: CategoryRow| !category_before(b, a)
}

/// The categories with another identifier.
pub open spec fn category_is_not(id: Seq<char>) -> spec_fn(CategoryRow) -> bool {
    |c: CategoryRow| c.id != id
}

/// The focus rules of the other categories.
pub open spec fn rule_not_for(id: Seq<char>) -> spec_fn(CategoryFocusRuleRow) -> bool {
    |r: CategoryFocusRuleRow| r.category_id != id
}

/// A category under another name.
pub open spec fn renamed(name: Seq<char>) -> spec_fn(CategoryRow) -> CategoryRow {
    |c: CategoryRow| CategoryRow { name, ..c }
}

/// A category with another format.
pub open spec fn reformatted(format: CategoryFormat) -> spec_fn(CategoryRow) -> CategoryRow {
    |c: CategoryRow| CategoryRow { format, ..c }
}

/// A category with another sort order.
pub open spec fn reordered(sort_order: i64) -> spec_fn(CategoryRow) -> CategoryRow {
    |c: CategoryRow| CategoryRow { sort_order, ..c }
}

/// The forum after an attempt to seed its categories: only an empty table is filled.
pub open spec fn seeded(f: Forum, defaults: Seq<CategoryRow>) -> Forum {
    if f.categories.len() == 0 {
        Forum { categories: defaults, ..f }
    } else {
        f
    }
}

/// The forum after an attempt to create a category: a taken identifier stays with its category.
pub open spec fn category_creation(f: Forum, category: CategoryRow) -> Forum {
    if some_row(f.categories, category_is(category.id)) {
        f
    } else {
        Forum { categories: f.categories.push(category), ..f }
    }
}

/// The threads of a category that have a valid accepted reply.
pub open spec fn answered_in(f: Forum, category_id: Seq<char>) -> spec_fn(ThreadRow) -> bool {
    |t: ThreadRow|
        t.category_id == category_id && valid_accepted(t, f.original_posts, f.posts) is Some
}

/// A category changes its format. It cannot become a discussion while one of its threads has a
/// valid accepted reply.
pub open spec fn category_transition(f: Forum, id: Seq<char>, format: CategoryFormat) -> (
    Forum,
    Result<(), Failure>,
) {
    match first_row(f.categories, category_is(id)) {
        None => (f, Err(Failure::NotFound("category not found"@))),
        Some(c) => if c.format == format {
            (f, Ok(()))
        } else if format is Discussion && some_row(f.threads, answered_in(f, id)) {
            (
                f,
                Err(
                    Failure::InvalidOperation(
                        "unmark accepted answers before changing this category to discussion"@,
                    ),
                ),
            )
        } else {
            (
                Forum {
                    categories: update_first(f.categories, category_is(id), reformatted(format)),
                    ..f
                },
                Ok(()),
            )
        },
    }
}

/// A category without threads is removed together with the focus rules for it.
pub open spec fn category_deletion(f: Forum, id: Seq<char>) -> (Forum, Result<(), Failure>) {
    if some_row(f.threads, thread_in(id)) {
        (
            f,
            Err(
                Failure::InvalidOperation("category still has threads — move or delete them first"@),
            ),
        )
    } else {
        (
            Forum {
                categories: f.categories.filter(category_is_not(id)),
                category_focus_rules: f.category_focus_rules.filter(rule_not_for(id)),
                ..f
            },
            Ok(()),
        )
    }
}

impl InMemoryStore {
    /// Insert the default categories when there is no category yet.
    pub fn seed_categories_if_empty(&mut self, defaults: &[Category]) -> (r: Result<(), StoreError>)
        ensures
            r is Ok,
            final(self)@ == seeded(old(self)@, views(defaults@)),
    {
        if self.categories.is_empty() {
            let mut i: usize = 0;
            let ghost before = self@;
            while i < defaults.len()
                invariant
                    0 <= i <= defaults@.len(),
                    before.categories.len() == 0,
                    self@ == (Forum { categories: views(defaults@).take(i as int), ..before }),
                decreases defaults@.len() - i,
            {
                let ghost step = self.categories@;
                self.categories.push(defaults[i].duplicate());
                assert(self@.categories =~= views(step).push(defaults@[i as int]@));
                assert(views(defaults@).take(i + 1) =~= views(defaults@).take(i as int).push(
                    defaults@[i as int]@,
                ));
                i = i + 1;
            }
            assert(views(defaults@).take(i as int) =~= views(defaults@));
        }
        Ok(())
    }

    /// All categories, by sort order and then by name.
    pub fn list_categories(&self) -> (r: Result<Vec<Category>, StoreError>)
        ensures
            listed(r) == Ok::<Seq<CategoryRow>, Failure>(sorted(self@.categories, category_order())),
    {
        let le = |a: &Category, b: &Category| -> (r: bool)
            ensures
                r == category_order()(a@, b@),
            {
                if b.sort_order != a.sort_order {
                    !(b.sort_order < a.sort_order)
                } else {
                    !str_less(b.name.as_str(), a.name.as_str())
                }
            };
        Ok(sort_rows(duplicate_rows(&self.categories), le, Ghost(category_order())))
    }

    /// The category with the identifier.
    pub fn get_category(&self, id: &str) -> (r: Result<Option<Category>, StoreError>)
        ensures
            maybe(r) == Ok::<Option<CategoryRow>, Failure>(
                first_row(self@.categories, category_is(id@)),
            ),
    {
        match find_category(&self.categories, id) {
            Some(i) => Ok(Some(self.categories[i].duplicate())),
            None => Ok(None),
        }
    }

    /// How many threads a category has.
    pub fn count_threads(&self, category_id: &str) -> (r: Result<i64, StoreError>)
        ensures
            plain(r) == Ok::<i64, Failure>(
                as_count(count_rows(self@.threads, thread_in(category_id@))),
            ),
    {
        let test = |t: &Thread| -> (b: bool)
            ensures
                b == thread_in(category_id@)(t@),
            { same(t.category_id.as_str(), category_id) };
        Ok(to_count(count(&self.threads, test, Ghost(thread_in(category_id@)))))
    }

    /// Insert a category; nothing happens when its identifier is taken.
    pub fn create_category(&mut self, category: &Category) -> (r: Result<(), StoreError>)
        ensures
            r is Ok,
            final(self)@ == category_creation(old(self)@, category@),
    {
        if find_category(&self.categories, category.id.as_str()).is_none() {
            let ghost before = self.categories@;
            self.categories.push(category.duplicate());
            assert(views(self.categories@) =~= views(before).push(category@));
        }
        Ok(())
    }

    /// Rename a category, if it exists.
    pub fn rename_category(&mut self, id: &str, name: &str) -> (r: Result<(), StoreError>)
        ensures
            r is Ok,
            final(self)@ == (Forum {
                categories: update_first(
                    old(self)@.categories,
                    category_is(id@),
                    renamed(name@),
                ),
                ..old(self)@
            }),
    {
        if let Some(i) = find_category(&self.categories, id) {
            let ghost before = self.categories@;
            let mut c = self.categories[i].duplicate();
            c.name = name.to_owned();
            self.categories.set(i, c);
            assert(views(self.categories@) =~= views(before).update(i as int, c@));
        }
        Ok(())
    }

    /// Change the format of a category.
    pub fn transition_category_format(&mut self, id: &str, format: CategoryFormat) -> (r: Result<
        (),
        StoreError,
    >)
        ensures
            (final(self)@, plain(r)) == category_transition(old(self)@, id@, format),
    {
        match find_category(&self.categories, id) {
            None => Err(not_found("category not found")),
            Some(i) => {
                if self.categories[i].format == format {
                    return Ok(());
                }
                if format == CategoryFormat::Discussion {
                    let originals = &self.original_posts;
                    let posts = &self.posts;
                    let test = |t: &Thread| -> (b: bool)
                        ensures
                            b == (t@.category_id == id@ && valid_accepted(
                                t@,
                                views(originals@),
                                views(posts@),
                            ) is Some),
                        {
                            same(t.category_id.as_str(), id) && valid_accepted_post(
                                t,
                                originals,
                                posts,
                            ).is_some()
                        };
                    if any_row(&self.threads, test, Ghost(answered_in(self@, id@))) {
                        return Err(
                            invalid(
                                "unmark accepted answers before changing this category to discussion",
                            ),
                        );
                    }
                }
                let ghost before = self.categories@;
                let mut c = self.categories[i].duplicate();
                c.format = format;
                self.categories.set(i, c);
                assert(views(self.categories@) =~= views(before).update(i as int, c@));
                Ok(())
            },
        }
    }

    /// Set the sort order of a category, if it exists.
    pub fn set_category_order(&mut self, id: &str, sort_order: i64) -> (r: Result<(), StoreError>)
        ensures
            r is Ok,
            final(self)@ == (Forum {
                categories: update_first(
                    old(self)@.categories,
                    category_is(id@),
                    reordered(sort_order),
                ),
                ..old(self)@
            }),
    {
        if let Some(i) = find_category(&self.categories, id) {
            let ghost before = self.categories@;
            let mut c = self.categories[i].duplicate();
            c.sort_order = sort_order;
            self.categories.set(i, c);
            assert(views(self.categories@) =~= views(before).update(i as int, c@));
        }
        Ok(())
    }

    /// Remove a category that has no threads.
    pub fn delete_category(&mut self, id: &str) -> (r: Result<(), StoreError>)
        ensures
            (final(self)@, plain(r)) == category_deletion(old(self)@, id@),
    {
        let in_category = |t: &Thread| -> (b: bool)
            ensures
                b == thread_in(id@)(t@),
            { same(t.category_id.as_str(), id) };
        if any_row(&self.threads, in_category, Ghost(thread_in(id@))) {
            return Err(invalid("category still has threads — move or delete them first"));
        }
        let keep = |c: &Category| -> (b: bool)
            ensures
                b == category_is_not(id@)(c@),
            { !same(c.id.as_str(), id) };
        retain(&mut self.categories, keep, Ghost(category_is_not(id@)));
        let keep_rule = |r: &CategoryFocusRule| -> (b: bool)
            ensures
                b == rule_not_for(id@)(r@),
            { !same(r.category_id.as_str(), id) };
        retain(&mut self.category_focus_rules, keep_rule, Ghost(rule_not_for(id@)));
        Ok(())
    }
}

} // verus!
