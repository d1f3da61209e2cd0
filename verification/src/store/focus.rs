//! Category focus: private category rules and the threads they surface.

use vstd::prelude::*;

use crate::model::{CategoryFocusLevel, Thread, ThreadRow};
use crate::rows::{
    Record, collect_rows, collected, count, count_rows, find_row, first_index, first_row,
    get_last_row, last_row, limit_rows, limited, opt, some_row, sort_rows, sorted, views,
};
use crate::store::follow::level_of;
use crate::store::memory::{Forum, InMemoryStore};
use crate::store::rules::{
    category_focus_reason, focus_page_check, focus_why, validate_category_focus_page,
};
use crate::store::tables::{
    category_is, displayed_before, find_category, has_valid_question_solution, is_displayed_before,
    is_solved, public_row, public_thread,
};
use crate::store::types::{
    CategoryFocusItem, CategoryFocusItemRow, CategoryFocusRule, CategoryFocusRuleItem,
    CategoryFocusRuleItemRow, CategoryFocusRuleRow, Failure, MAX_CATEGORY_FOCUS_RULES, StoreError,
    invalid, listed, not_found, plain,
};
use crate::text::{blank_text, is_blank, same, str_less, text_less};

verus! {

/// The rule of a viewer for a category.
pub open spec fn rule_of(viewer_sub: Seq<char>, category_id: Seq<char>) -> spec_fn(
    CategoryFocusRuleRow,
) -> bool {
    |r: CategoryFocusRuleRow| r.viewer_sub == viewer_sub && r.category_id == category_id
}

/// The rules of a viewer.
pub open spec fn rule_by(viewer_sub: Seq<char>) -> spec_fn(CategoryFocusRuleRow) -> bool {
    |r: CategoryFocusRuleRow| r.viewer_sub == viewer_sub
}

/// The current rule of a viewer for a category.
pub open spec fn focus_level_of(
    rules: Seq<CategoryFocusRuleRow>,
    viewer_sub: Seq<char>,
    category_id: Seq<char>,
) -> CategoryFocusLevel {
    match first_row(rules, rule_of(viewer_sub, category_id)) {
        Some(r) => r.level,
        None => CategoryFocusLevel::Unset,
    }
}

/// A rule of the viewer with its live category.
pub open spec fn rule_item(f: Forum, viewer_sub: Seq<char>) -> spec_fn(CategoryFocusRuleRow) -> Option<
    CategoryFocusRuleItemRow,
> {
    |r: CategoryFocusRuleRow|
        if r.viewer_sub == viewer_sub {
            match first_row(f.categories, category_is(r.category_id)) {
                Some(category) => Some(CategoryFocusRuleItemRow { category, level: r.level }),
                None => None,
            }
        } else {
            None
        }
}

/// Whether a rule is listed before another: by the category's sort order, then its identifier.
pub open spec fn rule_item_before(
    a: CategoryFocusRuleItemRow,
    b: CategoryFocusRuleItemRow,
) -> bool {
    if a.category.sort_order != b.category.sort_order {
        a.category.sort_order < b.category.sort_order
    } else {
        text_less(a.category.id, b.category.id)
    }
}

/// The order of the rule list.
pub open spec fn rule_item_order() -> spec_fn(
    CategoryFocusRuleItemRow,
    CategoryFocusRuleItemRow,
) -> bool {
    |a: CategoryFocusRuleItemRow, b: CategoryFocusRuleItemRow| !rule_item_before(b, a)
}

/// The rules of a viewer.
pub open spec fn rule_items(f: Forum, viewer_sub: Seq<char>) -> Seq<CategoryFocusRuleItemRow> {
    if blank_text(viewer_sub) {
        Seq::empty()
    } else {
        sorted(collected(f.category_focus_rules, rule_item(f, viewer_sub)), rule_item_order())
    }
}

/// A viewer sets, replaces, or removes their rule for a category.
pub open spec fn focus_change(
    f: Forum,
    viewer_sub: Seq<char>,
    category_id: Seq<char>,
    level: CategoryFocusLevel,
    changed_at: i64,
) -> (Forum, Result<(), Failure>) {
    let rules = f.category_focus_rules;
    if blank_text(viewer_sub) || changed_at < 0 {
        (f, Err(Failure::InvalidOperation("invalid category focus rule"@)))
    } else if !some_row(f.categories, category_is(category_id)) {
        (f, Err(Failure::NotFound("category not found"@)))
    } else {
        match first_index(rules, rule_of(viewer_sub, category_id)) {
            Some(i) => if level is Unset {
                (Forum { category_focus_rules: rules.remove(i), ..f }, Ok(()))
            } else if rules[i].level == level {
                (f, Ok(()))
            } else {
                (
                    Forum {
                        category_focus_rules: rules.update(
                            i,
                            CategoryFocusRuleRow { level, updated_at: changed_at, ..rules[i] },
                        ),
                        ..f
                    },
                    Ok(()),
                )
            },
            None => if level is Unset {
                (f, Ok(()))
            } else if count_rows(rules, rule_by(viewer_sub)) >= MAX_CATEGORY_FOCUS_RULES {
                (
                    f,
                    Err(
                        Failure::InvalidOperation(
                            "a user may keep at most 64 category focus rules"@,
                        ),
                    ),
                )
            } else {
                (
                    Forum {
                        category_focus_rules: rules.push(
                            CategoryFocusRuleRow {
                                viewer_sub,
                                category_id,
                                level,
                                created_at: changed_at,
                                updated_at: changed_at,
                            },
                        ),
                        ..f
                    },
                    Ok(()),
                )
            },
        }
    }
}

/// A thread as the viewer's focus surfaces it.
pub open spec fn focus_item(f: Forum, viewer_sub: Seq<char>, as_of: i64) -> spec_fn(
    ThreadRow,
) -> Option<CategoryFocusItemRow> {
    |t: ThreadRow|
        match (
            last_row(f.category_focus_rules, rule_of(viewer_sub, t.category_id)),
            first_row(f.categories, category_is(t.category_id)),
        ) {
            (Some(rule), Some(category)) => {
                let thread_level = level_of(f.subscriptions, t.id, viewer_sub);
                match focus_why(rule.level, thread_level) {
                    Some(reason) => if t.created_at <= as_of {
                        Some(
                            CategoryFocusItemRow {
                                thread: public_row(
                                    t,
                                    is_solved(t, category.format, f.original_posts, f.posts),
                                ),
                                category,
                                category_level: rule.level,
                                thread_level,
                                reason,
                            },
                        )
                    } else {
                        None
                    },
                    None => None,
                }
            },
            _ => None,
        }
}

/// Whether a focused thread is shown before another: by its reason's group, then in display order.
pub open spec fn focus_before(a: CategoryFocusItemRow, b: CategoryFocusItemRow) -> bool {
    if a.reason.bucket() != b.reason.bucket() {
        a.reason.bucket() < b.reason.bucket()
    } else {
        displayed_before(a.thread, b.thread)
    }
}

/// The order of the focus page.
pub open spec fn focus_order() -> spec_fn(CategoryFocusItemRow, CategoryFocusItemRow) -> bool {
    |a: CategoryFocusItemRow, b: CategoryFocusItemRow| !focus_before(b, a)
}

/// The focus page of a viewer.
pub open spec fn focus_page(f: Forum, viewer_sub: Seq<char>, limit: int, as_of: i64) -> Result<
    Seq<CategoryFocusItemRow>,
    Failure,
> {
    match focus_page_check(limit, as_of as int) {
        Err(e) => Err(e),
        Ok(_) => if blank_text(viewer_sub) {
            Ok(Seq::empty())
        } else {
            Ok(
                limited(
                    sorted(collected(f.threads, focus_item(f, viewer_sub, as_of)), focus_order()),
                    limit,
                ),
            )
        },
    }
}

impl InMemoryStore {
    fn find_rule(&self, viewer_sub: &str, category_id: &str) -> (r: Option<usize>)
        ensures
            match r {
                Some(i) => i < self.category_focus_rules@.len() && first_index(
                    self@.category_focus_rules,
                    rule_of(viewer_sub@, category_id@),
                ) == Some(i as int),
                None => first_index(
                    self@.category_focus_rules,
                    rule_of(viewer_sub@, category_id@),
                ) is None,
            },
    {
        let test = |r: &CategoryFocusRule| -> (b: bool)
            ensures
                b == rule_of(viewer_sub@, category_id@)(r@),
            {
                same(r.viewer_sub.as_str(), viewer_sub) && same(r.category_id.as_str(), category_id)
            };
        find_row(&self.category_focus_rules, test, Ghost(rule_of(viewer_sub@, category_id@)))
    }

    /// A viewer's current rule for a category.
    pub fn category_focus_level(&self, viewer_sub: &str, category_id: &str) -> (r: Result<
        CategoryFocusLevel,
        StoreError,
    >)
        ensures
            plain(r) == Ok::<CategoryFocusLevel, Failure>(
                focus_level_of(self@.category_focus_rules, viewer_sub@, category_id@),
            ),
    {
        match self.find_rule(viewer_sub, category_id) {
            Some(i) => Ok(self.category_focus_rules[i].level),
            None => Ok(CategoryFocusLevel::Unset),
        }
    }

    fn rule_item_for(&self, viewer_sub: &str, r: &CategoryFocusRule) -> (item: Option<
        CategoryFocusRuleItem,
    >)
        ensures
            opt(item) == rule_item(self@, viewer_sub@)(r@),
    {
        if !same(r.viewer_sub.as_str(), viewer_sub) {
            return None;
        }
        match find_category(&self.categories, r.category_id.as_str()) {
            Some(i) => Some(
                CategoryFocusRuleItem { category: self.categories[i].duplicate(), level: r.level },
            ),
            None => None,
        }
    }

    /// Every rule of a viewer.
    pub fn category_focus_rules(&self, viewer_sub: &str) -> (r: Result<
        Vec<CategoryFocusRuleItem>,
        StoreError,
    >)
        ensures
            listed(r) == Ok::<Seq<CategoryFocusRuleItemRow>, Failure>(
                rule_items(self@, viewer_sub@),
            ),
    {
        if is_blank(viewer_sub) {
            let none: Vec<CategoryFocusRuleItem> = Vec::new();
            assert(views(none@) =~= Seq::empty());
            return Ok(none);
        }
        let f = |r: &CategoryFocusRule| -> (item: Option<CategoryFocusRuleItem>)
            ensures
                opt(item) == rule_item(self@, viewer_sub@)(r@),
            { self.rule_item_for(viewer_sub, r) };
        let items = collect_rows(
            &self.category_focus_rules,
            f,
            Ghost(rule_item(self@, viewer_sub@)),
        );
        let le = |a: &CategoryFocusRuleItem, b: &CategoryFocusRuleItem| -> (r: bool)
            ensures
                r == rule_item_order()(a@, b@),
            {
                if b.category.sort_order != a.category.sort_order {
                    !(b.category.sort_order < a.category.sort_order)
                } else {
                    !str_less(b.category.id.as_str(), a.category.id.as_str())
                }
            };
        Ok(sort_rows(items, le, Ghost(rule_item_order())))
    }

    fn rule_count(&self, viewer_sub: &str) -> (r: usize)
        ensures
            r == count_rows(self@.category_focus_rules, rule_by(viewer_sub@)),
    {
        let test = |r: &CategoryFocusRule| -> (b: bool)
            ensures
                b == rule_by(viewer_sub@)(r@),
            { same(r.viewer_sub.as_str(), viewer_sub) };
        count(&self.category_focus_rules, test, Ghost(rule_by(viewer_sub@)))
    }

    /// Create, replace, or remove a viewer's rule for a category.
    pub fn set_category_focus_level(
        &mut self,
        viewer_sub: &str,
        category_id: &str,
        level: CategoryFocusLevel,
        changed_at: i64,
    ) -> (r: Result<(), StoreError>)
        ensures
            (final(self)@, plain(r)) == focus_change(
                old(self)@,
                viewer_sub@,
                category_id@,
                level,
                changed_at,
            ),
    {
        if is_blank(viewer_sub) || changed_at < 0 {
            return Err(invalid("invalid category focus rule"));
        }
        if find_category(&self.categories, category_id).is_none() {
            return Err(not_found("category not found"));
        }
        let ghost before = self.category_focus_rules@;
        match self.find_rule(viewer_sub, category_id) {
            Some(i) => {
                if level == CategoryFocusLevel::Unset {
                    let _ = self.category_focus_rules.remove(i);
                    assert(views(self.category_focus_rules@) =~= views(before).remove(i as int));
                } else if self.category_focus_rules[i].level != level {
                    let mut rule = self.category_focus_rules[i].duplicate();
                    rule.level = level;
                    rule.updated_at = changed_at;
                    self.category_focus_rules.set(i, rule);
                    assert(views(self.category_focus_rules@) =~= views(before).update(
                        i as int,
                        rule@,
                    ));
                }
            },
            None => {
                if level != CategoryFocusLevel::Unset {
                    if self.rule_count(viewer_sub) >= MAX_CATEGORY_FOCUS_RULES {
                        return Err(invalid("a user may keep at most 64 category focus rules"));
                    }
                    let rule = CategoryFocusRule {
                        viewer_sub: viewer_sub.to_owned(),
                        category_id: category_id.to_owned(),
                        level,
                        created_at: changed_at,
                        updated_at: changed_at,
                    };
                    self.category_focus_rules.push(rule);
                    assert(views(self.category_focus_rules@) =~= views(before).push(rule@));
                }
            },
        }
        Ok(())
    }

    fn focus_item_for(&self, viewer_sub: &str, as_of: i64, t: &Thread) -> (item: Option<
        CategoryFocusItem,
    >)
        ensures
            opt(item) == focus_item(self@, viewer_sub@, as_of)(t@),
    {
        if t.created_at > as_of {
            return None;
        }
        let test = |r: &CategoryFocusRule| -> (b: bool)
            ensures
                b == rule_of(viewer_sub@, t@.category_id)(r@),
            { same(r.viewer_sub.as_str(), viewer_sub) && r.category_id == t.category_id };
        let category_level = match get_last_row(
            &self.category_focus_rules,
            test,
            Ghost(rule_of(viewer_sub@, t@.category_id)),
        ) {
            Some(rule) => rule.level,
            None => return None,
        };
        let category = match find_category(&self.categories, t.category_id.as_str()) {
            Some(i) => self.categories[i].duplicate(),
            None => return None,
        };
        let thread_level = self.current_level(t.id.as_str(), viewer_sub);
        match category_focus_reason(category_level, thread_level) {
            Some(reason) => {
                let solved = has_valid_question_solution(
                    t,
                    category.format,
                    &self.original_posts,
                    &self.posts,
                );
                Some(
                    CategoryFocusItem {
                        thread: public_thread(t.duplicate(), solved),
                        category,
                        category_level,
                        thread_level,
                        reason,
                    },
                )
            },
            None => None,
        }
    }

    /// The threads a viewer's rules surface, priority categories first.
    pub fn category_focus_page(&self, viewer_sub: &str, limit: i64, as_of: i64) -> (r: Result<
        Vec<CategoryFocusItem>,
        StoreError,
    >)
        ensures
            listed(r) == focus_page(self@, viewer_sub@, limit as int, as_of),
    {
        if let Err(e) = validate_category_focus_page(limit, as_of) {
            return Err(e);
        }
        if is_blank(viewer_sub) {
            let none: Vec<CategoryFocusItem> = Vec::new();
            assert(views(none@) =~= Seq::empty());
            return Ok(none);
        }
        let f = |t: &Thread| -> (item: Option<CategoryFocusItem>)
            ensures
                opt(item) == focus_item(self@, viewer_sub@, as_of)(t@),
            { self.focus_item_for(viewer_sub, as_of, t) };
        let items = collect_rows(&self.threads, f, Ghost(focus_item(self@, viewer_sub@, as_of)));
        let le = |a: &CategoryFocusItem, b: &CategoryFocusItem| -> (r: bool)
            ensures
                r == focus_order()(a@, b@),
            {
                if b.reason.sort_bucket() != a.reason.sort_bucket() {
                    !(b.reason.sort_bucket() < a.reason.sort_bucket())
                } else {
                    !is_displayed_before(&b.thread, &a.thread)
                }
            };
        let mut items = sort_rows(items, le, Ghost(focus_order()));
        limit_rows(&mut items, limit);
        Ok(items)
    }
}

} // verus!
