//! How a command of the relational store proceeds.
//!
//! A command is a function of its arguments and of the answers it was told so far: it asks for the
//! next rows, or it is finished. Whoever runs it performs the steps, fetches the rows, and asks
//! again with one more answer.

use vstd::prelude::*;

use crate::model::{Bookmark, BookmarkRow, Post, PostRow, Thread, ThreadRow};
use crate::relational::moderating::{LockedThread, LockedThreadRow};
use crate::relational::personal::{ActivityLockTarget, ActivityLockTargetRow};
use crate::relational::statement::{Statement, StatementRow};
use crate::relational::writing::{
    Contended, MAX_ATTEMPTS, PendingPoint, PendingPointRow, PendingReceipt, PendingReceiptRow,
};
use crate::rows::{Record, duplicate_opt, duplicate_rows, opt, views};
use crate::store::types::{Failure, StoreError};

verus! {

// ---------------------------------------------------------------------------
// Rows that only commands read.
// ---------------------------------------------------------------------------

/// A thread with the post it was opened with.
pub struct OpenedThread {
    pub thread: Thread,
    pub first_post_id: String,
}

/// The mathematical view of an [`OpenedThread`].
#[verifier::ext_equal]
pub struct OpenedThreadRow {
    pub thread: ThreadRow,
    pub first_post_id: Seq<char>,
}

impl View for OpenedThread {
    type V = OpenedThreadRow;

    open spec fn view(&self) -> OpenedThreadRow {
        OpenedThreadRow { thread: self.thread@, first_post_id: self.first_post_id@ }
    }
}

impl Record for OpenedThread {
    fn duplicate(&self) -> (copy: Self) {
        OpenedThread {
            thread: self.thread.duplicate(),
            first_post_id: self.first_post_id.clone(),
        }
    }
}

impl Record for LockedThread {
    fn duplicate(&self) -> (copy: Self) {
        LockedThread {
            id: self.id.clone(),
            first_post_id: self.first_post_id.clone(),
            accepted_post_id: self.accepted_post_id.clone(),
        }
    }
}

impl Record for ActivityLockTarget {
    fn duplicate(&self) -> (copy: Self) {
        ActivityLockTarget {
            category_id: self.category_id.clone(),
            thread_id: self.thread_id.clone(),
            post_id: self.post_id.clone(),
            activity_id: self.activity_id.clone(),
        }
    }
}

// ---------------------------------------------------------------------------
// Steps.
// ---------------------------------------------------------------------------

/// One step of a command.
#[derive(Debug)]
pub enum Step {
    /// A transaction begins.
    Begin,
    /// A statement runs, inside the transaction when one is open.
    Run(Statement),
    /// The open transaction is committed.
    Commit,
}

/// The mathematical view of a [`Step`].
pub enum StepRow {
    Begin,
    Run(StatementRow),
    Commit,
}

impl View for Step {
    type V = StepRow;

    open spec fn view(&self) -> StepRow {
        match self {
            Step::Begin => StepRow::Begin,
            Step::Run(s) => StepRow::Run(s@),
            Step::Commit => StepRow::Commit,
        }
    }
}

/// No steps.
pub open spec fn no_steps() -> Seq<StepRow> {
    Seq::empty()
}

/// A transaction begins.
pub open spec fn begin() -> Seq<StepRow> {
    seq![StepRow::Begin]
}

/// The step that runs a statement.
pub open spec fn run_step() -> spec_fn(StatementRow) -> StepRow {
    |s: StatementRow| StepRow::Run(s)
}

/// The statements run in order.
pub open spec fn running(s: Seq<StatementRow>) -> Seq<StepRow> {
    s.map_values(run_step())
}

/// The statements run in order, and the transaction is committed.
pub open spec fn committing(s: Seq<StatementRow>) -> Seq<StepRow> {
    running(s).push(StepRow::Commit)
}

/// No steps.
pub(crate) fn without_steps() -> (out: Vec<Step>)
    ensures
        views(out@) == no_steps(),
{
    let out: Vec<Step> = Vec::new();
    assert(views(out@) =~= no_steps());
    out
}

/// The step that begins a transaction.
pub(crate) fn beginning() -> (out: Vec<Step>)
    ensures
        views(out@) == begin(),
{
    let mut out: Vec<Step> = Vec::new();
    out.push(Step::Begin);
    assert(views(out@) =~= begin());
    out
}

/// The steps that run the statements in order.
pub(crate) fn steps_of(statements: Vec<Statement>) -> (out: Vec<Step>)
    ensures
        views(out@) == running(views(statements@)),
{
    let mut statements = statements;
    let ghost all = statements@;
    let n: usize = statements.len();
    let mut back: Vec<Step> = Vec::new();
    let mut out: Vec<Step> = Vec::new();
    while statements.len() > 0
        invariant
            n == all.len(),
            statements@ == all.take(statements@.len() as int),
            statements@.len() + back@.len() == n,
            forall|k: int|
                0 <= k < back@.len() ==> (#[trigger] back@[k])@ == StepRow::Run(all[n - 1 - k]@),
        decreases statements@.len(),
    {
        let ghost before = statements@;
        if let Some(s) = statements.pop() {
            assert(s == all[before.len() - 1]);
            assert(statements@ =~= all.take(statements@.len() as int));
            back.push(Step::Run(s));
        }
    }
    while back.len() > 0
        invariant
            n == all.len(),
            back@.len() + out@.len() == n,
            forall|k: int|
                0 <= k < back@.len() ==> (#[trigger] back@[k])@ == StepRow::Run(all[n - 1 - k]@),
            forall|k: int|
                0 <= k < out@.len() ==> (#[trigger] out@[k])@ == StepRow::Run(all[k]@),
        decreases back@.len(),
    {
        let ghost before = back@;
        if let Some(s) = back.pop() {
            assert(s == before[before.len() - 1]);
            out.push(s);
        }
    }
    assert(views(out@) =~= running(views(all)));
    out
}

/// The steps that run the statements in order and commit.
pub(crate) fn commit_of(statements: Vec<Statement>) -> (out: Vec<Step>)
    ensures
        views(out@) == committing(views(statements@)),
{
    let mut out = steps_of(statements);
    let ghost before = out@;
    out.push(Step::Commit);
    assert(views(out@) =~= views(before).push(StepRow::Commit));
    out
}

/// One statement as a list.
pub(crate) fn just(s: Statement) -> (out: Vec<Statement>)
    ensures
        views(out@) == seq![s@],
{
    let mut out: Vec<Statement> = Vec::new();
    out.push(s);
    assert(views(out@) =~= seq![s@]);
    out
}

/// At most one statement as a list.
pub open spec fn at_most(s: Option<StatementRow>) -> Seq<StatementRow> {
    match s {
        Some(s) => seq![s],
        None => Seq::empty(),
    }
}

/// At most one statement as a list.
pub(crate) fn perhaps(s: Option<Statement>) -> (out: Vec<Statement>)
    ensures
        views(out@) == at_most(opt(s)),
{
    let mut out: Vec<Statement> = Vec::new();
    if let Some(s) = s {
        out.push(s);
    }
    assert(views(out@) =~= at_most(opt(s)));
    out
}

// ---------------------------------------------------------------------------
// Asking.
// ---------------------------------------------------------------------------

/// What rows a fetch expects.
#[derive(Clone, Copy, Debug, PartialEq, Eq, Structural)]
pub enum Shape {
    /// One text, if there is a row.
    Text,
    /// The texts of all rows.
    Texts,
    /// The number of the only row, which may be missing from it.
    Number,
    /// One number that may be missing, if there is a row.
    Stamp,
    /// The flag of the only row.
    Flag,
    /// A thread with the post it was opened with, if there is a row.
    Thread,
    /// A post, if there is a row.
    Post,
    /// A bookmark, if there is a row.
    Bookmark,
    /// Threads with their pointers.
    Threads,
    /// What a receipt locks, if there is a row.
    Target,
    /// How many rows a statement changed.
    Affected,
    /// Bookmarks without an identity, each with a fresh one.
    Unidentified,
    /// Posts without a catch-up point.
    Points,
    /// Read receipts without a generation.
    Receipts,
    /// The identities that ever wrote something.
    Authors,
}

/// What a command does next.
pub enum Ask<T> {
    /// The steps are performed, then rows of the shape are fetched.
    Fetch(Vec<Step>, Shape, Statement),
    /// The steps are performed, and the command is finished.
    Finish(Vec<Step>, T),
    /// Everything is rolled back, and the command starts over.
    Restart,
    /// Everything is rolled back, and the command has failed.
    Fail(StoreError),
}

/// The mathematical view of an [`Ask`].
pub enum AskRow<V> {
    Fetch(Seq<StepRow>, Shape, StatementRow),
    Finish(Seq<StepRow>, V),
    Restart,
    Fail(Failure),
}

impl<T: View> View for Ask<T> {
    type V = AskRow<T::V>;

    open spec fn view(&self) -> AskRow<T::V> {
        match self {
            Ask::Fetch(steps, shape, s) => AskRow::Fetch(views(steps@), *shape, s@),
            Ask::Finish(steps, t) => AskRow::Finish(views(steps@), t@),
            Ask::Restart => AskRow::Restart,
            Ask::Fail(e) => AskRow::Fail(e@),
        }
    }
}

/// A command starts over, unless its attempts are used up.
pub open spec fn over<V>(attempt: int, what: Contended) -> AskRow<V> {
    if attempt + 1 < MAX_ATTEMPTS {
        AskRow::Restart
    } else {
        AskRow::Fail(
            Failure::Backend("thread category changed repeatedly; retry the "@ + what.text()),
        )
    }
}

/// A command starts over, unless its attempts are used up.
pub(crate) fn start_over<T: View>(attempt: usize, what: Contended) -> (r: Ask<T>)
    ensures
        r@ == over::<T::V>(attempt as int, what),
{
    if attempt < MAX_ATTEMPTS - 1 {
        Ask::Restart
    } else {
        Ask::Fail(what.given_up())
    }
}

// ---------------------------------------------------------------------------
// Answers.
// ---------------------------------------------------------------------------

/// What a fetch was answered with, by its shape.
pub enum Told {
    Text(Option<String>),
    Texts(Vec<String>),
    Number(Option<i64>),
    Stamp(Option<Option<i64>>),
    Flag(bool),
    Thread(Option<OpenedThread>),
    Post(Option<Post>),
    Bookmark(Option<Bookmark>),
    Threads(Vec<LockedThread>),
    Target(Option<ActivityLockTarget>),
    Affected(i64),
    Unidentified(Vec<UnidentifiedBookmark>),
    Points(Vec<PendingPoint>),
    Receipts(Vec<PendingReceipt>),
    Authors(Vec<PastAuthor>),
}

/// The mathematical view of a [`Told`].
pub enum ToldRow {
    Text(Option<Seq<char>>),
    Texts(Seq<Seq<char>>),
    Number(Option<i64>),
    Stamp(Option<Option<i64>>),
    Flag(bool),
    Thread(Option<OpenedThreadRow>),
    Post(Option<PostRow>),
    Bookmark(Option<BookmarkRow>),
    Threads(Seq<LockedThreadRow>),
    Target(Option<ActivityLockTargetRow>),
    Affected(i64),
    Unidentified(Seq<UnidentifiedBookmarkRow>),
    Points(Seq<PendingPointRow>),
    Receipts(Seq<PendingReceiptRow>),
    Authors(Seq<PastAuthorRow>),
}

impl View for Told {
    type V = ToldRow;

    open spec fn view(&self) -> ToldRow {
        match self {
            Told::Text(t) => ToldRow::Text(opt(*t)),
            Told::Texts(t) => ToldRow::Texts(views(t@)),
            Told::Number(n) => ToldRow::Number(*n),
            Told::Stamp(n) => ToldRow::Stamp(*n),
            Told::Flag(b) => ToldRow::Flag(*b),
            Told::Thread(t) => ToldRow::Thread(opt(*t)),
            Told::Post(p) => ToldRow::Post(opt(*p)),
            Told::Bookmark(b) => ToldRow::Bookmark(opt(*b)),
            Told::Threads(t) => ToldRow::Threads(views(t@)),
            Told::Target(t) => ToldRow::Target(opt(*t)),
            Told::Affected(n) => ToldRow::Affected(*n),
            Told::Unidentified(b) => ToldRow::Unidentified(views(b@)),
            Told::Points(p) => ToldRow::Points(views(p@)),
            Told::Receipts(r) => ToldRow::Receipts(views(r@)),
            Told::Authors(a) => ToldRow::Authors(views(a@)),
        }
    }
}

/// A bookmark without an identity, with a fresh one for it.
pub struct UnidentifiedBookmark {
    pub fresh_id: String,
    pub owner_sub: String,
    pub post_id: String,
}

/// The mathematical view of an [`UnidentifiedBookmark`].
#[verifier::ext_equal]
pub struct UnidentifiedBookmarkRow {
    pub fresh_id: Seq<char>,
    pub owner_sub: Seq<char>,
    pub post_id: Seq<char>,
}

impl View for UnidentifiedBookmark {
    type V = UnidentifiedBookmarkRow;

    open spec fn view(&self) -> UnidentifiedBookmarkRow {
        UnidentifiedBookmarkRow {
            fresh_id: self.fresh_id@,
            owner_sub: self.owner_sub@,
            post_id: self.post_id@,
        }
    }
}

/// An identity that wrote something, with its first time.
pub struct PastAuthor {
    pub author_sub: String,
    pub author_email: String,
    pub created_at: i64,
}

/// The mathematical view of a [`PastAuthor`].
#[verifier::ext_equal]
pub struct PastAuthorRow {
    pub author_sub: Seq<char>,
    pub author_email: Seq<char>,
    pub created_at: i64,
}

impl View for PastAuthor {
    type V = PastAuthorRow;

    open spec fn view(&self) -> PastAuthorRow {
        PastAuthorRow {
            author_sub: self.author_sub@,
            author_email: self.author_email@,
            created_at: self.created_at,
        }
    }
}

/// The text that was told; none when there was no row.
pub open spec fn text_at(told: Seq<ToldRow>, i: int) -> Option<Seq<char>> {
    if 0 <= i < told.len() {
        match told[i] {
            ToldRow::Text(t) => t,
            _ => None,
        }
    } else {
        None
    }
}

/// The text that was told; none when there was no row.
pub(crate) fn told_text(told: &Vec<Told>, i: usize) -> (r: Option<String>)
    ensures
        opt(r) == text_at(views(told@), i as int),
{
    if i < told.len() {
        assert(views(told@)[i as int] == told@[i as int]@);
        if let Told::Text(t) = &told[i] {
            return duplicate_opt(t);
        }
    }
    None
}

/// The texts that were told.
pub open spec fn texts_at(told: Seq<ToldRow>, i: int) -> Seq<Seq<char>> {
    if 0 <= i < told.len() {
        match told[i] {
            ToldRow::Texts(t) => t,
            _ => Seq::empty(),
        }
    } else {
        Seq::empty()
    }
}

/// The texts that were told.
pub(crate) fn told_texts(told: &Vec<Told>, i: usize) -> (r: Vec<String>)
    ensures
        views(r@) == texts_at(views(told@), i as int),
{
    if i < told.len() {
        assert(views(told@)[i as int] == told@[i as int]@);
        if let Told::Texts(t) = &told[i] {
            return duplicate_rows(t);
        }
    }
    let r: Vec<String> = Vec::new();
    assert(views(r@) =~= Seq::empty());
    r
}

/// The number that was told; none when it was missing.
pub open spec fn number_at(told: Seq<ToldRow>, i: int) -> Option<i64> {
    if 0 <= i < told.len() {
        match told[i] {
            ToldRow::Number(t) => t,
            _ => None,
        }
    } else {
        None
    }
}

/// The number that was told; none when it was missing.
pub(crate) fn told_number(told: &Vec<Told>, i: usize) -> (r: Option<i64>)
    ensures
        r == number_at(views(told@), i as int),
{
    if i < told.len() {
        assert(views(told@)[i as int] == told@[i as int]@);
        if let Told::Number(t) = &told[i] {
            return *t;
        }
    }
    None
}

/// The number that was told; none when there was no row.
pub open spec fn stamp_at(told: Seq<ToldRow>, i: int) -> Option<Option<i64>> {
    if 0 <= i < told.len() {
        match told[i] {
            ToldRow::Stamp(t) => t,
            _ => None,
        }
    } else {
        None
    }
}

/// The number that was told; none when there was no row.
pub(crate) fn told_stamp(told: &Vec<Told>, i: usize) -> (r: Option<Option<i64>>)
    ensures
        r == stamp_at(views(told@), i as int),
{
    if i < told.len() {
        assert(views(told@)[i as int] == told@[i as int]@);
        if let Told::Stamp(t) = &told[i] {
            return *t;
        }
    }
    None
}

/// The flag that was told.
pub open spec fn flag_at(told: Seq<ToldRow>, i: int) -> bool {
    if 0 <= i < told.len() {
        match told[i] {
            ToldRow::Flag(t) => t,
            _ => false,
        }
    } else {
        false
    }
}

/// The flag that was told.
pub(crate) fn told_flag(told: &Vec<Told>, i: usize) -> (r: bool)
    ensures
        r == flag_at(views(told@), i as int),
{
    if i < told.len() {
        assert(views(told@)[i as int] == told@[i as int]@);
        if let Told::Flag(t) = &told[i] {
            return *t;
        }
    }
    false
}

/// The thread that was told; none when there was no row.
pub open spec fn thread_at(told: Seq<ToldRow>, i: int) -> Option<OpenedThreadRow> {
    if 0 <= i < told.len() {
        match told[i] {
            ToldRow::Thread(t) => t,
            _ => None,
        }
    } else {
        None
    }
}

/// The thread that was told; none when there was no row.
pub(crate) fn told_thread(told: &Vec<Told>, i: usize) -> (r: Option<OpenedThread>)
    ensures
        opt(r) == thread_at(views(told@), i as int),
{
    if i < told.len() {
        assert(views(told@)[i as int] == told@[i as int]@);
        if let Told::Thread(t) = &told[i] {
            return duplicate_opt(t);
        }
    }
    None
}

/// The post that was told; none when there was no row.
pub open spec fn post_at(told: Seq<ToldRow>, i: int) -> Option<PostRow> {
    if 0 <= i < told.len() {
        match told[i] {
            ToldRow::Post(t) => t,
            _ => None,
        }
    } else {
        None
    }
}

/// The post that was told; none when there was no row.
pub(crate) fn told_post(told: &Vec<Told>, i: usize) -> (r: Option<Post>)
    ensures
        opt(r) == post_at(views(told@), i as int),
{
    if i < told.len() {
        assert(views(told@)[i as int] == told@[i as int]@);
        if let Told::Post(t) = &told[i] {
            return duplicate_opt(t);
        }
    }
    None
}

/// The bookmark that was told; none when there was no row.
pub open spec fn bookmark_at(told: Seq<ToldRow>, i: int) -> Option<BookmarkRow> {
    if 0 <= i < told.len() {
        match told[i] {
            ToldRow::Bookmark(t) => t,
            _ => None,
        }
    } else {
        None
    }
}

/// The bookmark that was told; none when there was no row.
pub(crate) fn told_bookmark(told: &Vec<Told>, i: usize) -> (r: Option<Bookmark>)
    ensures
        opt(r) == bookmark_at(views(told@), i as int),
{
    if i < told.len() {
        assert(views(told@)[i as int] == told@[i as int]@);
        if let Told::Bookmark(t) = &told[i] {
            return duplicate_opt(t);
        }
    }
    None
}

/// The threads that were told.
pub open spec fn threads_at(told: Seq<ToldRow>, i: int) -> Seq<LockedThreadRow> {
    if 0 <= i < told.len() {
        match told[i] {
            ToldRow::Threads(t) => t,
            _ => Seq::empty(),
        }
    } else {
        Seq::empty()
    }
}

/// The threads that were told.
pub(crate) fn told_threads(told: &Vec<Told>, i: usize) -> (r: Vec<LockedThread>)
    ensures
        views(r@) == threads_at(views(told@), i as int),
{
    if i < told.len() {
        assert(views(told@)[i as int] == told@[i as int]@);
        if let Told::Threads(t) = &told[i] {
            return duplicate_rows(t);
        }
    }
    let r: Vec<LockedThread> = Vec::new();
    assert(views(r@) =~= Seq::empty());
    r
}

/// The target that was told; none when there was no row.
pub open spec fn target_at(told: Seq<ToldRow>, i: int) -> Option<ActivityLockTargetRow> {
    if 0 <= i < told.len() {
        match told[i] {
            ToldRow::Target(t) => t,
            _ => None,
        }
    } else {
        None
    }
}

/// The target that was told; none when there was no row.
pub(crate) fn told_target(told: &Vec<Told>, i: usize) -> (r: Option<ActivityLockTarget>)
    ensures
        opt(r) == target_at(views(told@), i as int),
{
    if i < told.len() {
        assert(views(told@)[i as int] == told@[i as int]@);
        if let Told::Target(t) = &told[i] {
            return duplicate_opt(t);
        }
    }
    None
}

/// How many rows were changed.
pub open spec fn affected_at(told: Seq<ToldRow>, i: int) -> i64 {
    if 0 <= i < told.len() {
        match told[i] {
            ToldRow::Affected(t) => t,
            _ => 0,
        }
    } else {
        0
    }
}

/// How many rows were changed.
pub(crate) fn told_affected(told: &Vec<Told>, i: usize) -> (r: i64)
    ensures
        r == affected_at(views(told@), i as int),
{
    if i < told.len() {
        assert(views(told@)[i as int] == told@[i as int]@);
        if let Told::Affected(t) = &told[i] {
            return *t;
        }
    }
    0
}

/// The bookmarks that were told.
pub open spec fn unidentified_at(told: Seq<ToldRow>, i: int) -> Seq<UnidentifiedBookmarkRow> {
    if 0 <= i < told.len() {
        match told[i] {
            ToldRow::Unidentified(t) => t,
            _ => Seq::empty(),
        }
    } else {
        Seq::empty()
    }
}

/// The bookmarks that were told.
pub(crate) fn told_unidentified(told: &Vec<Told>, i: usize) -> (r: Vec<UnidentifiedBookmark>)
    ensures
        views(r@) == unidentified_at(views(told@), i as int),
{
    if i < told.len() {
        assert(views(told@)[i as int] == told@[i as int]@);
        if let Told::Unidentified(t) = &told[i] {
            return duplicate_rows(t);
        }
    }
    let r: Vec<UnidentifiedBookmark> = Vec::new();
    assert(views(r@) =~= Seq::empty());
    r
}

/// The posts that were told.
pub open spec fn points_at(told: Seq<ToldRow>, i: int) -> Seq<PendingPointRow> {
    if 0 <= i < told.len() {
        match told[i] {
            ToldRow::Points(t) => t,
            _ => Seq::empty(),
        }
    } else {
        Seq::empty()
    }
}

/// The posts that were told.
pub(crate) fn told_points(told: &Vec<Told>, i: usize) -> (r: Vec<PendingPoint>)
    ensures
        views(r@) == points_at(views(told@), i as int),
{
    if i < told.len() {
        assert(views(told@)[i as int] == told@[i as int]@);
        if let Told::Points(t) = &told[i] {
            return duplicate_rows(t);
        }
    }
    let r: Vec<PendingPoint> = Vec::new();
    assert(views(r@) =~= Seq::empty());
    r
}

/// The receipts that were told.
pub open spec fn receipts_at(told: Seq<ToldRow>, i: int) -> Seq<PendingReceiptRow> {
    if 0 <= i < told.len() {
        match told[i] {
            ToldRow::Receipts(t) => t,
            _ => Seq::empty(),
        }
    } else {
        Seq::empty()
    }
}

/// The receipts that were told.
pub(crate) fn told_receipts(told: &Vec<Told>, i: usize) -> (r: Vec<PendingReceipt>)
    ensures
        views(r@) == receipts_at(views(told@), i as int),
{
    if i < told.len() {
        assert(views(told@)[i as int] == told@[i as int]@);
        if let Told::Receipts(t) = &told[i] {
            return duplicate_rows(t);
        }
    }
    let r: Vec<PendingReceipt> = Vec::new();
    assert(views(r@) =~= Seq::empty());
    r
}

/// The identities that were told.
pub open spec fn authors_at(told: Seq<ToldRow>, i: int) -> Seq<PastAuthorRow> {
    if 0 <= i < told.len() {
        match told[i] {
            ToldRow::Authors(t) => t,
            _ => Seq::empty(),
        }
    } else {
        Seq::empty()
    }
}

/// The identities that were told.
pub(crate) fn told_authors(told: &Vec<Told>, i: usize) -> (r: Vec<PastAuthor>)
    ensures
        views(r@) == authors_at(views(told@), i as int),
{
    if i < told.len() {
        assert(views(told@)[i as int] == told@[i as int]@);
        if let Told::Authors(t) = &told[i] {
            return duplicate_rows(t);
        }
    }
    let r: Vec<PastAuthor> = Vec::new();
    assert(views(r@) =~= Seq::empty());
    r
}

impl Record for UnidentifiedBookmark {
    fn duplicate(&self) -> (copy: Self) {
        UnidentifiedBookmark {
            fresh_id: self.fresh_id.clone(),
            owner_sub: self.owner_sub.clone(),
            post_id: self.post_id.clone(),
        }
    }
}

impl Record for PastAuthor {
    fn duplicate(&self) -> (copy: Self) {
        PastAuthor {
            author_sub: self.author_sub.clone(),
            author_email: self.author_email.clone(),
            created_at: self.created_at,
        }
    }
}

impl Record for PendingPoint {
    fn duplicate(&self) -> (copy: Self) {
        PendingPoint {
            post_id: self.post_id.clone(),
            thread_id: self.thread_id.clone(),
            activity_at: self.activity_at,
        }
    }
}

impl Record for PendingReceipt {
    fn duplicate(&self) -> (copy: Self) {
        PendingReceipt { viewer_sub: self.viewer_sub.clone(), post_id: self.post_id.clone() }
    }
}

} // verus!
