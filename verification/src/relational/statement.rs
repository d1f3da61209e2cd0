//! A statement for the database: its text and the values of its parameters, in order.

use vstd::prelude::*;

use crate::rows::{opt, views};

verus! {

/// The value of a parameter.
#[derive(Debug)]
pub enum Param {
    Text(String),
    OptText(Option<String>),
    Int(i64),
    OptInt(Option<i64>),
    Flag(bool),
}

/// The mathematical view of a [`Param`].
pub enum ParamRow {
    Text(Seq<char>),
    OptText(Option<Seq<char>>),
    Int(i64),
    OptInt(Option<i64>),
    Flag(bool),
}

impl View for Param {
    type V = ParamRow;

    open spec fn view(&self) -> ParamRow {
        match self {
            Param::Text(t) => ParamRow::Text(t@),
            Param::OptText(t) => ParamRow::OptText(opt(*t)),
            Param::Int(n) => ParamRow::Int(*n),
            Param::OptInt(n) => ParamRow::OptInt(*n),
            Param::Flag(b) => ParamRow::Flag(*b),
        }
    }
}

/// A statement with its parameters.
#[derive(Debug)]
pub struct Statement {
    pub sql: String,
    pub params: Vec<Param>,
}

/// The mathematical view of a [`Statement`].
#[verifier::ext_equal]
pub struct StatementRow {
    pub sql: Seq<char>,
    pub params: Seq<ParamRow>,
}

impl View for Statement {
    type V = StatementRow;

    open spec fn view(&self) -> StatementRow {
        StatementRow { sql: self.sql@, params: views(self.params@) }
    }
}

/// A statement without parameters.
pub open spec fn statement(sql: Seq<char>) -> StatementRow {
    StatementRow { sql, params: Seq::empty() }
}

impl StatementRow {
    /// The statement with one more parameter.
    pub open spec fn with(self, p: ParamRow) -> StatementRow {
        StatementRow { params: self.params.push(p), ..self }
    }

    /// The statement with one more text.
    pub open spec fn text(self, t: Seq<char>) -> StatementRow {
        self.with(ParamRow::Text(t))
    }

    /// The statement with one more text that may be missing.
    pub open spec fn opt_text(self, t: Option<Seq<char>>) -> StatementRow {
        self.with(ParamRow::OptText(t))
    }

    /// The statement with one more number.
    pub open spec fn number(self, n: i64) -> StatementRow {
        self.with(ParamRow::Int(n))
    }

    /// The statement with one more number that may be missing.
    pub open spec fn opt_number(self, n: Option<i64>) -> StatementRow {
        self.with(ParamRow::OptInt(n))
    }

    /// The statement with one more flag.
    pub open spec fn flag(self, b: bool) -> StatementRow {
        self.with(ParamRow::Flag(b))
    }
}

impl Statement {
    /// A statement without parameters.
    pub(crate) fn new(sql: &str) -> (s: Statement)
        ensures
            s@ == statement(sql@),
    {
        let params: Vec<Param> = Vec::new();
        assert(views(params@) =~= Seq::empty());
        Statement { sql: sql.to_owned(), params }
    }

    fn with(self, p: Param) -> (s: Statement)
        ensures
            s@ == self@.with(p@),
    {
        let Statement { sql, params } = self;
        let ghost before = params@;
        let mut params = params;
        params.push(p);
        assert(views(params@) =~= views(before).push(p@));
        Statement { sql, params }
    }

    /// The statement with one more text.
    pub(crate) fn text(self, t: &str) -> (s: Statement)
        ensures
            s@ == self@.text(t@),
    {
        self.with(Param::Text(t.to_owned()))
    }

    /// The statement with one more text that may be missing.
    pub(crate) fn opt_text(self, t: Option<&str>) -> (s: Statement)
        ensures
            s@ == self@.opt_text(opt(t)),
    {
        match t {
            Some(t) => self.with(Param::OptText(Some(t.to_owned()))),
            None => self.with(Param::OptText(None)),
        }
    }

    /// The statement with one more number.
    pub(crate) fn number(self, n: i64) -> (s: Statement)
        ensures
            s@ == self@.number(n),
    {
        self.with(Param::Int(n))
    }

    /// The statement with one more number that may be missing.
    pub(crate) fn opt_number(self, n: Option<i64>) -> (s: Statement)
        ensures
            s@ == self@.opt_number(n),
    {
        self.with(Param::OptInt(n))
    }

    /// The statement with one more flag.
    pub(crate) fn flag(self, b: bool) -> (s: Statement)
        ensures
            s@ == self@.flag(b),
    {
        self.with(Param::Flag(b))
    }
}

} // verus!
