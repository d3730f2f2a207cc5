//! Statements for the store: SQL text and the values bound to it.

use crate::models::config::AppConfig;
use crate::models::document::{DocumentMetadata, MetadataView};
use crate::strings::owned;
use vstd::prelude::*;

verus! {

/// A value bound to a placeholder of a statement.
#[derive(Clone, Debug, PartialEq)]
pub enum Param {
    /// SQL `NULL`.
    Null,
    /// An integer.
    Integer(i64),
    /// A text.
    Text(String),
    /// Document metadata, bound as its JSON text.
    Metadata(DocumentMetadata),
    /// The settings, bound as their JSON text.
    Config(AppConfig),
}

/// What a [`Param`] holds, with texts as sequences of characters.
pub ghost enum ParamView {
    Null,
    Integer(int),
    Text(Seq<char>),
    Metadata(MetadataView),
    Config(AppConfig),
}

impl View for Param {
    type V = ParamView;

    open spec fn view(&self) -> ParamView {
        match *self {
            Param::Null => ParamView::Null,
            Param::Integer(n) => ParamView::Integer(n as int),
            Param::Text(s) => ParamView::Text(s@),
            Param::Metadata(m) => ParamView::Metadata(m@),
            Param::Config(c) => ParamView::Config(c),
        }
    }
}

/// The parameter that binds an optional text: the text, or `NULL`.
pub open spec fn opt_text(s: Option<String>) -> ParamView {
    match s {
        Some(t) => ParamView::Text(t@),
        None => ParamView::Null,
    }
}

impl Param {
    /// Binds a text.
    pub fn text(s: &str) -> (p: Param)
        ensures
            p@ == ParamView::Text(s@),
    {
        Param::Text(owned(s))
    }

    /// Binds an optional text: the text, or `NULL`.
    pub fn optional_text(s: &Option<String>) -> (p: Param)
        ensures
            p@ == opt_text(*s),
    {
        match s {
            Some(t) => Param::Text(t.clone()),
            None => Param::Null,
        }
    }

    /// Binds a count.
    pub fn count(n: u32) -> (p: Param)
        ensures
            p@ == ParamView::Integer(n as int),
    {
        Param::Integer(n as i64)
    }
}

/// One statement: its SQL text and the values for its placeholders, in the
/// order of the placeholders.
#[derive(Clone, Debug, PartialEq)]
pub struct Statement {
    pub sql: String,
    pub params: Vec<Param>,
}

/// What a [`Statement`] holds.
pub ghost struct StatementView {
    pub sql: Seq<char>,
    pub params: Seq<ParamView>,
}

impl View for Statement {
    type V = StatementView;

    open spec fn view(&self) -> StatementView {
        StatementView { sql: self.sql@, params: self.params@.map_values(|p: Param| p@) }
    }
}

impl Statement {
    /// The statement `sql` with the values `params`.
    pub fn new(sql: &str, params: Vec<Param>) -> (s: Statement)
        ensures
            s@ == (StatementView { sql: sql@, params: params@.map_values(|p: Param| p@) }),
    {
        Statement { sql: owned(sql), params }
    }

    /// The statement `sql`, which has no placeholders.
    pub fn plain(sql: &str) -> (s: Statement)
        ensures
            s@ == (StatementView { sql: sql@, params: Seq::empty() }),
    {
        let s = Statement { sql: owned(sql), params: Vec::new() };
        assert(s@.params =~= Seq::empty());
        s
    }
}

/// A value to hand back once the statements have run, in their order.
#[derive(Debug)]
pub struct Plan<T> {
    pub value: T,
    pub statements: Vec<Statement>,
}

} // verus!
