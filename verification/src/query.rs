//! Queries on a verb and the text that answers them.
//!
//! A query names a scalar field, or a tense with or without a pronoun, or
//! nothing at all. A field wins over a tense; a query that names nothing has
//! no answer. A name that selects nothing is answered with a complaint, not
//! refused.

use crate::conjugation::{Conjugation, ConjugationWithAlternatives, ImperativeConjugation};
use crate::selection::{Selection, SelectionView, Table, TableView};
use crate::tense::Tense;
use crate::verb::{VerbConjugation, VerbView};
use vstd::prelude::*;

verus! {

/// What may follow a tense on the command line: a pronoun, as it was typed.
#[derive(Debug, PartialEq, Eq)]
pub struct TenseArgs {
    pub pronoun: Option<String>,
}

/// A tense with what followed it.
#[derive(Debug, PartialEq, Eq)]
pub struct TenseQuery {
    pub tense: Tense,
    pub args: TenseArgs,
}

/// What is asked of a verb.
#[derive(Debug, PartialEq, Eq)]
pub struct Query {
    pub field: Option<String>,
    pub tense: Option<TenseQuery>,
}

/// A query as plain characters.
pub struct QueryView {
    pub field: Option<Seq<char>>,
    pub tense: Option<(Tense, Option<Seq<char>>)>,
}

impl View for TenseArgs {
    type V = Option<Seq<char>>;

    open spec fn view(&self) -> Option<Seq<char>> {
        self.pronoun.deep_view()
    }
}

impl View for TenseQuery {
    type V = (Tense, Option<Seq<char>>);

    open spec fn view(&self) -> (Tense, Option<Seq<char>>) {
        (self.tense, self.args@)
    }
}

impl View for Query {
    type V = QueryView;

    open spec fn view(&self) -> QueryView {
        QueryView {
            field: self.field.deep_view(),
            tense: match self.tense {
                Some(query) => Some(query@),
                None => None,
            },
        }
    }
}

impl VerbView {
    /// What a query selects from the verb, if it asks for anything: the field
    /// where it names one, whether or not it names a tense as well; otherwise
    /// what the tense and pronoun select.
    pub open spec fn resolve(self, query: QueryView) -> Option<SelectionView> {
        match query.field {
            Some(name) => Some(self.field(name)),
            None => match query.tense {
                Some((tense, pronoun)) => Some(self.lookup(tense, pronoun)),
                None => None,
            },
        }
    }

    /// The text that answers a query, if it asks for anything.
    pub open spec fn answer(self, query: QueryView) -> Option<Seq<char>> {
        match self.resolve(query) {
            Some(selection) => Some(selection.rendered()),
            None => None,
        }
    }
}

impl TenseArgs {
    /// The pronoun as a string slice, where one was given.
    pub fn pronoun(&self) -> (pronoun: Option<&str>)
        ensures
            pronoun.deep_view() == self@,
    {
        match &self.pronoun {
            Some(text) => Some(text.as_str()),
            None => None,
        }
    }
}

/// Answers a tense query on a table with one form per pronoun: the form of
/// the pronoun, the whole table where no pronoun is given, or the complaint
/// about the pronoun.
pub fn handle_tense(conjugation: &Conjugation, args: &TenseArgs) -> (out: String)
    ensures
        out@ == TableView::Simple(conjugation@).select(args@).rendered(),
{
    Table::Simple(conjugation).select(args.pronoun()).render()
}

/// Answers a tense query on a table with alternative forms: the list of forms
/// of the pronoun, the whole table where no pronoun is given, or the
/// complaint about the pronoun.
pub fn handle_tense_with_alternatives(
    conjugation: &ConjugationWithAlternatives,
    args: &TenseArgs,
) -> (out: String)
    ensures
        out@ == TableView::Alternatives(conjugation@).select(args@).rendered(),
{
    Table::Alternatives(conjugation).select(args.pronoun()).render()
}

/// Answers a tense query on the table of the imperative: the form of the
/// pronoun, the whole table where no pronoun is given, or the complaint about
/// the pronoun, which `yo` earns like any text that names no slot.
pub fn handle_imperative_tense(conjugation: &ImperativeConjugation, args: &TenseArgs) -> (out:
    String)
    ensures
        out@ == TableView::Imperative(conjugation@).select(args@).rendered(),
{
    Table::Imperative(conjugation).select(args.pronoun()).render()
}

/// What a query selects from the verb: see [`VerbView::resolve`].
pub fn resolve<'a>(record: &'a VerbConjugation, query: &Query) -> (found: Option<Selection<'a>>)
    ensures
        found is Some <==> record@.resolve(query@) is Some,
        found matches Some(selection) ==> Some(selection@) == record@.resolve(query@),
{
    match &query.field {
        Some(name) => Some(record.field(name.as_str())),
        None => match &query.tense {
            Some(asked) => Some(record.lookup(asked.tense, asked.args.pronoun())),
            None => None,
        },
    }
}

/// The text that answers a query, if it asks for anything: see
/// [`VerbView::answer`].
pub fn answer(record: &VerbConjugation, query: &Query) -> (out: Option<String>)
    ensures
        out.deep_view() == record@.answer(query@),
{
    match &query.field {
        Some(name) => Some(record.field(name.as_str()).render()),
        None => match &query.tense {
            Some(asked) => Some(
                match record.table(asked.tense) {
                    Table::Simple(table) => handle_tense(table, &asked.args),
                    Table::Alternatives(table) => handle_tense_with_alternatives(
                        table,
                        &asked.args,
                    ),
                    Table::Imperative(table) => handle_imperative_tense(table, &asked.args),
                },
            ),
            None => None,
        },
    }
}

} // verus!
