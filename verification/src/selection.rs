//! What a query selects from a verb's tables, and the text that stands for it.
//!
//! A selection is a single form, a list of alternative forms, a whole table,
//! or one of the two complaints about a name that selects nothing. A whole
//! table is written as the standard library's alternate `Debug` formatting
//! writes a record; a list of alternatives as its plain `Debug` formatting
//! writes a list.

use crate::conjugation::{Conjugation, ConjugationWithAlternatives, ImperativeConjugation};
use crate::pronoun::Pronoun;
use crate::tense::Shape;
use crate::text::{
    block_list,
    debug_quoted,
    inline_list,
    labelled,
    quote,
    quote_all,
    quoted_each,
    record_block,
    render_block_list,
    render_inline_list,
    render_labelled,
    render_record,
    texts,
};
use vstd::prelude::*;

verus! {

/// A table of a verb, of whichever shape.
#[derive(Clone, Copy, Debug, PartialEq, Eq)]
pub enum Table<'a> {
    Simple(&'a Conjugation),
    Alternatives(&'a ConjugationWithAlternatives),
    Imperative(&'a ImperativeConjugation),
}

/// What a table holds: for each pronoun that it has a slot for, the form or
/// the forms stored there.
pub enum TableView {
    Simple(Map<Pronoun, Seq<char>>),
    Alternatives(Map<Pronoun, Seq<Seq<char>>>),
    Imperative(Map<Pronoun, Seq<char>>),
}

/// What a query selected.
#[derive(Clone, Copy, Debug, PartialEq, Eq)]
pub enum Selection<'a> {
    /// A single stored string: a form, or a scalar field of the verb.
    Text(&'a String),
    /// The alternative forms stored in one slot, in stored order.
    Variants(&'a Vec<String>),
    /// A whole table.
    Table(Table<'a>),
    /// The field name names no field.
    InvalidField,
    /// The pronoun names no slot of the table.
    InvalidPronoun,
}

/// What a selection holds, as plain characters.
pub enum SelectionView {
    Text(Seq<char>),
    Variants(Seq<Seq<char>>),
    Table(TableView),
    InvalidField,
    InvalidPronoun,
}

impl<'a> View for Table<'a> {
    type V = TableView;

    open spec fn view(&self) -> TableView {
        match *self {
            Table::Simple(table) => TableView::Simple(table@),
            Table::Alternatives(table) => TableView::Alternatives(table@),
            Table::Imperative(table) => TableView::Imperative(table@),
        }
    }
}

impl<'a> View for Selection<'a> {
    type V = SelectionView;

    open spec fn view(&self) -> SelectionView {
        match *self {
            Selection::Text(text) => SelectionView::Text(text@),
            Selection::Variants(forms) => SelectionView::Variants(texts(forms@)),
            Selection::Table(table) => SelectionView::Table(table@),
            Selection::InvalidField => SelectionView::InvalidField,
            Selection::InvalidPronoun => SelectionView::InvalidPronoun,
        }
    }
}

/// The text that answers a field name that names no field.
pub open spec fn invalid_field_message() -> Seq<char> {
    "Invalid field specified."@
}

/// The text that answers a pronoun that names no slot of the table.
pub open spec fn invalid_pronoun_message() -> Seq<char> {
    "Invalid pronoun specified."@
}

/// The line of a table for a slot with one form.
pub open spec fn form_field(pronoun: Pronoun, form: Seq<char>) -> Seq<char> {
    labelled(pronoun.spec_name(), debug_quoted(form))
}

/// The lines of a table for a slot with alternative forms.
pub open spec fn variants_field(pronoun: Pronoun, forms: Seq<Seq<char>>) -> Seq<char> {
    labelled(pronoun.spec_name(), block_list(quoted_each(forms)))
}

impl TableView {
    /// The shape of the table.
    pub open spec fn shape(self) -> Shape {
        match self {
            TableView::Simple(_) => Shape::Simple,
            TableView::Alternatives(_) => Shape::Alternatives,
            TableView::Imperative(_) => Shape::Imperative,
        }
    }

    /// What is stored in the slot of `pronoun`.
    pub open spec fn slot(self, pronoun: Pronoun) -> SelectionView {
        match self {
            TableView::Simple(forms) => SelectionView::Text(forms[pronoun]),
            TableView::Alternatives(forms) => SelectionView::Variants(forms[pronoun]),
            TableView::Imperative(forms) => SelectionView::Text(forms[pronoun]),
        }
    }

    /// What a tense query selects from the table: the whole table where no
    /// pronoun is given; the slot of the pronoun where the text names a
    /// pronoun that the table has a slot for; a complaint otherwise.
    pub open spec fn select(self, pronoun: Option<Seq<char>>) -> SelectionView {
        match pronoun {
            None => SelectionView::Table(self),
            Some(text) => match Pronoun::spec_parse(text) {
                None => SelectionView::InvalidPronoun,
                Some(p) => if self.shape().admits(p) {
                    self.slot(p)
                } else {
                    SelectionView::InvalidPronoun
                },
            },
        }
    }

    /// The fields of the table as they are written, one per slot, in slot
    /// order.
    pub open spec fn fields(self) -> Seq<Seq<char>> {
        match self {
            TableView::Simple(forms) => Shape::Simple.slots().map_values(
                |p: Pronoun| form_field(p, forms[p]),
            ),
            TableView::Alternatives(forms) => Shape::Alternatives.slots().map_values(
                |p: Pronoun| variants_field(p, forms[p]),
            ),
            TableView::Imperative(forms) => Shape::Imperative.slots().map_values(
                |p: Pronoun| form_field(p, forms[p]),
            ),
        }
    }

    /// The name under which the table is written.
    pub open spec fn title(self) -> Seq<char> {
        match self {
            TableView::Simple(_) => "Conjugation"@,
            TableView::Alternatives(_) => "ConjugationWithAlternatives"@,
            TableView::Imperative(_) => "ImperativeConjugation"@,
        }
    }

    /// The table written out: its title, and one field per slot.
    pub open spec fn rendered(self) -> Seq<char> {
        record_block(self.title(), self.fields())
    }
}

impl SelectionView {
    /// Whether the selection is a form of at least one character or a list of
    /// at least one form.
    pub open spec fn is_filled(self) -> bool {
        match self {
            SelectionView::Text(text) => text.len() > 0,
            SelectionView::Variants(forms) => forms.len() > 0,
            _ => false,
        }
    }

    /// The text that stands for the selection. A single string stands for
    /// itself, character for character.
    pub open spec fn rendered(self) -> Seq<char> {
        match self {
            SelectionView::Text(text) => text,
            SelectionView::Variants(forms) => inline_list(quoted_each(forms)),
            SelectionView::Table(table) => table.rendered(),
            SelectionView::InvalidField => invalid_field_message(),
            SelectionView::InvalidPronoun => invalid_pronoun_message(),
        }
    }
}

/// Writes one field per entry: the slot's name and its form between quotes.
fn form_fields(entries: &Vec<(Pronoun, &String)>) -> (fields: Vec<String>)
    ensures
        fields.len() == entries.len(),
        forall|k: int|
            0 <= k < fields.len() ==> (#[trigger] fields@[k])@ == form_field(
                entries@[k].0,
                entries@[k].1@,
            ),
{
    let mut fields: Vec<String> = Vec::new();
    let mut i: usize = 0;
    while i < entries.len()
        invariant
            i <= entries.len(),
            fields.len() == i,
            forall|k: int|
                0 <= k < i ==> (#[trigger] fields@[k])@ == form_field(
                    entries@[k].0,
                    entries@[k].1@,
                ),
        decreases entries.len() - i,
    {
        let (pronoun, form) = entries[i];
        let quoted = quote(form.as_str());
        fields.push(render_labelled(pronoun.name(), quoted.as_str()));
        i += 1;
    }
    fields
}

/// Writes one field per entry: the slot's name and the list of its forms,
/// each between quotes.
fn variants_fields(entries: &Vec<(Pronoun, &Vec<String>)>) -> (fields: Vec<String>)
    ensures
        fields.len() == entries.len(),
        forall|k: int|
            0 <= k < fields.len() ==> (#[trigger] fields@[k])@ == variants_field(
                entries@[k].0,
                texts(entries@[k].1@),
            ),
{
    let mut fields: Vec<String> = Vec::new();
    let mut i: usize = 0;
    while i < entries.len()
        invariant
            i <= entries.len(),
            fields.len() == i,
            forall|k: int|
                0 <= k < i ==> (#[trigger] fields@[k])@ == variants_field(
                    entries@[k].0,
                    texts(entries@[k].1@),
                ),
        decreases entries.len() - i,
    {
        let (pronoun, forms) = entries[i];
        let quoted = quote_all(forms);
        let list = render_block_list(&quoted);
        fields.push(render_labelled(pronoun.name(), list.as_str()));
        i += 1;
    }
    fields
}

impl<'a> Table<'a> {
    /// The shape of the table.
    pub fn shape(&self) -> (shape: Shape)
        ensures
            shape == self@.shape(),
    {
        match self {
            Table::Simple(_) => Shape::Simple,
            Table::Alternatives(_) => Shape::Alternatives,
            Table::Imperative(_) => Shape::Imperative,
        }
    }

    /// What is stored in the slot of `pronoun`, where the table has that slot.
    pub fn slot(&self, pronoun: Pronoun) -> (found: Option<Selection<'a>>)
        ensures
            found is Some <==> self@.shape().admits(pronoun),
            found matches Some(selection) ==> selection@ == self@.slot(pronoun),
    {
        match *self {
            Table::Simple(table) => Some(Selection::Text(table.get(pronoun))),
            Table::Alternatives(table) => Some(Selection::Variants(table.get(pronoun))),
            Table::Imperative(table) => match table.get(pronoun) {
                Some(form) => Some(Selection::Text(form)),
                None => None,
            },
        }
    }

    /// Answers a tense query on this table: see [`TableView::select`].
    pub fn select(&self, pronoun: Option<&str>) -> (selection: Selection<'a>)
        ensures
            selection@ == self@.select(pronoun.deep_view()),
    {
        match pronoun {
            None => Selection::Table(*self),
            Some(text) => match Pronoun::parse(text) {
                None => Selection::InvalidPronoun,
                Some(p) => match self.slot(p) {
                    Some(selection) => selection,
                    None => Selection::InvalidPronoun,
                },
            },
        }
    }

    /// Writes the table out: see [`TableView::rendered`].
    pub fn render(&self) -> (out: String)
        ensures
            out@ == self@.rendered(),
    {
        match *self {
            Table::Simple(table) => {
                let entries = table.entries();
                let fields = form_fields(&entries);
                assert(texts(fields@) =~= self@.fields());
                render_record("Conjugation", &fields)
            },
            Table::Alternatives(table) => {
                let entries = table.entries();
                let fields = variants_fields(&entries);
                assert(texts(fields@) =~= self@.fields());
                render_record("ConjugationWithAlternatives", &fields)
            },
            Table::Imperative(table) => {
                let entries = table.entries();
                let fields = form_fields(&entries);
                assert(texts(fields@) =~= self@.fields());
                render_record("ImperativeConjugation", &fields)
            },
        }
    }
}

impl<'a> Selection<'a> {
    /// Writes the text that stands for the selection: see
    /// [`SelectionView::rendered`].
    pub fn render(&self) -> (out: String)
        ensures
            out@ == self@.rendered(),
    {
        match *self {
            Selection::Text(text) => text.clone(),
            Selection::Variants(forms) => {
                let quoted = quote_all(forms);
                render_inline_list(&quoted)
            },
            Selection::Table(table) => table.render(),
            Selection::InvalidField => String::from_str("Invalid field specified."),
            Selection::InvalidPronoun => String::from_str("Invalid pronoun specified."),
        }
    }
}

} // verus!
