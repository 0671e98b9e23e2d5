//! A verb: its scalar fields and its tables, one per tense.

use crate::conjugation::{Conjugation, ConjugationWithAlternatives, ImperativeConjugation};
use crate::pronoun::Pronoun;
use crate::selection::{invalid_pronoun_message, Selection, SelectionView, Table, TableView};
use crate::tense::{Shape, Tense};
use crate::text::same_text;
use vstd::prelude::*;

verus! {

/// Everything a verb file holds. Every field is required: a value of this
/// type is a whole verb, never part of one.
#[derive(Debug, PartialEq, Eq)]
pub struct VerbConjugation {
    pub meaning: String,
    pub infinitivo: String,
    pub gerundio: String,
    pub participio_pasado: String,
    pub presente_indicativo: Conjugation,
    pub preterito_perfecto_simple: Conjugation,
    pub preterito_imperfecto: Conjugation,
    pub futuro_simple: Conjugation,
    pub condicional_simple: Conjugation,
    pub presente_perfecto: Conjugation,
    pub preterito_pluscuamperfecto: Conjugation,
    pub futuro_perfecto: Conjugation,
    pub condicional_perfecto: Conjugation,
    pub presente_subjuntivo: Conjugation,
    pub preterito_perfecto_subjuntivo: Conjugation,
    pub imperfecto_subjuntivo: ConjugationWithAlternatives,
    pub pluscuamperfecto_subjuntivo: ConjugationWithAlternatives,
    pub imperativo: ImperativeConjugation,
}

/// What a verb holds, as plain characters: the scalar fields, and the table
/// of every tense.
pub struct VerbView {
    pub meaning: Seq<char>,
    pub infinitivo: Seq<char>,
    pub gerundio: Seq<char>,
    pub participio_pasado: Seq<char>,
    pub tables: Map<Tense, TableView>,
}

impl View for VerbConjugation {
    type V = VerbView;

    open spec fn view(&self) -> VerbView {
        VerbView {
            meaning: self.meaning@,
            infinitivo: self.infinitivo@,
            gerundio: self.gerundio@,
            participio_pasado: self.participio_pasado@,
            tables: Map::new(
                |tense: Tense| true,
                |tense: Tense|
                    match tense {
                    Tense::PresenteIndicativo => TableView::Simple(self.presente_indicativo@),
                    Tense::PreteritoPerfectoSimple => TableView::Simple(self.preterito_perfecto_simple@),
                    Tense::PreteritoImperfecto => TableView::Simple(self.preterito_imperfecto@),
                    Tense::FuturoSimple => TableView::Simple(self.futuro_simple@),
                    Tense::CondicionalSimple => TableView::Simple(self.condicional_simple@),
                    Tense::PresentePerfecto => TableView::Simple(self.presente_perfecto@),
                    Tense::PreteritoPluscuamperfecto => TableView::Simple(self.preterito_pluscuamperfecto@),
                    Tense::FuturoPerfecto => TableView::Simple(self.futuro_perfecto@),
                    Tense::CondicionalPerfecto => TableView::Simple(self.condicional_perfecto@),
                    Tense::PresenteSubjuntivo => TableView::Simple(self.presente_subjuntivo@),
                    Tense::PreteritoPerfectoSubjuntivo => TableView::Simple(self.preterito_perfecto_subjuntivo@),
                    Tense::ImperfectoSubjuntivo => TableView::Alternatives(self.imperfecto_subjuntivo@),
                    Tense::PluscuamperfectoSubjuntivo => TableView::Alternatives(self.pluscuamperfecto_subjuntivo@),
                    Tense::Imperativo => TableView::Imperative(self.imperativo@),
                    },
            ),
        }
    }
}

impl VerbView {
    /// What a field query selects: the scalar field that `name` names, or a
    /// complaint where it names none. Names are matched exactly.
    pub open spec fn field(self, name: Seq<char>) -> SelectionView {
        if name == "meaning"@ {
            SelectionView::Text(self.meaning)
        } else if name == "gerundio"@ {
            SelectionView::Text(self.gerundio)
        } else if name == "participio-pasado"@ {
            SelectionView::Text(self.participio_pasado)
        } else {
            SelectionView::InvalidField
        }
    }

    /// What a tense query selects: see [`TableView::select`].
    pub open spec fn lookup(self, tense: Tense, pronoun: Option<Seq<char>>) -> SelectionView {
        self.tables[tense].select(pronoun)
    }
}

impl VerbConjugation {
    /// The table of `tense`.
    pub fn table(&self, tense: Tense) -> (table: Table<'_>)
        ensures
            table@ == self@.tables[tense],
    {
        match tense {
            Tense::PresenteIndicativo => Table::Simple(&self.presente_indicativo),
            Tense::PreteritoPerfectoSimple => Table::Simple(&self.preterito_perfecto_simple),
            Tense::PreteritoImperfecto => Table::Simple(&self.preterito_imperfecto),
            Tense::FuturoSimple => Table::Simple(&self.futuro_simple),
            Tense::CondicionalSimple => Table::Simple(&self.condicional_simple),
            Tense::PresentePerfecto => Table::Simple(&self.presente_perfecto),
            Tense::PreteritoPluscuamperfecto => Table::Simple(&self.preterito_pluscuamperfecto),
            Tense::FuturoPerfecto => Table::Simple(&self.futuro_perfecto),
            Tense::CondicionalPerfecto => Table::Simple(&self.condicional_perfecto),
            Tense::PresenteSubjuntivo => Table::Simple(&self.presente_subjuntivo),
            Tense::PreteritoPerfectoSubjuntivo => Table::Simple(&self.preterito_perfecto_subjuntivo),
            Tense::ImperfectoSubjuntivo => Table::Alternatives(&self.imperfecto_subjuntivo),
            Tense::PluscuamperfectoSubjuntivo => Table::Alternatives(&self.pluscuamperfecto_subjuntivo),
            Tense::Imperativo => Table::Imperative(&self.imperativo),
        }
    }

    /// Answers a field query: see [`VerbView::field`].
    pub fn field(&self, name: &str) -> (selection: Selection<'_>)
        ensures
            selection@ == self@.field(name@),
    {
        if same_text(name, "meaning") {
            Selection::Text(&self.meaning)
        } else if same_text(name, "gerundio") {
            Selection::Text(&self.gerundio)
        } else if same_text(name, "participio-pasado") {
            Selection::Text(&self.participio_pasado)
        } else {
            Selection::InvalidField
        }
    }

    /// Answers a tense query: see [`VerbView::lookup`].
    pub fn lookup(&self, tense: Tense, pronoun: Option<&str>) -> (selection: Selection<'_>)
        ensures
            selection@ == self@.lookup(tense, pronoun.deep_view()),
    {
        self.table(tense).select(pronoun)
    }

    /// Every tense has a table, and the table of a tense has the shape of the
    /// tense.
    pub proof fn lemma_table_has_shape_of_tense(self, tense: Tense)
        ensures
            self@.tables.dom().contains(tense),
            self@.tables[tense].shape() == tense.spec_shape(),
    {
    }

    /// Looking up a tense under the name of a pronoun that the tense has a
    /// slot for selects what is stored in that slot, as it is stored: a
    /// single form for a tense of one form per pronoun and for the
    /// imperative, the list of forms for a tense with alternatives. The text
    /// that answers for a single form is the form itself.
    pub proof fn lemma_lookup_selects_stored(self, tense: Tense, pronoun: Pronoun)
        requires
            tense.spec_shape().admits(pronoun),
        ensures
            self@.lookup(tense, Some(pronoun.spec_name())) == self@.tables[tense].slot(pronoun),
            match self@.tables[tense] {
                TableView::Simple(stored) => self@.tables[tense].slot(pronoun)
                    == SelectionView::Text(stored[pronoun]),
                TableView::Imperative(stored) => self@.tables[tense].slot(pronoun)
                    == SelectionView::Text(stored[pronoun]),
                TableView::Alternatives(stored) => self@.tables[tense].slot(pronoun)
                    == SelectionView::Variants(stored[pronoun]),
            },
            self@.tables[tense].slot(pronoun) matches SelectionView::Text(form) ==> self@.lookup(
                tense,
                Some(pronoun.spec_name()),
            ).rendered() == form,
    {
        Pronoun::lemma_parse_inverts_name(pronoun.spec_name(), pronoun);
    }

    /// Where the slot of a pronoun that the tense has a slot for holds a form
    /// of at least one character, or a list of at least one form, looking it
    /// up selects a form or a list that is not empty either.
    pub proof fn lemma_lookup_of_filled_slot_is_filled(self, tense: Tense, pronoun: Pronoun)
        requires
            tense.spec_shape().admits(pronoun),
            self@.tables[tense].slot(pronoun).is_filled(),
        ensures
            self@.lookup(tense, Some(pronoun.spec_name())).is_filled(),
    {
        self.lemma_lookup_selects_stored(tense, pronoun);
    }

    /// Looking up one of the two tenses with alternatives under the name of a
    /// pronoun selects the forms stored for that pronoun: as many as are
    /// stored, each as it is stored, in stored order.
    pub proof fn lemma_alternatives_keep_order(self, tense: Tense, pronoun: Pronoun)
        requires
            tense.spec_shape() == Shape::Alternatives,
        ensures
            ({
                let stored = if tense == Tense::ImperfectoSubjuntivo {
                    self.imperfecto_subjuntivo@[pronoun]
                } else {
                    self.pluscuamperfecto_subjuntivo@[pronoun]
                };
                &&& self@.lookup(tense, Some(pronoun.spec_name())) matches SelectionView::Variants(
                    forms,
                )
                &&& forms.len() == stored.len()
                &&& forall|i: int| 0 <= i < forms.len() ==> forms[i] == stored[i]
            }),
    {
        Pronoun::lemma_parse_inverts_name(pronoun.spec_name(), pronoun);
    }

    /// Looking up the imperative under `yo` selects nothing from the table:
    /// the answer is the complaint about the pronoun.
    pub proof fn lemma_imperative_has_no_yo(self)
        ensures
            self@.lookup(Tense::Imperativo, Some("yo"@)) == SelectionView::InvalidPronoun,
            self@.lookup(Tense::Imperativo, Some("yo"@)).rendered() == invalid_pronoun_message(),
    {
        Pronoun::lemma_parse_inverts_name("yo"@, Pronoun::Yo);
    }
}

} // verus!
