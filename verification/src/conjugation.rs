//! The three kinds of conjugation table and what each holds.

use crate::pronoun::Pronoun;
use crate::tense::Shape;
use crate::text::texts;
use vstd::prelude::*;

verus! {

/// A table with one form for each of the seven pronouns.
#[derive(Debug, PartialEq, Eq)]
pub struct Conjugation {
    pub yo: String,
    pub tu: String,
    pub vos: String,
    pub ud: String,
    pub nosotros: String,
    pub vosotros: String,
    pub uds: String,
}

/// A table with a list of equally valid forms for each of the seven pronouns.
#[derive(Debug, PartialEq, Eq)]
pub struct ConjugationWithAlternatives {
    pub yo: Vec<String>,
    pub tu: Vec<String>,
    pub vos: Vec<String>,
    pub ud: Vec<String>,
    pub nosotros: Vec<String>,
    pub vosotros: Vec<String>,
    pub uds: Vec<String>,
}

/// The table of the imperative: one form for each pronoun but `yo`.
#[derive(Debug, PartialEq, Eq)]
pub struct ImperativeConjugation {
    pub tu: String,
    pub vos: String,
    pub ud: String,
    pub nosotros: String,
    pub vosotros: String,
    pub uds: String,
}

impl View for Conjugation {
    type V = Map<Pronoun, Seq<char>>;

    /// The form stored for each pronoun.
    open spec fn view(&self) -> Map<Pronoun, Seq<char>> {
        Map::new(
            |p: Pronoun| true,
            |p: Pronoun|
                match p {
                    Pronoun::Yo => self.yo@,
                    Pronoun::Tu => self.tu@,
                    Pronoun::Vos => self.vos@,
                    Pronoun::Ud => self.ud@,
                    Pronoun::Nosotros => self.nosotros@,
                    Pronoun::Vosotros => self.vosotros@,
                    Pronoun::Uds => self.uds@,
                },
        )
    }
}

impl View for ConjugationWithAlternatives {
    type V = Map<Pronoun, Seq<Seq<char>>>;

    /// The forms stored for each pronoun, in the order in which they are stored.
    open spec fn view(&self) -> Map<Pronoun, Seq<Seq<char>>> {
        Map::new(
            |p: Pronoun| true,
            |p: Pronoun|
                match p {
                    Pronoun::Yo => texts(self.yo@),
                    Pronoun::Tu => texts(self.tu@),
                    Pronoun::Vos => texts(self.vos@),
                    Pronoun::Ud => texts(self.ud@),
                    Pronoun::Nosotros => texts(self.nosotros@),
                    Pronoun::Vosotros => texts(self.vosotros@),
                    Pronoun::Uds => texts(self.uds@),
                },
        )
    }
}

impl View for ImperativeConjugation {
    type V = Map<Pronoun, Seq<char>>;

    /// The form stored for each pronoun that the imperative has.
    open spec fn view(&self) -> Map<Pronoun, Seq<char>> {
        Map::new(
            |p: Pronoun| p != Pronoun::Yo,
            |p: Pronoun|
                match p {
                    Pronoun::Yo => Seq::empty(),
                    Pronoun::Tu => self.tu@,
                    Pronoun::Vos => self.vos@,
                    Pronoun::Ud => self.ud@,
                    Pronoun::Nosotros => self.nosotros@,
                    Pronoun::Vosotros => self.vosotros@,
                    Pronoun::Uds => self.uds@,
                },
        )
    }
}

impl Conjugation {
    /// The form stored for `pronoun`.
    pub fn get(&self, pronoun: Pronoun) -> (form: &String)
        ensures
            form@ == self@[pronoun],
    {
        match pronoun {
            Pronoun::Yo => &self.yo,
            Pronoun::Tu => &self.tu,
            Pronoun::Vos => &self.vos,
            Pronoun::Ud => &self.ud,
            Pronoun::Nosotros => &self.nosotros,
            Pronoun::Vosotros => &self.vosotros,
            Pronoun::Uds => &self.uds,
        }
    }
}

impl ConjugationWithAlternatives {
    /// The forms stored for `pronoun`.
    pub fn get(&self, pronoun: Pronoun) -> (forms: &Vec<String>)
        ensures
            texts(forms@) == self@[pronoun],
    {
        match pronoun {
            Pronoun::Yo => &self.yo,
            Pronoun::Tu => &self.tu,
            Pronoun::Vos => &self.vos,
            Pronoun::Ud => &self.ud,
            Pronoun::Nosotros => &self.nosotros,
            Pronoun::Vosotros => &self.vosotros,
            Pronoun::Uds => &self.uds,
        }
    }
}

impl ImperativeConjugation {
    /// The form stored for `pronoun`, where the imperative has one.
    pub fn get(&self, pronoun: Pronoun) -> (form: Option<&String>)
        ensures
            form is Some <==> Shape::Imperative.admits(pronoun),
            form matches Some(f) ==> f@ == self@[pronoun],
    {
        match pronoun {
            Pronoun::Yo => None,
            Pronoun::Tu => Some(&self.tu),
            Pronoun::Vos => Some(&self.vos),
            Pronoun::Ud => Some(&self.ud),
            Pronoun::Nosotros => Some(&self.nosotros),
            Pronoun::Vosotros => Some(&self.vosotros),
            Pronoun::Uds => Some(&self.uds),
        }
    }
}

/// Every table has a slot for exactly the pronouns that its shape admits.
pub proof fn lemma_table_slots(
    simple: Conjugation,
    alternatives: ConjugationWithAlternatives,
    imperative: ImperativeConjugation,
    pronoun: Pronoun,
)
    ensures
        simple@.dom().contains(pronoun) <==> Shape::Simple.admits(pronoun),
        alternatives@.dom().contains(pronoun) <==> Shape::Alternatives.admits(pronoun),
        imperative@.dom().contains(pronoun) <==> Shape::Imperative.admits(pronoun),
{
}

/// Whether `entries` lists the slots of a table of `shape` in order, each
/// with the characters that `forms` has for it.
pub open spec fn lists_forms(
    entries: Seq<(Pronoun, &String)>,
    shape: Shape,
    forms: Map<Pronoun, Seq<char>>,
) -> bool {
    &&& entries.len() == shape.slots().len()
    &&& forall|k: int|
        0 <= k < entries.len() ==> (#[trigger] entries[k]).0 == shape.slots()[k] && entries[k].1@
            == forms[shape.slots()[k]]
}

/// Whether `entries` lists the slots of a table of `shape` in order, each
/// with the lists of characters that `forms` has for it.
pub open spec fn lists_alternatives(
    entries: Seq<(Pronoun, &Vec<String>)>,
    shape: Shape,
    forms: Map<Pronoun, Seq<Seq<char>>>,
) -> bool {
    &&& entries.len() == shape.slots().len()
    &&& forall|k: int|
        0 <= k < entries.len() ==> (#[trigger] entries[k]).0 == shape.slots()[k] && texts(
            entries[k].1@,
        ) == forms[shape.slots()[k]]
}

impl Conjugation {
    /// The slots with their forms, in table order.
    pub fn entries(&self) -> (entries: Vec<(Pronoun, &String)>)
        ensures
            lists_forms(entries@, Shape::Simple, self@),
    {
        let mut entries: Vec<(Pronoun, &String)> = Vec::new();
        entries.push((Pronoun::Yo, &self.yo));
        entries.push((Pronoun::Tu, &self.tu));
        entries.push((Pronoun::Vos, &self.vos));
        entries.push((Pronoun::Ud, &self.ud));
        entries.push((Pronoun::Nosotros, &self.nosotros));
        entries.push((Pronoun::Vosotros, &self.vosotros));
        entries.push((Pronoun::Uds, &self.uds));
        entries
    }
}

impl ConjugationWithAlternatives {
    /// The slots with their lists of forms, in table order.
    pub fn entries(&self) -> (entries: Vec<(Pronoun, &Vec<String>)>)
        ensures
            lists_alternatives(entries@, Shape::Alternatives, self@),
    {
        let mut entries: Vec<(Pronoun, &Vec<String>)> = Vec::new();
        entries.push((Pronoun::Yo, &self.yo));
        entries.push((Pronoun::Tu, &self.tu));
        entries.push((Pronoun::Vos, &self.vos));
        entries.push((Pronoun::Ud, &self.ud));
        entries.push((Pronoun::Nosotros, &self.nosotros));
        entries.push((Pronoun::Vosotros, &self.vosotros));
        entries.push((Pronoun::Uds, &self.uds));
        entries
    }
}

impl ImperativeConjugation {
    /// The slots with their forms, in table order.
    pub fn entries(&self) -> (entries: Vec<(Pronoun, &String)>)
        ensures
            lists_forms(entries@, Shape::Imperative, self@),
    {
        let mut entries: Vec<(Pronoun, &String)> = Vec::new();
        entries.push((Pronoun::Tu, &self.tu));
        entries.push((Pronoun::Vos, &self.vos));
        entries.push((Pronoun::Ud, &self.ud));
        entries.push((Pronoun::Nosotros, &self.nosotros));
        entries.push((Pronoun::Vosotros, &self.vosotros));
        entries.push((Pronoun::Uds, &self.uds));
        entries
    }
}

} // verus!
