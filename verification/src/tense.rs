//! The tenses a verb file has a table for, the shape of each table, and the
//! names by which the command line selects a tense.

use crate::pronoun::Pronoun;
use crate::text::same_text;
use vstd::prelude::*;

verus! {

/// The three shapes a conjugation table comes in.
#[derive(Clone, Copy, Debug, PartialEq, Eq, Structural)]
pub enum Shape {
    /// Seven slots, one form each.
    Simple,
    /// Seven slots, each with a list of equally valid forms.
    Alternatives,
    /// Six slots, one form each: there is no first person singular.
    Imperative,
}

impl Shape {
    /// Whether a table of this shape has a slot for `pronoun`.
    pub open spec fn admits(self, pronoun: Pronoun) -> bool {
        self != Shape::Imperative || pronoun != Pronoun::Yo
    }

    /// The slots of a table of this shape, in the order the table lists them.
    pub open spec fn slots(self) -> Seq<Pronoun> {
        if self == Shape::Imperative {
            Pronoun::all().drop_first()
        } else {
            Pronoun::all()
        }
    }

    /// Tells whether a table of this shape has a slot for `pronoun`.
    pub fn accepts(self, pronoun: Pronoun) -> (yes: bool)
        ensures
            yes == self.admits(pronoun),
    {
        match (self, pronoun) {
            (Shape::Imperative, Pronoun::Yo) => false,
            _ => true,
        }
    }

    /// The slots of a shape are exactly the pronouns it admits, each once.
    pub proof fn lemma_slots_are_admitted(self, pronoun: Pronoun)
        ensures
            self.slots().contains(pronoun) <==> self.admits(pronoun),
            self.slots().no_duplicates(),
    {
        let all = Pronoun::all();
        assert(all[0] == Pronoun::Yo && all[1] == Pronoun::Tu && all[2] == Pronoun::Vos && all[3]
            == Pronoun::Ud && all[4] == Pronoun::Nosotros && all[5] == Pronoun::Vosotros && all[6]
            == Pronoun::Uds);
        let slots = self.slots();
        if self == Shape::Imperative {
            assert(slots[0] == Pronoun::Tu && slots[1] == Pronoun::Vos && slots[2] == Pronoun::Ud
                && slots[3] == Pronoun::Nosotros && slots[4] == Pronoun::Vosotros && slots[5]
                == Pronoun::Uds);
        }
    }
}

/// A tense, or rather one table of a verb file: eleven tenses of the
/// indicative and subjunctive with one form per person, the two subjunctive
/// tenses that have alternative forms, and the imperative.
#[derive(Clone, Copy, Debug, PartialEq, Eq, Structural)]
pub enum Tense {
    PresenteIndicativo,
    PreteritoPerfectoSimple,
    PreteritoImperfecto,
    FuturoSimple,
    CondicionalSimple,
    PresentePerfecto,
    PreteritoPluscuamperfecto,
    FuturoPerfecto,
    CondicionalPerfecto,
    PresenteSubjuntivo,
    PreteritoPerfectoSubjuntivo,
    ImperfectoSubjuntivo,
    PluscuamperfectoSubjuntivo,
    Imperativo,
}

impl Tense {
    /// The shape of the table that holds this tense.
    pub open spec fn spec_shape(self) -> Shape {
        match self {
            Tense::ImperfectoSubjuntivo | Tense::PluscuamperfectoSubjuntivo => Shape::Alternatives,
            Tense::Imperativo => Shape::Imperative,
            _ => Shape::Simple,
        }
    }

    /// The name that selects this tense on the command line.
    pub open spec fn spec_command(self) -> Seq<char> {
        match self {
            Tense::PresenteIndicativo => "presente"@,
            Tense::PreteritoPerfectoSimple => "preterito"@,
            Tense::PreteritoImperfecto => "imperfecto"@,
            Tense::FuturoSimple => "futuro"@,
            Tense::CondicionalSimple => "condicional"@,
            Tense::PresentePerfecto => "pres-perf"@,
            Tense::PreteritoPluscuamperfecto => "pret-plus"@,
            Tense::FuturoPerfecto => "fut-perf"@,
            Tense::CondicionalPerfecto => "cond-perf"@,
            Tense::PresenteSubjuntivo => "pres-subj"@,
            Tense::PreteritoPerfectoSubjuntivo => "pret-perf-subj"@,
            Tense::ImperfectoSubjuntivo => "imp-subj"@,
            Tense::PluscuamperfectoSubjuntivo => "plus-subj"@,
            Tense::Imperativo => "imperativo"@,
        }
    }

    /// The tense that a command name selects, if it selects one. Names are
    /// matched exactly.
    pub open spec fn spec_from_command(name: Seq<char>) -> Option<Tense> {
        if name == "presente"@ {
            Some(Tense::PresenteIndicativo)
        } else if name == "preterito"@ {
            Some(Tense::PreteritoPerfectoSimple)
        } else if name == "imperfecto"@ {
            Some(Tense::PreteritoImperfecto)
        } else if name == "futuro"@ {
            Some(Tense::FuturoSimple)
        } else if name == "condicional"@ {
            Some(Tense::CondicionalSimple)
        } else if name == "pres-perf"@ {
            Some(Tense::PresentePerfecto)
        } else if name == "pret-plus"@ {
            Some(Tense::PreteritoPluscuamperfecto)
        } else if name == "fut-perf"@ {
            Some(Tense::FuturoPerfecto)
        } else if name == "cond-perf"@ {
            Some(Tense::CondicionalPerfecto)
        } else if name == "pres-subj"@ {
            Some(Tense::PresenteSubjuntivo)
        } else if name == "pret-perf-subj"@ {
            Some(Tense::PreteritoPerfectoSubjuntivo)
        } else if name == "imp-subj"@ {
            Some(Tense::ImperfectoSubjuntivo)
        } else if name == "plus-subj"@ {
            Some(Tense::PluscuamperfectoSubjuntivo)
        } else if name == "imperativo"@ {
            Some(Tense::Imperativo)
        } else {
            None
        }
    }

    /// The shape of the table that holds this tense.
    pub fn shape(self) -> (shape: Shape)
        ensures
            shape == self.spec_shape(),
    {
        match self {
            Tense::ImperfectoSubjuntivo | Tense::PluscuamperfectoSubjuntivo => Shape::Alternatives,
            Tense::Imperativo => Shape::Imperative,
            _ => Shape::Simple,
        }
    }

    /// The name that selects this tense on the command line.
    pub fn command(self) -> (name: &'static str)
        ensures
            name@ == self.spec_command(),
    {
        match self {
            Tense::PresenteIndicativo => "presente",
            Tense::PreteritoPerfectoSimple => "preterito",
            Tense::PreteritoImperfecto => "imperfecto",
            Tense::FuturoSimple => "futuro",
            Tense::CondicionalSimple => "condicional",
            Tense::PresentePerfecto => "pres-perf",
            Tense::PreteritoPluscuamperfecto => "pret-plus",
            Tense::FuturoPerfecto => "fut-perf",
            Tense::CondicionalPerfecto => "cond-perf",
            Tense::PresenteSubjuntivo => "pres-subj",
            Tense::PreteritoPerfectoSubjuntivo => "pret-perf-subj",
            Tense::ImperfectoSubjuntivo => "imp-subj",
            Tense::PluscuamperfectoSubjuntivo => "plus-subj",
            Tense::Imperativo => "imperativo",
        }
    }

    /// Finds the tense that a command name selects, if it selects one.
    pub fn from_command(name: &str) -> (found: Option<Tense>)
        ensures
            found == Tense::spec_from_command(name@),
    {
        if same_text(name, "presente") {
            Some(Tense::PresenteIndicativo)
        } else if same_text(name, "preterito") {
            Some(Tense::PreteritoPerfectoSimple)
        } else if same_text(name, "imperfecto") {
            Some(Tense::PreteritoImperfecto)
        } else if same_text(name, "futuro") {
            Some(Tense::FuturoSimple)
        } else if same_text(name, "condicional") {
            Some(Tense::CondicionalSimple)
        } else if same_text(name, "pres-perf") {
            Some(Tense::PresentePerfecto)
        } else if same_text(name, "pret-plus") {
            Some(Tense::PreteritoPluscuamperfecto)
        } else if same_text(name, "fut-perf") {
            Some(Tense::FuturoPerfecto)
        } else if same_text(name, "cond-perf") {
            Some(Tense::CondicionalPerfecto)
        } else if same_text(name, "pres-subj") {
            Some(Tense::PresenteSubjuntivo)
        } else if same_text(name, "pret-perf-subj") {
            Some(Tense::PreteritoPerfectoSubjuntivo)
        } else if same_text(name, "imp-subj") {
            Some(Tense::ImperfectoSubjuntivo)
        } else if same_text(name, "plus-subj") {
            Some(Tense::PluscuamperfectoSubjuntivo)
        } else if same_text(name, "imperativo") {
            Some(Tense::Imperativo)
        } else {
            None
        }
    }

    /// The command names are pairwise distinct.
    pub proof fn lemma_commands_distinct(a: Tense, b: Tense)
        ensures
            a.spec_command() == b.spec_command() <==> a == b,
    {
        reveal_strlit("presente");
        reveal_strlit("preterito");
        reveal_strlit("imperfecto");
        reveal_strlit("futuro");
        reveal_strlit("condicional");
        reveal_strlit("pres-perf");
        reveal_strlit("pret-plus");
        reveal_strlit("fut-perf");
        reveal_strlit("cond-perf");
        reveal_strlit("pres-subj");
        reveal_strlit("pret-perf-subj");
        reveal_strlit("imp-subj");
        reveal_strlit("plus-subj");
        reveal_strlit("imperativo");
        if a != b && a.spec_command() == b.spec_command() {
            let s = a.spec_command();
            let t = b.spec_command();
            assert(s.len() == t.len());
            assert(forall|i: int| 0 <= i < s.len() ==> s[i] == t[i]);
            assert(s[2] == t[2] && s[3] == t[3] && s[5] == t[5]);
        }
    }

    /// Selecting by name undoes naming, and nothing but a tense's own command
    /// name selects it.
    pub proof fn lemma_from_command_inverts_command(name: Seq<char>, tense: Tense)
        ensures
            Tense::spec_from_command(tense.spec_command()) == Some(tense),
            Tense::spec_from_command(name) == Some(tense) <==> name == tense.spec_command(),
    {
        Tense::lemma_commands_distinct(tense, Tense::PresenteIndicativo);
        Tense::lemma_commands_distinct(tense, Tense::PreteritoPerfectoSimple);
        Tense::lemma_commands_distinct(tense, Tense::PreteritoImperfecto);
        Tense::lemma_commands_distinct(tense, Tense::FuturoSimple);
        Tense::lemma_commands_distinct(tense, Tense::CondicionalSimple);
        Tense::lemma_commands_distinct(tense, Tense::PresentePerfecto);
        Tense::lemma_commands_distinct(tense, Tense::PreteritoPluscuamperfecto);
        Tense::lemma_commands_distinct(tense, Tense::FuturoPerfecto);
        Tense::lemma_commands_distinct(tense, Tense::CondicionalPerfecto);
        Tense::lemma_commands_distinct(tense, Tense::PresenteSubjuntivo);
        Tense::lemma_commands_distinct(tense, Tense::PreteritoPerfectoSubjuntivo);
        Tense::lemma_commands_distinct(tense, Tense::ImperfectoSubjuntivo);
        Tense::lemma_commands_distinct(tense, Tense::PluscuamperfectoSubjuntivo);
        Tense::lemma_commands_distinct(tense, Tense::Imperativo);
    }
}

} // verus!
