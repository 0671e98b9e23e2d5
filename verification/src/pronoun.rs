use crate::text::same_text;
use vstd::prelude::*;

verus! {

/// The grammatical persons a conjugation table has a slot for, in the order
/// in which a table lists them.
#[derive(Clone, Copy, Debug, PartialEq, Eq, Structural)]
pub enum Pronoun {
    Yo,
    Tu,
    Vos,
    Ud,
    Nosotros,
    Vosotros,
    Uds,
}

impl Pronoun {
    /// The slot name of a pronoun, as it is written in a verb file and on the
    /// command line.
    pub open spec fn spec_name(self) -> Seq<char> {
        match self {
            Pronoun::Yo => "yo"@,
            Pronoun::Tu => "tu"@,
            Pronoun::Vos => "vos"@,
            Pronoun::Ud => "ud"@,
            Pronoun::Nosotros => "nosotros"@,
            Pronoun::Vosotros => "vosotros"@,
            Pronoun::Uds => "uds"@,
        }
    }

    /// The pronoun that a piece of text names, if it names one. Names are
    /// matched exactly: no trimming, no change of case.
    pub open spec fn spec_parse(text: Seq<char>) -> Option<Pronoun> {
        if text == "yo"@ {
            Some(Pronoun::Yo)
        } else if text == "tu"@ {
            Some(Pronoun::Tu)
        } else if text == "vos"@ {
            Some(Pronoun::Vos)
        } else if text == "ud"@ {
            Some(Pronoun::Ud)
        } else if text == "nosotros"@ {
            Some(Pronoun::Nosotros)
        } else if text == "vosotros"@ {
            Some(Pronoun::Vosotros)
        } else if text == "uds"@ {
            Some(Pronoun::Uds)
        } else {
            None
        }
    }

    /// All seven pronouns in slot order.
    pub open spec fn all() -> Seq<Pronoun> {
        seq![
            Pronoun::Yo,
            Pronoun::Tu,
            Pronoun::Vos,
            Pronoun::Ud,
            Pronoun::Nosotros,
            Pronoun::Vosotros,
            Pronoun::Uds,
        ]
    }

    /// The slot name of the pronoun.
    pub fn name(self) -> (name: &'static str)
        ensures
            name@ == self.spec_name(),
    {
        match self {
            Pronoun::Yo => "yo",
            Pronoun::Tu => "tu",
            Pronoun::Vos => "vos",
            Pronoun::Ud => "ud",
            Pronoun::Nosotros => "nosotros",
            Pronoun::Vosotros => "vosotros",
            Pronoun::Uds => "uds",
        }
    }

    /// Finds the pronoun that `text` names, if it names one.
    pub fn parse(text: &str) -> (found: Option<Pronoun>)
        ensures
            found == Pronoun::spec_parse(text@),
    {
        if same_text(text, "yo") {
            Some(Pronoun::Yo)
        } else if same_text(text, "tu") {
            Some(Pronoun::Tu)
        } else if same_text(text, "vos") {
            Some(Pronoun::Vos)
        } else if same_text(text, "ud") {
            Some(Pronoun::Ud)
        } else if same_text(text, "nosotros") {
            Some(Pronoun::Nosotros)
        } else if same_text(text, "vosotros") {
            Some(Pronoun::Vosotros)
        } else if same_text(text, "uds") {
            Some(Pronoun::Uds)
        } else {
            None
        }
    }

    /// The seven slot names are pairwise distinct.
    pub proof fn lemma_names_distinct(a: Pronoun, b: Pronoun)
        ensures
            a.spec_name() == b.spec_name() <==> a == b,
    {
        reveal_strlit("yo");
        reveal_strlit("tu");
        reveal_strlit("vos");
        reveal_strlit("ud");
        reveal_strlit("nosotros");
        reveal_strlit("vosotros");
        reveal_strlit("uds");
        if a != b && a.spec_name() == b.spec_name() {
            let s = a.spec_name();
            let t = b.spec_name();
            assert(s.len() == t.len());
            assert(s[0] == t[0]);
        }
    }

    /// Parsing undoes naming, and nothing but a pronoun's own name parses to it.
    pub proof fn lemma_parse_inverts_name(text: Seq<char>, p: Pronoun)
        ensures
            Pronoun::spec_parse(p.spec_name()) == Some(p),
            Pronoun::spec_parse(text) == Some(p) <==> text == p.spec_name(),
    {
        Pronoun::lemma_names_distinct(p, Pronoun::Yo);
        Pronoun::lemma_names_distinct(p, Pronoun::Tu);
        Pronoun::lemma_names_distinct(p, Pronoun::Vos);
        Pronoun::lemma_names_distinct(p, Pronoun::Ud);
        Pronoun::lemma_names_distinct(p, Pronoun::Nosotros);
        Pronoun::lemma_names_distinct(p, Pronoun::Vosotros);
        Pronoun::lemma_names_distinct(p, Pronoun::Uds);
    }
}

} // verus!
