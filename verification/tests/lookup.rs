use conjugar::conjugation::{Conjugation, ConjugationWithAlternatives, ImperativeConjugation};
use conjugar::pronoun::Pronoun;
use conjugar::query::{
    answer, handle_imperative_tense, handle_tense, handle_tense_with_alternatives, resolve, Query,
    TenseArgs, TenseQuery,
};
use conjugar::selection::{Selection, Table};
use conjugar::tense::{Shape, Tense};
use conjugar::verb::VerbConjugation;

const PRONOUNS: [Pronoun; 7] = [
    Pronoun::Yo,
    Pronoun::Tu,
    Pronoun::Vos,
    Pronoun::Ud,
    Pronoun::Nosotros,
    Pronoun::Vosotros,
    Pronoun::Uds,
];

const TENSES: [Tense; 14] = [
    Tense::PresenteIndicativo,
    Tense::PreteritoPerfectoSimple,
    Tense::PreteritoImperfecto,
    Tense::FuturoSimple,
    Tense::CondicionalSimple,
    Tense::PresentePerfecto,
    Tense::PreteritoPluscuamperfecto,
    Tense::FuturoPerfecto,
    Tense::CondicionalPerfecto,
    Tense::PresenteSubjuntivo,
    Tense::PreteritoPerfectoSubjuntivo,
    Tense::ImperfectoSubjuntivo,
    Tense::PluscuamperfectoSubjuntivo,
    Tense::Imperativo,
];

fn simple(forms: [&str; 7]) -> Conjugation {
    Conjugation {
        yo: forms[0].to_string(),
        tu: forms[1].to_string(),
        vos: forms[2].to_string(),
        ud: forms[3].to_string(),
        nosotros: forms[4].to_string(),
        vosotros: forms[5].to_string(),
        uds: forms[6].to_string(),
    }
}

fn compound(auxiliary: [&str; 7]) -> Conjugation {
    simple(auxiliary.map(|a| format!("{a} hablado")).each_ref().map(|s| s.as_str()))
}

fn pair(first: &str, second: &str) -> Vec<String> {
    vec![first.to_string(), second.to_string()]
}

fn hablar() -> VerbConjugation {
    VerbConjugation {
        meaning: "to speak, to talk".to_string(),
        infinitivo: "hablar".to_string(),
        gerundio: "hablando".to_string(),
        participio_pasado: "hablado".to_string(),
        presente_indicativo: simple([
            "hablo", "hablas", "hablás", "habla", "hablamos", "habláis", "hablan",
        ]),
        preterito_perfecto_simple: simple([
            "hablé", "hablaste", "hablaste", "habló", "hablamos", "hablasteis", "hablaron",
        ]),
        preterito_imperfecto: simple([
            "hablaba", "hablabas", "hablabas", "hablaba", "hablábamos", "hablabais", "hablaban",
        ]),
        futuro_simple: simple([
            "hablaré", "hablarás", "hablarás", "hablará", "hablaremos", "hablaréis", "hablarán",
        ]),
        condicional_simple: simple([
            "hablaría", "hablarías", "hablarías", "hablaría", "hablaríamos", "hablaríais",
            "hablarían",
        ]),
        presente_perfecto: compound(["he", "has", "has", "ha", "hemos", "habéis", "han"]),
        preterito_pluscuamperfecto: compound([
            "había", "habías", "habías", "había", "habíamos", "habíais", "habían",
        ]),
        futuro_perfecto: compound([
            "habré", "habrás", "habrás", "habrá", "habremos", "habréis", "habrán",
        ]),
        condicional_perfecto: compound([
            "habría", "habrías", "habrías", "habría", "habríamos", "habríais", "habrían",
        ]),
        presente_subjuntivo: simple([
            "hable", "hables", "hables", "hable", "hablemos", "habléis", "hablen",
        ]),
        preterito_perfecto_subjuntivo: compound([
            "haya", "hayas", "hayas", "haya", "hayamos", "hayáis", "hayan",
        ]),
        imperfecto_subjuntivo: ConjugationWithAlternatives {
            yo: pair("hablara", "hablase"),
            tu: pair("hablaras", "hablases"),
            vos: pair("hablaras", "hablases"),
            ud: pair("hablara", "hablase"),
            nosotros: pair("habláramos", "hablásemos"),
            vosotros: pair("hablarais", "hablaseis"),
            uds: pair("hablaran", "hablasen"),
        },
        pluscuamperfecto_subjuntivo: ConjugationWithAlternatives {
            yo: pair("hubiera hablado", "hubiese hablado"),
            tu: pair("hubieras hablado", "hubieses hablado"),
            vos: pair("hubieras hablado", "hubieses hablado"),
            ud: pair("hubiera hablado", "hubiese hablado"),
            nosotros: pair("hubiéramos hablado", "hubiésemos hablado"),
            vosotros: pair("hubierais hablado", "hubieseis hablado"),
            uds: pair("hubieran hablado", "hubiesen hablado"),
        },
        imperativo: ImperativeConjugation {
            tu: "habla".to_string(),
            vos: "hablá".to_string(),
            ud: "hable".to_string(),
            nosotros: "hablemos".to_string(),
            vosotros: "hablad".to_string(),
            uds: "hablen".to_string(),
        },
    }
}

fn args(pronoun: Option<&str>) -> TenseArgs {
    TenseArgs { pronoun: pronoun.map(|p| p.to_string()) }
}

fn ask(field: Option<&str>, tense: Option<(Tense, Option<&str>)>) -> Query {
    Query {
        field: field.map(|f| f.to_string()),
        tense: tense.map(|(tense, pronoun)| TenseQuery { tense, args: args(pronoun) }),
    }
}

fn by_command(command: &str, pronoun: Option<&str>) -> Query {
    ask(None, Some((Tense::from_command(command).unwrap(), pronoun)))
}

/// What is stored for a tense and pronoun, read off the fields directly.
fn stored(verb: &VerbConjugation, tense: Tense, pronoun: Pronoun) -> Option<Vec<String>> {
    let one = |c: &Conjugation| {
        Some(vec![match pronoun {
            Pronoun::Yo => c.yo.clone(),
            Pronoun::Tu => c.tu.clone(),
            Pronoun::Vos => c.vos.clone(),
            Pronoun::Ud => c.ud.clone(),
            Pronoun::Nosotros => c.nosotros.clone(),
            Pronoun::Vosotros => c.vosotros.clone(),
            Pronoun::Uds => c.uds.clone(),
        }])
    };
    let many = |c: &ConjugationWithAlternatives| {
        Some(match pronoun {
            Pronoun::Yo => c.yo.clone(),
            Pronoun::Tu => c.tu.clone(),
            Pronoun::Vos => c.vos.clone(),
            Pronoun::Ud => c.ud.clone(),
            Pronoun::Nosotros => c.nosotros.clone(),
            Pronoun::Vosotros => c.vosotros.clone(),
            Pronoun::Uds => c.uds.clone(),
        })
    };
    match tense {
        Tense::PresenteIndicativo => one(&verb.presente_indicativo),
        Tense::PreteritoPerfectoSimple => one(&verb.preterito_perfecto_simple),
        Tense::PreteritoImperfecto => one(&verb.preterito_imperfecto),
        Tense::FuturoSimple => one(&verb.futuro_simple),
        Tense::CondicionalSimple => one(&verb.condicional_simple),
        Tense::PresentePerfecto => one(&verb.presente_perfecto),
        Tense::PreteritoPluscuamperfecto => one(&verb.preterito_pluscuamperfecto),
        Tense::FuturoPerfecto => one(&verb.futuro_perfecto),
        Tense::CondicionalPerfecto => one(&verb.condicional_perfecto),
        Tense::PresenteSubjuntivo => one(&verb.presente_subjuntivo),
        Tense::PreteritoPerfectoSubjuntivo => one(&verb.preterito_perfecto_subjuntivo),
        Tense::ImperfectoSubjuntivo => many(&verb.imperfecto_subjuntivo),
        Tense::PluscuamperfectoSubjuntivo => many(&verb.pluscuamperfecto_subjuntivo),
        Tense::Imperativo => {
            let c = &verb.imperativo;
            match pronoun {
                Pronoun::Yo => None,
                Pronoun::Tu => Some(vec![c.tu.clone()]),
                Pronoun::Vos => Some(vec![c.vos.clone()]),
                Pronoun::Ud => Some(vec![c.ud.clone()]),
                Pronoun::Nosotros => Some(vec![c.nosotros.clone()]),
                Pronoun::Vosotros => Some(vec![c.vosotros.clone()]),
                Pronoun::Uds => Some(vec![c.uds.clone()]),
            }
        }
    }
}

#[test]
fn presente_yo_of_hablar_is_hablo() {
    let verb = hablar();
    assert_eq!(
        answer(&verb, &by_command("presente", Some("yo"))),
        Some("hablo".to_string())
    );
    assert_eq!(
        verb.lookup(Tense::PresenteIndicativo, Some("yo")),
        Selection::Text(&verb.presente_indicativo.yo)
    );
}

#[test]
fn imp_subj_of_hablar_without_pronoun_is_the_whole_table() {
    let verb = hablar();
    let expected = "\
ConjugationWithAlternatives {
    yo: [
        \"hablara\",
        \"hablase\",
    ],
    tu: [
        \"hablaras\",
        \"hablases\",
    ],
    vos: [
        \"hablaras\",
        \"hablases\",
    ],
    ud: [
        \"hablara\",
        \"hablase\",
    ],
    nosotros: [
        \"habláramos\",
        \"hablásemos\",
    ],
    vosotros: [
        \"hablarais\",
        \"hablaseis\",
    ],
    uds: [
        \"hablaran\",
        \"hablasen\",
    ],
}";
    assert_eq!(
        answer(&verb, &by_command("imp-subj", None)),
        Some(expected.to_string())
    );
    assert_eq!(
        verb.lookup(Tense::ImperfectoSubjuntivo, None),
        Selection::Table(Table::Alternatives(&verb.imperfecto_subjuntivo))
    );
}

#[test]
fn field_participio_pasado_of_hablar_ignores_the_tense() {
    let verb = hablar();
    for tense in [
        None,
        Some((Tense::PresenteIndicativo, Some("yo"))),
        Some((Tense::ImperfectoSubjuntivo, None)),
        Some((Tense::Imperativo, Some("yo"))),
        Some((Tense::FuturoSimple, Some("nadie"))),
    ] {
        assert_eq!(
            answer(&verb, &ask(Some("participio-pasado"), tense)),
            Some("hablado".to_string())
        );
    }
}

#[test]
fn imperative_under_yo_is_the_complaint_about_the_pronoun() {
    let verb = hablar();
    assert_eq!(
        answer(&verb, &by_command("imperativo", Some("yo"))),
        Some("Invalid pronoun specified.".to_string())
    );
    assert_eq!(
        verb.lookup(Tense::Imperativo, Some("yo")),
        Selection::InvalidPronoun
    );
    assert_eq!(
        handle_imperative_tense(&verb.imperativo, &args(Some("yo"))),
        "Invalid pronoun specified."
    );
}

#[test]
fn lookup_gives_back_what_is_stored_for_every_tense_and_pronoun() {
    let verb = hablar();
    for tense in TENSES {
        for pronoun in PRONOUNS {
            let found = verb.lookup(tense, Some(pronoun.name()));
            match (tense.shape(), stored(&verb, tense, pronoun)) {
                (_, None) => assert_eq!(found, Selection::InvalidPronoun),
                (Shape::Alternatives, Some(forms)) => {
                    assert!(!forms.is_empty());
                    assert_eq!(found, Selection::Variants(&forms));
                }
                (_, Some(forms)) => {
                    assert!(!forms[0].is_empty());
                    assert_eq!(found, Selection::Text(&forms[0]));
                    assert_eq!(found.render(), forms[0]);
                }
            }
        }
    }
}

#[test]
fn lookup_refuses_exactly_one_tense_and_pronoun() {
    let verb = hablar();
    let mut refused = Vec::new();
    for tense in TENSES {
        for pronoun in PRONOUNS {
            if verb.lookup(tense, Some(pronoun.name())) == Selection::InvalidPronoun {
                refused.push((tense, pronoun));
            }
        }
    }
    assert_eq!(refused, vec![(Tense::Imperativo, Pronoun::Yo)]);
}

#[test]
fn alternatives_come_back_in_stored_order_and_number() {
    let mut verb = hablar();
    verb.imperfecto_subjuntivo.nosotros = vec![
        "tercera".to_string(),
        "primera".to_string(),
        "segunda".to_string(),
    ];
    verb.pluscuamperfecto_subjuntivo.uds = vec!["sola".to_string()];
    match verb.lookup(Tense::ImperfectoSubjuntivo, Some("nosotros")) {
        Selection::Variants(forms) => {
            assert_eq!(forms.len(), 3);
            assert_eq!(forms, &["tercera", "primera", "segunda"]);
        }
        other => panic!("{:?}", other),
    }
    match verb.lookup(Tense::PluscuamperfectoSubjuntivo, Some("uds")) {
        Selection::Variants(forms) => {
            assert_eq!(forms.len(), 1);
            assert_eq!(forms, &["sola"]);
        }
        other => panic!("{:?}", other),
    }
    assert_eq!(
        answer(&verb, &by_command("imp-subj", Some("nosotros"))),
        Some("[\"tercera\", \"primera\", \"segunda\"]".to_string())
    );
}

#[test]
fn alternatives_of_hablar_under_a_pronoun() {
    let verb = hablar();
    assert_eq!(
        answer(&verb, &by_command("imp-subj", Some("yo"))),
        Some("[\"hablara\", \"hablase\"]".to_string())
    );
    assert_eq!(
        answer(&verb, &by_command("plus-subj", Some("vosotros"))),
        Some("[\"hubierais hablado\", \"hubieseis hablado\"]".to_string())
    );
    assert_eq!(
        handle_tense_with_alternatives(&verb.imperfecto_subjuntivo, &args(Some("uds"))),
        "[\"hablaran\", \"hablasen\"]"
    );
}

#[test]
fn empty_stored_values_come_back_empty() {
    let mut verb = hablar();
    verb.presente_indicativo.yo = String::new();
    verb.imperfecto_subjuntivo.yo = Vec::new();
    assert_eq!(
        answer(&verb, &by_command("presente", Some("yo"))),
        Some(String::new())
    );
    assert_eq!(
        answer(&verb, &by_command("imp-subj", Some("yo"))),
        Some("[]".to_string())
    );
}

#[test]
fn simple_table_is_written_out_in_slot_order() {
    let verb = hablar();
    let expected = "\
Conjugation {
    yo: \"hablo\",
    tu: \"hablas\",
    vos: \"hablás\",
    ud: \"habla\",
    nosotros: \"hablamos\",
    vosotros: \"habláis\",
    uds: \"hablan\",
}";
    assert_eq!(
        answer(&verb, &by_command("presente", None)),
        Some(expected.to_string())
    );
    assert_eq!(handle_tense(&verb.presente_indicativo, &args(None)), expected);
}

#[test]
fn imperative_table_is_written_out_without_yo() {
    let verb = hablar();
    let expected = "\
ImperativeConjugation {
    tu: \"habla\",
    vos: \"hablá\",
    ud: \"hable\",
    nosotros: \"hablemos\",
    vosotros: \"hablad\",
    uds: \"hablen\",
}";
    assert_eq!(
        answer(&verb, &by_command("imperativo", None)),
        Some(expected.to_string())
    );
    assert_eq!(handle_imperative_tense(&verb.imperativo, &args(None)), expected);
}

#[test]
fn tables_are_written_as_the_standard_library_writes_them() {
    let mut verb = hablar();
    verb.presente_indicativo.vos = "say \"hablás\"\n".to_string();
    verb.imperfecto_subjuntivo.tu = Vec::new();
    verb.imperfecto_subjuntivo.ud = vec!["one\ttab".to_string()];
    verb.imperativo.uds = String::new();
    assert_eq!(
        Table::Simple(&verb.presente_indicativo).render(),
        format!("{:#?}", verb.presente_indicativo)
    );
    assert_eq!(
        Table::Alternatives(&verb.imperfecto_subjuntivo).render(),
        format!("{:#?}", verb.imperfecto_subjuntivo)
    );
    assert_eq!(
        Table::Alternatives(&verb.pluscuamperfecto_subjuntivo).render(),
        format!("{:#?}", verb.pluscuamperfecto_subjuntivo)
    );
    assert_eq!(
        Table::Imperative(&verb.imperativo).render(),
        format!("{:#?}", verb.imperativo)
    );
}

#[test]
fn every_tense_without_pronoun_gives_its_own_table() {
    let verb = hablar();
    let tables = [
        format!("{:#?}", verb.presente_indicativo),
        format!("{:#?}", verb.preterito_perfecto_simple),
        format!("{:#?}", verb.preterito_imperfecto),
        format!("{:#?}", verb.futuro_simple),
        format!("{:#?}", verb.condicional_simple),
        format!("{:#?}", verb.presente_perfecto),
        format!("{:#?}", verb.preterito_pluscuamperfecto),
        format!("{:#?}", verb.futuro_perfecto),
        format!("{:#?}", verb.condicional_perfecto),
        format!("{:#?}", verb.presente_subjuntivo),
        format!("{:#?}", verb.preterito_perfecto_subjuntivo),
        format!("{:#?}", verb.imperfecto_subjuntivo),
        format!("{:#?}", verb.pluscuamperfecto_subjuntivo),
        format!("{:#?}", verb.imperativo),
    ];
    for (tense, table) in TENSES.iter().zip(tables) {
        assert_eq!(answer(&verb, &ask(None, Some((*tense, None)))), Some(table));
    }
}

#[test]
fn table_of_a_tense_has_the_shape_of_the_tense() {
    let verb = hablar();
    for tense in TENSES {
        assert_eq!(verb.table(tense).shape(), tense.shape());
    }
}

#[test]
fn unknown_pronoun_is_the_complaint_about_the_pronoun() {
    let verb = hablar();
    for pronoun in ["", "Yo", "ella", "yo ", "ustedes"] {
        for tense in TENSES {
            assert_eq!(
                answer(&verb, &ask(None, Some((tense, Some(pronoun))))),
                Some("Invalid pronoun specified.".to_string())
            );
        }
    }
    assert_eq!(
        handle_tense(&verb.presente_indicativo, &args(Some("ella"))),
        "Invalid pronoun specified."
    );
    assert_eq!(
        handle_tense_with_alternatives(&verb.imperfecto_subjuntivo, &args(Some("ella"))),
        "Invalid pronoun specified."
    );
}

#[test]
fn fields_of_hablar() {
    let verb = hablar();
    assert_eq!(
        answer(&verb, &ask(Some("meaning"), None)),
        Some("to speak, to talk".to_string())
    );
    assert_eq!(
        answer(&verb, &ask(Some("gerundio"), None)),
        Some("hablando".to_string())
    );
    assert_eq!(
        answer(&verb, &ask(Some("participio-pasado"), None)),
        Some("hablado".to_string())
    );
    assert_eq!(verb.field("meaning"), Selection::Text(&verb.meaning));
    assert_eq!(verb.field("gerundio"), Selection::Text(&verb.gerundio));
    assert_eq!(
        verb.field("participio-pasado"),
        Selection::Text(&verb.participio_pasado)
    );
}

#[test]
fn unknown_field_is_the_complaint_about_the_field() {
    let verb = hablar();
    for field in ["", "infinitivo", "Meaning", "participio_pasado", "presente-indicativo"] {
        assert_eq!(verb.field(field), Selection::InvalidField);
        assert_eq!(
            answer(&verb, &ask(Some(field), Some((Tense::PresenteIndicativo, Some("yo"))))),
            Some("Invalid field specified.".to_string())
        );
    }
}

#[test]
fn query_for_nothing_has_no_answer() {
    let verb = hablar();
    assert_eq!(answer(&verb, &ask(None, None)), None);
    assert_eq!(resolve(&verb, &ask(None, None)), None);
}

#[test]
fn resolve_gives_the_selection_that_answer_writes() {
    let verb = hablar();
    for query in [
        ask(Some("meaning"), None),
        ask(Some("nothing"), None),
        by_command("presente", Some("tu")),
        by_command("plus-subj", Some("ud")),
        by_command("plus-subj", None),
        by_command("imperativo", Some("yo")),
        by_command("imperativo", Some("vos")),
        by_command("futuro", None),
    ] {
        let selection = resolve(&verb, &query).unwrap();
        assert_eq!(answer(&verb, &query), Some(selection.render()));
    }
    assert_eq!(
        resolve(&verb, &by_command("presente", Some("tu"))),
        Some(Selection::Text(&verb.presente_indicativo.tu))
    );
}

#[test]
fn slot_of_a_table() {
    let verb = hablar();
    assert_eq!(
        Table::Simple(&verb.futuro_simple).slot(Pronoun::Ud),
        Some(Selection::Text(&verb.futuro_simple.ud))
    );
    assert_eq!(
        Table::Alternatives(&verb.imperfecto_subjuntivo).slot(Pronoun::Yo),
        Some(Selection::Variants(&verb.imperfecto_subjuntivo.yo))
    );
    assert_eq!(Table::Imperative(&verb.imperativo).slot(Pronoun::Yo), None);
    assert_eq!(
        Table::Imperative(&verb.imperativo).slot(Pronoun::Vosotros),
        Some(Selection::Text(&verb.imperativo.vosotros))
    );
}

#[test]
fn entries_list_the_slots_in_table_order() {
    let verb = hablar();
    let simple: Vec<Pronoun> = verb.presente_indicativo.entries().iter().map(|e| e.0).collect();
    assert_eq!(simple, PRONOUNS);
    let many: Vec<Pronoun> = verb.imperfecto_subjuntivo.entries().iter().map(|e| e.0).collect();
    assert_eq!(many, PRONOUNS);
    let imperative: Vec<Pronoun> = verb.imperativo.entries().iter().map(|e| e.0).collect();
    assert_eq!(imperative, PRONOUNS[1..]);
    for (pronoun, form) in verb.presente_indicativo.entries() {
        assert_eq!(form, verb.presente_indicativo.get(pronoun));
    }
    for (pronoun, forms) in verb.imperfecto_subjuntivo.entries() {
        assert_eq!(forms, verb.imperfecto_subjuntivo.get(pronoun));
    }
    for (pronoun, form) in verb.imperativo.entries() {
        assert_eq!(Some(form), verb.imperativo.get(pronoun));
    }
    assert_eq!(verb.imperativo.get(Pronoun::Yo), None);
}
