use ternary_form::builder::FormBuilder;
use ternary_form::detect::FormDetector;
use ternary_form::form::Form;
use ternary_form::forms::{BinaryForm, RondoForm, SonataForm, TernaryForm};
use ternary_form::section::{Section, DEVELOPMENT_WEIGHT_BITS, NORMAL_WEIGHT_BITS};

fn labels(form: &Form) -> Vec<&str> {
    form.sections.iter().map(|s| s.label.as_str()).collect()
}

#[test]
fn weight_constants_are_one_and_one_and_a_half() {
    assert_eq!(f64::from_bits(NORMAL_WEIGHT_BITS), 1.0);
    assert_eq!(f64::from_bits(DEVELOPMENT_WEIGHT_BITS), 1.5);
}

#[test]
fn new_section_has_no_agent_and_normal_weight() {
    let s = Section::new("Dev", "work");
    assert_eq!(s.label, "Dev");
    assert_eq!(s.description, "work");
    assert_eq!(s.agent, None);
    assert_eq!(s.weight_bits, NORMAL_WEIGHT_BITS);
}

#[test]
fn with_agent_replaces_an_earlier_agent() {
    let s = Section::new("A", "x").with_agent("first").with_agent("second");
    assert_eq!(s.agent.as_deref(), Some("second"));
    assert_eq!(s.label, "A");
}

#[test]
fn empty_form_has_empty_pattern_and_no_labels() {
    let form = Form::new("Empty");
    assert_eq!(form.name, "Empty");
    assert_eq!(form.pattern(), "");
    assert!(form.unique_labels().is_empty());
    assert_eq!(FormDetector::detect(&form), None);
}

#[test]
fn pattern_keeps_multi_character_labels() {
    let form = SonataForm::build("a", "b", "c", "d", "e");
    assert_eq!(form.pattern(), "Exp-1-Exp-2-Dev-Recap-1-Recap-2");
}

#[test]
fn unique_labels_keep_first_occurrence_order() {
    let form = RondoForm::build("T", vec!["e1", "e2", "e3"]);
    assert_eq!(form.unique_labels(), vec!["A", "B", "C", "D"]);
}

#[test]
fn rondo_returns_are_numbered() {
    let form = RondoForm::build("Theme", vec!["Ep1", "Ep2"]);
    assert_eq!(form.name, "Rondo");
    assert_eq!(form.sections[0].description, "Theme");
    assert_eq!(form.sections[1].description, "Ep1");
    assert_eq!(form.sections[2].description, "Theme (return #1)");
    assert_eq!(form.sections[3].description, "Ep2");
    assert_eq!(form.sections[4].description, "Theme (return #2)");
}

#[test]
fn rondo_with_many_episodes_uses_x_and_two_digit_returns() {
    let episodes: Vec<&str> = vec!["e"; 11];
    let form = RondoForm::build("T", episodes);
    assert_eq!(form.sections.len(), 23);
    assert_eq!(
        form.pattern(),
        "A-B-A-C-A-D-A-E-A-X-A-X-A-X-A-X-A-X-A-X-A-X-A"
    );
    assert_eq!(form.sections[22].description, "T (return #11)");
    assert_eq!(form.sections[20].description, "T (return #10)");
    assert!(RondoForm::matches(&form));
    assert_eq!(FormDetector::detect(&form), Some("Rondo"));
}

#[test]
fn rondo_with_one_episode_is_detected_as_ternary() {
    let form = RondoForm::build("Theme", vec!["Only one episode"]);
    assert_eq!(form.pattern(), "A-B-A");
    assert_eq!(FormDetector::detect(&form), Some("Ternary"));
}

#[test]
fn rondo_without_episodes_is_not_detected() {
    let form = RondoForm::build("Theme", Vec::new());
    assert_eq!(form.sections.len(), 1);
    assert_eq!(FormDetector::detect(&form), None);
}

#[test]
fn rondo_rejects_theme_at_odd_position() {
    let mut form = Form::new("Odd");
    for label in ["A", "B", "A", "A", "A"] {
        form.add_section(Section::new(label, "x"));
    }
    assert!(!RondoForm::matches(&form));
}

#[test]
fn rondo_needs_three_themes() {
    let mut form = Form::new("Few");
    for label in ["A", "B", "A", "C", "D"] {
        form.add_section(Section::new(label, "x"));
    }
    assert!(!RondoForm::matches(&form));
}

#[test]
fn ternary_accepts_return_that_is_a_prefix_of_the_opening() {
    let mut form = Form::new("T");
    form.add_section(Section::new("Intro", "x"));
    form.add_section(Section::new("Middle", "y"));
    form.add_section(Section::new("Int", "z"));
    assert!(TernaryForm::matches(&form));
    form.sections[2].label = String::from("Outro");
    assert!(!TernaryForm::matches(&form));
}

#[test]
fn sonata_matches_by_prefix() {
    let mut form = Form::new("S");
    for label in ["Exposition", "Expansion", "Development", "Recapitulation", "Recap"] {
        form.add_section(Section::new(label, "x"));
    }
    assert!(SonataForm::matches(&form));
    assert_eq!(FormDetector::detect_with_confidence(&form), Some(("Sonata", 95)));
}

#[test]
fn confidence_for_each_form() {
    let ternary = TernaryForm::build("a", "b", "c");
    assert_eq!(FormDetector::detect_with_confidence(&ternary), Some(("Ternary", 90)));
    let rondo = RondoForm::build("t", vec!["a", "b"]);
    assert_eq!(FormDetector::detect_with_confidence(&rondo), Some(("Rondo", 85)));
    let binary = BinaryForm::build("a", "b");
    assert_eq!(FormDetector::detect_with_confidence(&binary), Some(("Binary", 95)));
}

#[test]
fn rondo_plan_with_fewer_agents_leaves_later_episodes_unassigned() {
    let form = FormBuilder::rondo("coord", vec!["only"], "Review", vec!["one", "two", "three"]);
    assert_eq!(form.sections.len(), 7);
    assert_eq!(form.sections[1].agent.as_deref(), Some("only"));
    assert_eq!(form.sections[3].agent, None);
    assert_eq!(form.sections[5].agent, None);
    for j in [0, 2, 4, 6] {
        assert_eq!(form.sections[j].agent.as_deref(), Some("coord"));
    }
}

#[test]
fn rondo_plan_with_extra_agents_ignores_them() {
    let form = FormBuilder::rondo("c", vec!["a1", "a2", "a3"], "Review", vec!["one"]);
    assert_eq!(form.sections.len(), 3);
    assert_eq!(form.sections[1].agent.as_deref(), Some("a1"));
    assert_eq!(form.sections[2].description, "Review (return #1)");
}

#[test]
fn plans_keep_descriptions_and_weights() {
    let form = FormBuilder::sonata(
        ("e1", "e2"),
        "d",
        ("r1", "r2"),
        ("t1", "t2"),
        "td",
        ("u1", "u2"),
    );
    assert_eq!(labels(&form), vec!["Exp-1", "Exp-2", "Dev", "Recap-1", "Recap-2"]);
    assert_eq!(form.sections[1].agent.as_deref(), Some("e2"));
    assert_eq!(form.sections[4].agent.as_deref(), Some("r2"));
    assert_eq!(form.sections[4].description, "u2");
    assert_eq!(form.sections[2].weight_bits, DEVELOPMENT_WEIGHT_BITS);
    assert_eq!(FormDetector::detect(&form), Some("Sonata"));
    let ternary = FormBuilder::ternary("a", "b", "x", "y", "z");
    assert_eq!(labels(&ternary), vec!["A", "B", "A'"]);
    assert_eq!(ternary.sections[2].description, "z");
    assert_eq!(FormDetector::detect(&ternary), Some("Ternary"));
}

#[test]
fn binary_of_unicode_labels() {
    let mut form = Form::new("U");
    form.add_section(Section::new("é", "x"));
    form.add_section(Section::new("e", "y"));
    assert!(BinaryForm::matches(&form));
    assert_eq!(form.pattern(), "é-e");
}

#[test]
fn ternary_distinct_labels_count_the_return_as_its_theme() {
    let form = TernaryForm::build("x", "y", "z");
    assert_eq!(form.pattern(), "A-B-A'");
    assert_eq!(form.unique_labels(), vec!["A", "B"]);
}

#[test]
fn distinct_labels_keep_the_first_label_of_each_theme() {
    let mut form = Form::new("Primes");
    for label in ["B'", "A", "B", "A''", "C", "'"] {
        form.add_section(Section::new(label, "x"));
    }
    assert_eq!(form.unique_labels(), vec!["B'", "A", "C", "'"]);
}

#[test]
fn rondo_requires_the_theme_at_every_even_position() {
    let mut form = Form::new("R");
    for label in ["A", "B", "C", "D", "A", "E", "A"] {
        form.add_section(Section::new(label, "x"));
    }
    assert!(!RondoForm::matches(&form));
    assert_eq!(FormDetector::detect(&form), None);
}

#[test]
fn sections_compare_weights_as_floating_point_values() {
    let plus = Section::new("A", "x").with_weight_bits(0.0f64.to_bits());
    let minus = Section::new("A", "x").with_weight_bits((-0.0f64).to_bits());
    assert_eq!(plus, minus);
    let nan = Section::new("A", "x").with_weight_bits(f64::NAN.to_bits());
    assert!(nan != nan.clone());
    let heavy = Section::new("A", "x").with_weight_bits(2.0f64.to_bits());
    assert!(plus != heavy);
    assert_eq!(Section::new("A", "x"), Section::new("A", "x"));
    assert!(Section::new("A", "x").with_agent("p") != Section::new("A", "x"));
    assert!(Section::new("A", "x") != Section::new("A", "y"));
}
