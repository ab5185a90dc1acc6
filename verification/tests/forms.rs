use ternary_form::builder::FormBuilder;
use ternary_form::detect::FormDetector;
use ternary_form::form::Form;
use ternary_form::forms::{BinaryForm, RondoForm, SonataForm, TernaryForm};
use ternary_form::section::Section;

fn weight(section: &Section) -> f64 {
    f64::from_bits(section.weight_bits)
}

fn total_weight(form: &Form) -> f64 {
    form.sections.iter().map(weight).sum()
}

fn with_confidence(form: &Form) -> Option<(&'static str, f64)> {
    FormDetector::detect_with_confidence(form).map(|(name, percent)| (name, percent as f64 / 100.0))
}

#[test]
fn test_binary_form_detection() {
    let form = BinaryForm::build("Research the problem", "Implement the solution");
    assert_eq!(form.pattern(), "A-B");
    assert!(BinaryForm::matches(&form));
    assert_eq!(FormDetector::detect(&form), Some("Binary"));
}

#[test]
fn test_binary_form_doesnt_match_ternary() {
    let form = TernaryForm::build("Start", "Middle", "Return");
    assert!(!BinaryForm::matches(&form));
}

#[test]
fn test_ternary_form_detection() {
    let form = TernaryForm::build(
        "Establish baseline metrics",
        "Explore alternative approaches",
        "Return to baseline with improvements",
    );
    assert_eq!(form.pattern(), "A-B-A'");
    assert!(TernaryForm::matches(&form));
    assert_eq!(FormDetector::detect(&form), Some("Ternary"));
}

#[test]
fn test_ternary_form_requires_return() {
    // A-B-B is not ternary
    let mut form = Form::new("BadTernary");
    form.add_section(Section::new("A", "first"));
    form.add_section(Section::new("B", "second"));
    form.add_section(Section::new("B", "third"));
    assert!(!TernaryForm::matches(&form));
}

#[test]
fn test_rondo_pattern() {
    let form = RondoForm::build(
        "Core analysis",
        vec!["Explore edge cases", "Check performance", "Review security"],
    );

    // Should be A-B-A-C-A-D-A
    assert_eq!(form.sections.len(), 7);
    assert_eq!(form.sections[0].label, "A");
    assert_eq!(form.sections[1].label, "B");
    assert_eq!(form.sections[2].label, "A");
    assert_eq!(form.sections[3].label, "C");
    assert_eq!(form.sections[4].label, "A");
    assert_eq!(form.sections[5].label, "D");
    assert_eq!(form.sections[6].label, "A");
}

#[test]
fn test_rondo_detection() {
    let form = RondoForm::build("Theme", vec!["Ep1", "Ep2"]);
    assert!(RondoForm::matches(&form));
    assert_eq!(FormDetector::detect(&form), Some("Rondo"));
}

#[test]
fn test_sonata_structure() {
    let form = SonataForm::build(
        "Define the problem scope",
        "Identify stakeholder concerns",
        "Deep dive into tensions between scope and concerns",
        "Restate problem with stakeholder alignment",
        "Present unified solution",
    );

    assert_eq!(form.sections.len(), 5);
    assert!(form.sections[0].label.starts_with("Exp"));
    assert!(form.sections[2].label.starts_with("Dev"));
    assert!(form.sections[3].label.starts_with("Recap"));
    assert!(SonataForm::matches(&form));
    assert_eq!(FormDetector::detect(&form), Some("Sonata"));
}

#[test]
fn test_sonata_weight() {
    let form = SonataForm::build("a", "b", "c", "d", "e");
    // Development has weight 1.5, others 1.0
    assert_eq!(weight(&form.sections[2]), 1.5);
    assert_eq!(total_weight(&form), 5.5);
}

#[test]
fn test_form_builder_binary() {
    let form = FormBuilder::binary(
        "researcher",
        "implementer",
        "Gather requirements",
        "Build the feature",
    );

    assert_eq!(form.sections[0].agent.as_deref(), Some("researcher"));
    assert_eq!(form.sections[1].agent.as_deref(), Some("implementer"));
    assert!(BinaryForm::matches(&form));
}

#[test]
fn test_form_builder_ternary() {
    let form = FormBuilder::ternary(
        "analyst",
        "creative",
        "Baseline analysis",
        "Creative exploration",
        "Refined analysis",
    );

    // A sections should use analyst, B uses creative
    assert_eq!(form.sections[0].agent.as_deref(), Some("analyst"));
    assert_eq!(form.sections[1].agent.as_deref(), Some("creative"));
    assert_eq!(form.sections[2].agent.as_deref(), Some("analyst"));
}

#[test]
fn test_form_builder_rondo() {
    let form = FormBuilder::rondo(
        "coordinator",
        vec!["explorer-a", "explorer-b"],
        "Review progress",
        vec!["Explore option A", "Explore option B"],
    );

    // All A sections should have coordinator
    for section in &form.sections {
        if section.label == "A" {
            assert_eq!(section.agent.as_deref(), Some("coordinator"));
        }
    }
    assert!(RondoForm::matches(&form));
}

#[test]
fn test_form_builder_sonata() {
    let form = FormBuilder::sonata(
        ("agent-1", "agent-2"),
        "dev-agent",
        ("agent-3", "agent-4"),
        ("Present view A", "Present view B"),
        "Tension exploration",
        ("Synthesis A", "Synthesis B"),
    );

    assert_eq!(form.sections[0].agent.as_deref(), Some("agent-1"));
    assert_eq!(form.sections[2].agent.as_deref(), Some("dev-agent"));
    assert_eq!(form.sections[3].agent.as_deref(), Some("agent-3"));
    assert!(SonataForm::matches(&form));
}

#[test]
fn test_form_pattern_string() {
    let mut form = Form::new("Test");
    form.add_section(Section::new("A", "first"));
    form.add_section(Section::new("B", "second"));
    form.add_section(Section::new("A", "third"));
    assert_eq!(form.pattern(), "A-B-A");
}

#[test]
fn test_form_unique_labels() {
    let mut form = Form::new("Test");
    form.add_section(Section::new("A", "first"));
    form.add_section(Section::new("B", "second"));
    form.add_section(Section::new("A", "third"));
    form.add_section(Section::new("C", "fourth"));

    let labels = form.unique_labels();
    assert_eq!(labels, vec!["A", "B", "C"]);
}

#[test]
fn test_section_builder() {
    let section = Section::new("A", "Main theme")
        .with_agent("agent-1")
        .with_weight_bits(2.0f64.to_bits());

    assert_eq!(section.label, "A");
    assert_eq!(section.description, "Main theme");
    assert_eq!(section.agent.as_deref(), Some("agent-1"));
    assert_eq!(weight(&section), 2.0);
}

#[test]
fn test_detect_with_confidence() {
    let form = BinaryForm::build("A", "B");
    let result = with_confidence(&form);
    assert_eq!(result, Some(("Binary", 0.95)));
}

#[test]
fn test_detect_no_match() {
    let mut form = Form::new("Unknown");
    form.add_section(Section::new("X", "first"));
    form.add_section(Section::new("Y", "second"));
    form.add_section(Section::new("Z", "third"));
    form.add_section(Section::new("W", "fourth"));

    assert!(FormDetector::detect(&form).is_none());
}

#[test]
fn test_detect_with_confidence_no_match() {
    let mut form = Form::new("Unknown");
    form.add_section(Section::new("X", "a"));
    form.add_section(Section::new("Y", "b"));
    form.add_section(Section::new("Z", "c"));
    form.add_section(Section::new("W", "d"));
    assert!(FormDetector::detect_with_confidence(&form).is_none());
}

#[test]
fn test_rondo_too_short_not_rondo() {
    let form = RondoForm::build("Theme", vec!["Only one episode"]);
    assert!(!RondoForm::matches(&form), "Rondo needs at least 5 sections (2+ episodes)");
}

#[test]
fn test_binary_wrong_length() {
    let mut form = Form::new("Test");
    form.add_section(Section::new("A", "only one"));
    assert!(!BinaryForm::matches(&form));

    form.add_section(Section::new("A", "same label"));
    assert!(!BinaryForm::matches(&form), "Both sections same label = not binary");
}
