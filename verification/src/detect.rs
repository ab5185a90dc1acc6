//! Identifying which form a task sequence follows.
use vstd::prelude::*;

use crate::form::Form;
use crate::forms::{
    binary_shape, rondo_shape, sonata_shape, ternary_shape, BinaryForm, RondoForm, SonataForm,
    TernaryForm,
};
use crate::text::str_eq;

verus! {

/// The name of the form that labels `l` follow, trying binary, ternary,
/// sonata and rondo in that order.
pub open spec fn detected(l: Seq<Seq<char>>) -> Option<Seq<char>> {
    if binary_shape(l) {
        Some("Binary"@)
    } else if ternary_shape(l) {
        Some("Ternary"@)
    } else if sonata_shape(l) {
        Some("Sonata"@)
    } else if rondo_shape(l) {
        Some("Rondo"@)
    } else {
        None
    }
}

/// Confidence, in hundredths, attached to a detected form name.
pub open spec fn confidence_percent(name: Seq<char>) -> u32 {
    if name == "Binary"@ {
        95
    } else if name == "Ternary"@ {
        90
    } else if name == "Sonata"@ {
        95
    } else if name == "Rondo"@ {
        85
    } else {
        50
    }
}

/// Identifies the form of a task sequence by analyzing section patterns.
pub struct FormDetector;

impl FormDetector {
    /// Detect the form of a given task sequence.
    pub fn detect(form: &Form) -> (r: Option<&'static str>)
        ensures
            match r {
                Some(name) => detected(form.labels()) == Some(name@),
                None => detected(form.labels()) is None,
            },
    {
        if BinaryForm::matches(form) {
            return Some("Binary");
        }
        if TernaryForm::matches(form) {
            return Some("Ternary");
        }
        if SonataForm::matches(form) {
            return Some("Sonata");
        }
        if RondoForm::matches(form) {
            return Some("Rondo");
        }
        None
    }

    /// Detect the form with a confidence score, given in hundredths
    /// (95 stands for 0.95).
    pub fn detect_with_confidence(form: &Form) -> (r: Option<(&'static str, u32)>)
        ensures
            match r {
                Some((name, percent)) => detected(form.labels()) == Some(name@) && percent
                    == confidence_percent(name@),
                None => detected(form.labels()) is None,
            },
    {
        match Self::detect(form) {
            Some(name) => {
                if str_eq(name, "Binary") {
                    Some(("Binary", 95))
                } else if str_eq(name, "Ternary") {
                    Some(("Ternary", 90))
                } else if str_eq(name, "Sonata") {
                    Some(("Sonata", 95))
                } else if str_eq(name, "Rondo") {
                    Some(("Rondo", 85))
                } else {
                    Some((name, 50))
                }
            },
            None => None,
        }
    }
}

} // verus!
