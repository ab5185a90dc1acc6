//! The four musical forms: how to build each one and how to recognise it.
use vstd::prelude::*;
use vstd::string::StringExecFns;

use crate::form::Form;
use crate::section::{Section, DEVELOPMENT_WEIGHT_BITS, NORMAL_WEIGHT_BITS};
use crate::text::{decimal, is_prefix, push_decimal, starts_with, str_eq, str_views};

verus! {

/// Binary shape: two sections with different labels.
pub open spec fn binary_shape(l: Seq<Seq<char>>) -> bool {
    l.len() == 2 && l[0] != l[1]
}

/// Ternary shape: three sections, the first and third related (one label
/// is a prefix of the other), the middle one different from both.
pub open spec fn ternary_shape(l: Seq<Seq<char>>) -> bool {
    &&& l.len() == 3
    &&& is_prefix(l[0], l[2]) || is_prefix(l[2], l[0])
    &&& l[0] != l[1]
    &&& l[1] != l[2]
}

/// How many items of `l` equal `x`.
pub open spec fn count_label(l: Seq<Seq<char>>, x: Seq<char>) -> nat
    decreases l.len(),
{
    if l.len() == 0 {
        0
    } else {
        count_label(l.drop_last(), x) + if l.last() == x {
            1nat
        } else {
            0nat
        }
    }
}

/// Rondo shape: at least five sections, the theme "A" at least three times,
/// alternating with the episodes: "A" at every even position and nowhere else.
pub open spec fn rondo_shape(l: Seq<Seq<char>>) -> bool {
    &&& l.len() >= 5
    &&& count_label(l, "A"@) >= 3
    &&& forall|i: int| 0 <= i < l.len() && l[i] == "A"@ ==> i % 2 == 0
    &&& forall|i: int| 0 <= i < l.len() && i % 2 == 0 ==> l[i] == "A"@
}

/// Sonata shape: two exposition sections, a development, two recapitulations.
pub open spec fn sonata_shape(l: Seq<Seq<char>>) -> bool {
    &&& l.len() == 5
    &&& is_prefix("Exp"@, l[0])
    &&& is_prefix("Exp"@, l[1])
    &&& is_prefix("Dev"@, l[2])
    &&& is_prefix("Recap"@, l[3])
    &&& is_prefix("Recap"@, l[4])
}

/// The labels of a binary form.
pub open spec fn binary_labels() -> Seq<Seq<char>> {
    seq!["A"@, "B"@]
}

/// The labels of a ternary form.
pub open spec fn ternary_labels() -> Seq<Seq<char>> {
    seq!["A"@, "B"@, "A'"@]
}

/// The labels of a sonata form.
pub open spec fn sonata_labels() -> Seq<Seq<char>> {
    seq!["Exp-1"@, "Exp-2"@, "Dev"@, "Recap-1"@, "Recap-2"@]
}

/// Label of the episode with index `i` in a rondo.
pub open spec fn episode_label(i: int) -> Seq<char> {
    if i == 0 {
        "B"@
    } else if i == 1 {
        "C"@
    } else if i == 2 {
        "D"@
    } else if i == 3 {
        "E"@
    } else {
        "X"@
    }
}

/// Label at position `j` of a rondo: the theme at even positions, the
/// episodes in between.
pub open spec fn rondo_label(j: int) -> Seq<char> {
    if j % 2 == 1 {
        episode_label((j - 1) / 2)
    } else {
        "A"@
    }
}

/// No episode label is the theme label "A".
pub proof fn lemma_episode_label_is_not_theme(i: int)
    ensures
        episode_label(i) != "A"@,
{
    reveal_strlit("A");
    reveal_strlit("B");
    reveal_strlit("C");
    reveal_strlit("D");
    reveal_strlit("E");
    reveal_strlit("X");
    assert("A"@[0] != "B"@[0]);
    assert("A"@[0] != "C"@[0]);
    assert("A"@[0] != "D"@[0]);
    assert("A"@[0] != "E"@[0]);
    assert("A"@[0] != "X"@[0]);
}

/// The labels of a rondo with `n` episodes.
pub open spec fn rondo_labels(n: nat) -> Seq<Seq<char>> {
    Seq::new(2 * n + 1, |j: int| rondo_label(j))
}

/// Description of the `k`-th return of the theme.
pub open spec fn return_description(theme: Seq<char>, k: nat) -> Seq<char> {
    theme + " (return #"@ + decimal(k) + ")"@
}

/// Description at position `j` of a rondo built from `theme` and `episodes`.
pub open spec fn rondo_description(theme: Seq<char>, episodes: Seq<Seq<char>>, j: int) -> Seq<
    char,
> {
    if j == 0 {
        theme
    } else if j % 2 == 1 {
        episodes[(j - 1) / 2]
    } else {
        return_description(theme, (j / 2) as nat)
    }
}

/// Binary form: A-B, two contrasting sections.
pub struct BinaryForm;

impl BinaryForm {
    /// Build a binary form (A-B) from two section descriptions.
    pub fn build(section_a: &str, section_b: &str) -> (f: Form)
        ensures
            f.name@ == "Binary"@,
            f.sections@.len() == 2,
            f.sections@[0].has_parts("A"@, section_a@, None, NORMAL_WEIGHT_BITS),
            f.sections@[1].has_parts("B"@, section_b@, None, NORMAL_WEIGHT_BITS),
            f.labels() == binary_labels(),
    {
        let mut form = Form::new("Binary");
        form.add_section(Section::new("A", section_a));
        form.add_section(Section::new("B", section_b));
        assert(form.labels() =~= binary_labels());
        form
    }

    /// Whether a form follows binary (A-B) structure.
    pub fn matches(form: &Form) -> (r: bool)
        ensures
            r == binary_shape(form.labels()),
    {
        if form.sections.len() != 2 {
            return false;
        }
        !str_eq(form.sections[0].label.as_str(), form.sections[1].label.as_str())
    }
}

/// Ternary form: A-B-A', departure and return.
pub struct TernaryForm;

impl TernaryForm {
    /// Build a ternary form (A-B-A') from three section descriptions.
    pub fn build(section_a: &str, section_b: &str, section_a_prime: &str) -> (f: Form)
        ensures
            f.name@ == "Ternary"@,
            f.sections@.len() == 3,
            f.sections@[0].has_parts("A"@, section_a@, None, NORMAL_WEIGHT_BITS),
            f.sections@[1].has_parts("B"@, section_b@, None, NORMAL_WEIGHT_BITS),
            f.sections@[2].has_parts("A'"@, section_a_prime@, None, NORMAL_WEIGHT_BITS),
            f.labels() == ternary_labels(),
    {
        let mut form = Form::new("Ternary");
        form.add_section(Section::new("A", section_a));
        form.add_section(Section::new("B", section_b));
        form.add_section(Section::new("A'", section_a_prime));
        assert(form.labels() =~= ternary_labels());
        form
    }

    /// Whether a form follows ternary (A-B-A) structure.
    pub fn matches(form: &Form) -> (r: bool)
        ensures
            r == ternary_shape(form.labels()),
    {
        if form.sections.len() != 3 {
            return false;
        }
        let first = form.sections[0].label.as_str();
        let second = form.sections[1].label.as_str();
        let third = form.sections[2].label.as_str();
        let comes_back = starts_with(third, first) || starts_with(first, third);
        let contrasts = !str_eq(first, second) && !str_eq(second, third);
        comes_back && contrasts
    }
}

/// Rondo form: A-B-A-C-A, a recurring theme with contrasting episodes.
pub struct RondoForm;

/// The label of the episode with index `i`.
fn episode_label_str(i: usize) -> (s: &'static str)
    ensures
        s@ == episode_label(i as int),
{
    if i == 0 {
        "B"
    } else if i == 1 {
        "C"
    } else if i == 2 {
        "D"
    } else if i == 3 {
        "E"
    } else {
        "X"
    }
}

impl RondoForm {
    /// Build a rondo form: the theme, then each episode followed by a
    /// numbered return of the theme.
    pub fn build(theme: &str, episodes: Vec<&str>) -> (f: Form)
        ensures
            f.name@ == "Rondo"@,
            f.sections@.len() == 2 * episodes@.len() + 1,
            forall|j: int|
                0 <= j < f.sections@.len() ==> (#[trigger] f.sections@[j]).has_parts(
                    rondo_label(j),
                    rondo_description(theme@, str_views(episodes@), j),
                    None,
                    NORMAL_WEIGHT_BITS,
                ),
            f.labels() == rondo_labels(episodes@.len()),
    {
        let mut form = Form::new("Rondo");
        form.add_section(Section::new("A", theme));
        let ghost eps = str_views(episodes@);
        let n = episodes.len();
        for i in 0..n
            invariant
                n == episodes@.len(),
                eps == str_views(episodes@),
                form.name@ == "Rondo"@,
                form.sections@.len() == 2 * i + 1,
                forall|j: int|
                    0 <= j < form.sections@.len() ==> #[trigger] form.sections@[j].has_parts(
                        rondo_label(j),
                        rondo_description(theme@, eps, j),
                        None,
                        NORMAL_WEIGHT_BITS,
                    ),
        {
            form.add_section(Section::new(episode_label_str(i), episodes[i]));
            let mut description = String::from_str(theme);
            description.append(" (return #");
            push_decimal(&mut description, i + 1);
            description.append(")");
            form.add_section(Section::new("A", description.as_str()));
            proof {
                let j1 = 2 * i + 1;
                let j2 = 2 * i + 2;
                assert(j1 % 2 == 1 && (j1 - 1) / 2 == i);
                assert(j2 % 2 == 0 && j2 / 2 == i + 1);
                assert(eps[i as int] == episodes@[i as int]@);
                assert(description@ =~= return_description(theme@, (i + 1) as nat));
                assert(form.sections@[j2 as int].has_parts(
                    rondo_label(j2 as int),
                    rondo_description(theme@, eps, j2 as int),
                    None,
                    NORMAL_WEIGHT_BITS,
                ));
            }
        }
        assert forall|j: int| 0 <= j < form.sections@.len() implies #[trigger] form.labels()[j]
            == rondo_labels(n as nat)[j] by {
            assert(form.sections@[j].has_parts(
                rondo_label(j),
                rondo_description(theme@, eps, j),
                None,
                NORMAL_WEIGHT_BITS,
            ));
        }
        assert(form.labels() =~= rondo_labels(n as nat));
        form
    }

    /// Whether a form follows rondo structure: in at least five sections,
    /// the theme "A" at least three times, alternating with the episodes
    /// ("A" at positions 0, 2, 4, ... and nowhere else).
    pub fn matches(form: &Form) -> (r: bool)
        ensures
            r == rondo_shape(form.labels()),
    {
        let n = form.sections.len();
        if n < 5 {
            return false;
        }
        let ghost l = form.labels();
        let mut positions_of_a: Vec<usize> = Vec::new();
        for i in 0..n
            invariant
                n == form.sections@.len(),
                l == form.labels(),
                positions_of_a@.len() == count_label(l.take(i as int), "A"@),
                forall|k: int|
                    0 <= k < positions_of_a@.len() ==> #[trigger] positions_of_a@[k] < i && l[positions_of_a@[k] as int] == "A"@,
                forall|j: int| 0 <= j < i && l[j] == "A"@ ==> positions_of_a@.contains(j as usize),
        {
            proof {
                assert(l.take(i + 1).drop_last() =~= l.take(i as int));
            }
            let ghost before = positions_of_a@;
            assert(l[i as int] == form.sections@[i as int].label@);
            if str_eq(form.sections[i].label.as_str(), "A") {
                positions_of_a.push(i);
                proof {
                    assert(positions_of_a@[positions_of_a@.len() - 1] == i);
                    assert forall|j: int| 0 <= j < i + 1 && l[j] == "A"@ implies positions_of_a@.contains(j as usize) by {
                        if j < i {
                            let q = choose|q: int| 0 <= q < before.len() && before[q] == j as usize;
                            assert(positions_of_a@[q] == j as usize);
                        }
                    }
                }
            }
        }
        assert(l.take(n as int) =~= l);
        if positions_of_a.len() < 3 {
            return false;
        }
        let m = positions_of_a.len();
        for k in 0..m
            invariant
                m == positions_of_a@.len(),
                n == l.len(),
                l == form.labels(),
                forall|q: int|
                    0 <= q < positions_of_a@.len() ==> #[trigger] positions_of_a@[q] < n && l[positions_of_a@[q] as int] == "A"@,
                forall|q: int| 0 <= q < k ==> #[trigger] positions_of_a@[q] % 2 == 0,
        {
            if positions_of_a[k] % 2 != 0 {
                assert(l[positions_of_a@[k as int] as int] == "A"@);
                return false;
            }
        }
        assert forall|i: int| 0 <= i < l.len() && l[i] == "A"@ implies i % 2 == 0 by {
            let q = choose|q: int| 0 <= q < positions_of_a@.len() && positions_of_a@[q] == i as usize;
            assert(positions_of_a@[q] % 2 == 0);
        }
        // The theme alternates with the episodes: every even position holds "A".
        let mut i: usize = 0;
        while i < n
            invariant
                i <= n,
                n == l.len(),
                l == form.labels(),
                forall|j: int| 0 <= j < i && j % 2 == 0 ==> l[j] == "A"@,
            decreases n - i,
        {
            assert(l[i as int] == form.sections@[i as int].label@);
            if i % 2 == 0 && !str_eq(form.sections[i].label.as_str(), "A") {
                return false;
            }
            i = i + 1;
        }
        true
    }
}

/// Sonata form: exposition, development, recapitulation.
pub struct SonataForm;

impl SonataForm {
    /// Build a sonata form from descriptions of each section; the
    /// development carries weight 1.5, the others 1.0.
    pub fn build(
        exposition_theme_1: &str,
        exposition_theme_2: &str,
        development: &str,
        recap_theme_1: &str,
        recap_theme_2: &str,
    ) -> (f: Form)
        ensures
            f.name@ == "Sonata"@,
            f.sections@.len() == 5,
            f.sections@[0].has_parts("Exp-1"@, exposition_theme_1@, None, NORMAL_WEIGHT_BITS),
            f.sections@[1].has_parts("Exp-2"@, exposition_theme_2@, None, NORMAL_WEIGHT_BITS),
            f.sections@[2].has_parts("Dev"@, development@, None, DEVELOPMENT_WEIGHT_BITS),
            f.sections@[3].has_parts("Recap-1"@, recap_theme_1@, None, NORMAL_WEIGHT_BITS),
            f.sections@[4].has_parts("Recap-2"@, recap_theme_2@, None, NORMAL_WEIGHT_BITS),
            f.labels() == sonata_labels(),
    {
        let mut form = Form::new("Sonata");
        form.add_section(
            Section::new("Exp-1", exposition_theme_1).with_weight_bits(NORMAL_WEIGHT_BITS),
        );
        form.add_section(
            Section::new("Exp-2", exposition_theme_2).with_weight_bits(NORMAL_WEIGHT_BITS),
        );
        form.add_section(Section::new("Dev", development).with_weight_bits(DEVELOPMENT_WEIGHT_BITS));
        form.add_section(
            Section::new("Recap-1", recap_theme_1).with_weight_bits(NORMAL_WEIGHT_BITS),
        );
        form.add_section(
            Section::new("Recap-2", recap_theme_2).with_weight_bits(NORMAL_WEIGHT_BITS),
        );
        assert(form.labels() =~= sonata_labels());
        form
    }

    /// Whether a form follows sonata structure.
    pub fn matches(form: &Form) -> (r: bool)
        ensures
            r == sonata_shape(form.labels()),
    {
        if form.sections.len() != 5 {
            return false;
        }
        let has_exp = starts_with(form.sections[0].label.as_str(), "Exp") && starts_with(
            form.sections[1].label.as_str(),
            "Exp",
        );
        let has_dev = starts_with(form.sections[2].label.as_str(), "Dev");
        let has_recap = starts_with(form.sections[3].label.as_str(), "Recap") && starts_with(
            form.sections[4].label.as_str(),
            "Recap",
        );
        has_exp && has_dev && has_recap
    }
}

} // verus!
