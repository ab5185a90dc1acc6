use vstd::prelude::*;
use vstd::string::StrSliceExecFns;
use vstd::string::StringExecFns;

use crate::section::Section;
use crate::text::{join_dash, str_views};

verus! {

/// A complete musical form: a named sequence of sections.
#[derive(Debug, Clone)]
pub struct Form {
    /// Name of this form.
    pub name: String,
    /// Ordered sections.
    pub sections: Vec<Section>,
}

/// The theme a label stands for: the label without its trailing primes
/// (a return "A'" is the theme "A" again).
pub open spec fn theme(label: Seq<char>) -> Seq<char>
    decreases label.len(),
{
    if label.len() > 0 && label.last() == '\'' {
        theme(label.drop_last())
    } else {
        label
    }
}

/// The themes of a sequence of labels.
pub open spec fn themes(s: Seq<Seq<char>>) -> Seq<Seq<char>> {
    s.map_values(|l: Seq<char>| theme(l))
}

/// The labels of `s` with one label per theme: the first label of each
/// theme, in order of first occurrence.
pub open spec fn first_occurrences_by_theme(s: Seq<Seq<char>>) -> Seq<Seq<char>>
    decreases s.len(),
{
    if s.len() == 0 {
        Seq::empty()
    } else {
        let earlier = first_occurrences_by_theme(s.drop_last());
        if themes(earlier).contains(theme(s.last())) {
            earlier
        } else {
            earlier.push(s.last())
        }
    }
}

impl Form {
    /// The labels of the sections, in order.
    pub open spec fn labels(self) -> Seq<Seq<char>> {
        self.sections@.map_values(|s: Section| s.label@)
    }

    /// Create a new form with a name and no sections.
    pub fn new(name: &str) -> (f: Form)
        ensures
            f.name@ == name@,
            f.sections@.len() == 0,
    {
        Form { name: String::from_str(name), sections: Vec::new() }
    }

    /// Add a section at the end of the form.
    pub fn add_section(&mut self, section: Section)
        ensures
            final(self).name == old(self).name,
            final(self).sections@ == old(self).sections@.push(section),
    {
        self.sections.push(section);
    }

    /// The section labels joined by `-` (e.g. "A-B-A").
    pub fn pattern(&self) -> (p: String)
        ensures
            p@ == join_dash(self.labels()),
    {
        let mut p = String::new();
        let n = self.sections.len();
        proof {
            reveal_strlit("-");
            assert("-"@ =~= seq!['-']);
        }
        for i in 0..n
            invariant
                n == self.sections@.len(),
                "-"@ == seq!['-'],
                p@ == join_dash(self.labels().take(i as int)),
        {
            let ghost before = self.labels().take(i as int);
            let ghost p_before = p@;
            if i > 0 {
                p.append("-");
            }
            p.append(self.sections[i].label.as_str());
            proof {
                let now = self.labels().take(i + 1);
                assert(now.drop_last() =~= before);
                assert(now.last() == self.sections@[i as int].label@);
                if i == 0 {
                    assert(p@ =~= now[0]);
                } else {
                    assert(join_dash(now) == join_dash(before) + seq!['-'] + now.last());
                    assert(p@ =~= p_before + seq!['-'] + now.last());
                }
            }
        }
        assert(self.labels().take(n as int) =~= self.labels());
        p
    }

    /// The distinct section labels, in order of first occurrence; a return
    /// such as "A'" counts as its theme "A".
    pub fn unique_labels(&self) -> (u: Vec<&str>)
        ensures
            str_views(u@) == first_occurrences_by_theme(self.labels()),
    {
        let mut seen: Vec<&str> = Vec::new();
        let n = self.sections.len();
        for i in 0..n
            invariant
                n == self.sections@.len(),
                str_views(seen@) == first_occurrences_by_theme(self.labels().take(i as int)),
        {
            let label = self.sections[i].label.as_str();
            let ghost before = self.labels().take(i as int);
            proof {
                let now = self.labels().take(i + 1);
                assert(now.drop_last() =~= before);
            }
            if !contains_theme(&seen, label) {
                seen.push(label);
                assert(str_views(seen@) =~= str_views(seen@.drop_last()).push(label@));
            }
        }
        assert(self.labels().take(n as int) =~= self.labels());
        seen
    }
}

/// The number of characters of `s` that remain once its trailing primes
/// are removed.
fn theme_len(s: &str) -> (k: usize)
    ensures
        k <= s@.len(),
        theme(s@) == s@.subrange(0, k as int),
{
    let mut k = s.unicode_len();
    assert(s@.subrange(0, k as int) =~= s@);
    while k > 0 && s.get_char(k - 1) == '\''
        invariant
            k <= s@.len(),
            theme(s@) == theme(s@.subrange(0, k as int)),
        decreases k,
    {
        assert(s@.subrange(0, k as int).drop_last() =~= s@.subrange(0, k - 1));
        k = k - 1;
    }
    k
}

/// Whether two labels stand for the same theme.
fn same_theme(a: &str, b: &str) -> (r: bool)
    ensures
        r == (theme(a@) == theme(b@)),
{
    let ka = theme_len(a);
    let kb = theme_len(b);
    if ka != kb {
        return false;
    }
    let mut i: usize = 0;
    while i < ka
        invariant
            ka <= a@.len(),
            ka <= b@.len(),
            ka == kb,
            theme(a@) == a@.subrange(0, ka as int),
            theme(b@) == b@.subrange(0, kb as int),
            i <= ka,
            forall|j: int| 0 <= j < i ==> a@[j] == b@[j],
        decreases ka - i,
    {
        if a.get_char(i) != b.get_char(i) {
            assert(theme(a@)[i as int] != theme(b@)[i as int]);
            return false;
        }
        i = i + 1;
    }
    assert(theme(a@) =~= theme(b@));
    true
}

/// Whether `v` holds a label of the same theme as `x`.
fn contains_theme(v: &Vec<&str>, x: &str) -> (r: bool)
    ensures
        r == themes(str_views(v@)).contains(theme(x@)),
{
    let n = v.len();
    for i in 0..n
        invariant
            n == v@.len(),
            forall|j: int| 0 <= j < i ==> theme(v@[j]@) != theme(x@),
    {
        if same_theme(v[i], x) {
            assert(themes(str_views(v@))[i as int] == theme(x@));
            return true;
        }
    }
    assert forall|j: int| 0 <= j < themes(str_views(v@)).len() implies themes(str_views(v@))[j]
        != theme(x@) by {
        assert(theme(v@[j]@) != theme(x@));
    }
    false
}

} // verus!
