//! Properties that hold of the library as a whole.
use vstd::prelude::*;

use crate::builder::rondo_agent;
use crate::detect::detected;
use crate::form::{first_occurrences_by_theme, theme, themes};
use crate::forms::{
    binary_labels, binary_shape, count_label, episode_label, lemma_episode_label_is_not_theme,
    rondo_label, rondo_labels,
    rondo_shape, sonata_labels, sonata_shape, ternary_labels, ternary_shape,
};
use crate::text::{is_prefix, join_dash};

verus! {

/// A binary form's pattern is "A-B", and it is detected as binary.
pub proof fn lemma_binary_form_detected()
    ensures
        binary_shape(binary_labels()),
        detected(binary_labels()) == Some("Binary"@),
        join_dash(binary_labels()) == "A-B"@,
{
    reveal_strlit("A");
    reveal_strlit("B");
    reveal_strlit("A-B");
    assert("A"@[0] != "B"@[0]);
    let l = binary_labels();
    assert(join_dash(l.drop_last()) == l[0]);
    assert(join_dash(l) =~= "A-B"@);
}

/// A ternary form's pattern is "A-B-A'": the return "A'" starts with the
/// opening "A", the form is detected as ternary, and its distinct labels
/// are "A" and "B" (the return "A'" is the theme "A" again).
pub proof fn lemma_ternary_form_detected()
    ensures
        ternary_shape(ternary_labels()),
        detected(ternary_labels()) == Some("Ternary"@),
        join_dash(ternary_labels()) == "A-B-A'"@,
        first_occurrences_by_theme(ternary_labels()) == seq!["A"@, "B"@],
{
    reveal_strlit("A");
    reveal_strlit("B");
    reveal_strlit("A'");
    reveal_strlit("A-B-A'");
    assert("A"@[0] != "B"@[0]);
    assert("A'"@[0] != "B"@[0]);
    let l = ternary_labels();
    assert(is_prefix(l[0], l[2])) by {
        assert(l[2].subrange(0, 1) =~= l[0]);
    }
    assert(!binary_shape(l));
    let l2 = l.drop_last();
    assert(l2.drop_last() =~= seq![l[0]]);
    assert(join_dash(l2.drop_last()) == l[0]);
    assert(join_dash(l2) == l[0] + seq!['-'] + l[1]);
    assert(join_dash(l) == join_dash(l2) + seq!['-'] + l[2]);
    assert(join_dash(l) =~= "A-B-A'"@);
    assert(theme(l[0]) == l[0]);
    assert(theme(l[1]) == l[1]);
    assert(l[2].drop_last() =~= l[0]);
    assert(theme(l[2]) == l[0]);
    let one = first_occurrences_by_theme(l.drop_last().drop_last());
    let zero = l.drop_last().drop_last().drop_last();
    assert(zero =~= Seq::<Seq<char>>::empty());
    assert(first_occurrences_by_theme(zero) =~= Seq::<Seq<char>>::empty());
    assert(!themes(first_occurrences_by_theme(zero)).contains(theme(l[0])));
    assert(l.drop_last().drop_last().drop_last() == zero);
    assert(l.drop_last().drop_last().last() == l[0]);
    assert(one =~= seq![l[0]]);
    assert(themes(one) =~= seq![l[0]]);
    let two = first_occurrences_by_theme(l.drop_last());
    assert(!themes(one).contains(l[1]));
    assert(two =~= seq![l[0], l[1]]);
    assert(themes(two) =~= seq![l[0], l[1]]);
    assert(themes(two)[0] == l[0]);
    assert(first_occurrences_by_theme(l) =~= seq!["A"@, "B"@]);
}

/// A sonata form is detected as a sonata.
pub proof fn lemma_sonata_form_detected()
    ensures
        sonata_shape(sonata_labels()),
        detected(sonata_labels()) == Some("Sonata"@),
{
    reveal_strlit("Exp");
    reveal_strlit("Dev");
    reveal_strlit("Recap");
    reveal_strlit("Exp-1");
    reveal_strlit("Exp-2");
    reveal_strlit("Recap-1");
    reveal_strlit("Recap-2");
    let l = sonata_labels();
    assert(l[0].subrange(0, 3) =~= "Exp"@);
    assert(l[1].subrange(0, 3) =~= "Exp"@);
    assert(l[2].subrange(0, 3) =~= "Dev"@);
    assert(l[3].subrange(0, 5) =~= "Recap"@);
    assert(l[4].subrange(0, 5) =~= "Recap"@);
}

/// In labels that hold the theme "A" exactly at the even positions, the
/// first `k` labels hold it `(k + 1) / 2` times.
proof fn lemma_alternating_theme_count(l: Seq<Seq<char>>, k: int)
    requires
        0 <= k <= l.len(),
        forall|i: int| 0 <= i < l.len() ==> (l[i] == "A"@ <==> i % 2 == 0),
    ensures
        count_label(l.take(k), "A"@) == (k + 1) / 2,
    decreases k,
{
    if k == 0 {
        assert(l.take(0) =~= Seq::<Seq<char>>::empty());
    } else {
        lemma_alternating_theme_count(l, k - 1);
        assert(l.take(k).drop_last() =~= l.take(k - 1));
        assert(l.take(k).last() == l[k - 1]);
    }
}

/// A rondo with `n` episodes holds the theme `n + 1` times, at every even
/// position and nowhere else. With two or more episodes it is detected as a rondo; with a
/// single episode (A-B-A) it is detected as ternary; with none it is not
/// detected at all.
pub proof fn lemma_rondo_form_detected(n: nat)
    ensures
        count_label(rondo_labels(n), "A"@) == n + 1,
        forall|i: int|
            0 <= i < rondo_labels(n).len() && #[trigger] rondo_labels(n)[i] == "A"@ ==> i % 2
                == 0,
        forall|i: int|
            0 <= i < rondo_labels(n).len() && i % 2 == 0 ==> #[trigger] rondo_labels(n)[i]
                == "A"@,
        detected(rondo_labels(n)) == if n >= 2 {
            Some("Rondo"@)
        } else if n == 1 {
            Some("Ternary"@)
        } else {
            None
        },
{
    let l = rondo_labels(n);
    assert forall|i: int| 0 <= i < l.len() implies (l[i] == "A"@ <==> i % 2 == 0) by {
        if i % 2 == 1 {
            lemma_episode_label_is_not_theme((i - 1) / 2);
        }
    }
    lemma_alternating_theme_count(l, (2 * n + 1) as int);
    assert(l.take((2 * n + 1) as int) =~= l);
    reveal_strlit("A");
    reveal_strlit("Exp");
    if n == 1 {
        lemma_episode_label_is_not_theme(0);
        assert(l[1] == episode_label(0));
        assert(l[2].subrange(0, 1) =~= l[0]);
        assert(ternary_shape(l));
    }
    if n >= 2 {
        assert(!is_prefix("Exp"@, l[0]));
        assert(rondo_shape(l));
    }
}

/// In a rondo plan every theme section "A" goes to the theme agent, and
/// every episode with an episode agent goes to that agent.
pub proof fn lemma_rondo_plan_agents(
    n: nat,
    theme_agent: Seq<char>,
    episode_agents: Seq<Seq<char>>,
)
    ensures
        forall|j: int|
            0 <= j < rondo_labels(n).len() && #[trigger] rondo_labels(n)[j] == "A"@
                ==> rondo_agent(theme_agent, episode_agents, j) == Some(theme_agent),
        forall|i: int|
            0 <= i < n && i < episode_agents.len() ==> #[trigger] rondo_agent(
                theme_agent,
                episode_agents,
                2 * i + 1,
            ) == Some(episode_agents[i]),
{
    lemma_rondo_form_detected(n);
    assert forall|i: int| 0 <= i < n && i < episode_agents.len() implies #[trigger] rondo_agent(
        theme_agent,
        episode_agents,
        2 * i + 1,
    ) == Some(episode_agents[i]) by {
        assert((2 * i + 1) % 2 == 1);
        assert((2 * i + 1 - 1) / 2 == i);
    }
}

/// The distinct labels hold no two labels of the same theme, hold a label
/// of every theme that occurs in the form, and hold only labels of the form.
pub proof fn lemma_unique_labels(s: Seq<Seq<char>>)
    ensures
        forall|i: int, j: int|
            0 <= i < j < first_occurrences_by_theme(s).len() ==> theme(
                first_occurrences_by_theme(s)[i],
            ) != theme(first_occurrences_by_theme(s)[j]),
        forall|x: Seq<char>|
            themes(first_occurrences_by_theme(s)).contains(x) <==> themes(s).contains(x),
        forall|y: Seq<char>| first_occurrences_by_theme(s).contains(y) ==> s.contains(y),
    decreases s.len(),
{
    if s.len() > 0 {
        let t = s.drop_last();
        lemma_unique_labels(t);
        let ft = first_occurrences_by_theme(t);
        let fs = first_occurrences_by_theme(s);
        let last = s.last();
        let kept = themes(ft).contains(theme(last));
        assert(themes(s) =~= themes(t).push(theme(last)));
        if kept {
            assert(fs == ft);
        } else {
            assert(fs == ft.push(last));
            assert(themes(fs) =~= themes(ft).push(theme(last)));
        }
        assert forall|x: Seq<char>| themes(fs).contains(x) <==> themes(s).contains(x) by {
            if themes(s).contains(x) {
                let k = choose|k: int| 0 <= k < themes(s).len() && themes(s)[k] == x;
                if k < t.len() {
                    assert(themes(t)[k] == x);
                    assert(themes(t).contains(x));
                    assert(themes(ft).contains(x));
                    let q = choose|q: int| 0 <= q < themes(ft).len() && themes(ft)[q] == x;
                    assert(themes(fs)[q] == x);
                } else if kept {
                    assert(themes(ft).contains(x));
                } else {
                    assert(themes(fs)[ft.len() as int] == x);
                }
            }
            if themes(fs).contains(x) {
                let q = choose|q: int| 0 <= q < themes(fs).len() && themes(fs)[q] == x;
                if q < ft.len() {
                    assert(themes(ft)[q] == x);
                    assert(themes(t).contains(x));
                    let k = choose|k: int| 0 <= k < themes(t).len() && themes(t)[k] == x;
                    assert(themes(s)[k] == x);
                } else {
                    assert(themes(s)[t.len() as int] == x);
                }
            }
        }
        assert forall|y: Seq<char>| fs.contains(y) implies s.contains(y) by {
            let q = choose|q: int| 0 <= q < fs.len() && fs[q] == y;
            if q < ft.len() {
                assert(ft[q] == y);
                assert(ft.contains(y));
                assert(t.contains(y));
                let k = choose|k: int| 0 <= k < t.len() && t[k] == y;
                assert(s[k] == y);
            } else {
                assert(s[t.len() as int] == y);
            }
        }
        assert forall|i: int, j: int| 0 <= i < j < fs.len() implies theme(fs[i]) != theme(
            fs[j],
        ) by {
            if !kept && j == ft.len() {
                assert(ft[i] == fs[i]);
                assert(themes(ft)[i] == theme(fs[i]));
            }
        }
    }
}

/// At most one of the four shapes holds of any labels, so the order in
/// which detection tries them decides nothing.
pub proof fn lemma_shapes_exclusive(l: Seq<Seq<char>>)
    ensures
        !(binary_shape(l) && ternary_shape(l)),
        !(binary_shape(l) && sonata_shape(l)),
        !(binary_shape(l) && rondo_shape(l)),
        !(ternary_shape(l) && sonata_shape(l)),
        !(ternary_shape(l) && rondo_shape(l)),
        !(sonata_shape(l) && rondo_shape(l)),
{
    reveal_strlit("A");
    reveal_strlit("Exp");
    if sonata_shape(l) && rondo_shape(l) {
        assert(l[0] == "A"@);
        assert(is_prefix("Exp"@, l[0]));
    }
}

/// Two sections form a binary form exactly when their labels differ,
/// whatever the labels are.
pub proof fn lemma_binary_means_two_different_labels(l: Seq<Seq<char>>)
    ensures
        binary_shape(l) <==> (l.len() == 2 && l[0] != l[1]),
{
}

/// Three sections form a ternary form exactly when the first and third
/// labels are prefixes of one another (one is a start of the other) and the
/// middle label differs from both.
pub proof fn lemma_ternary_means_return_and_contrast(l: Seq<Seq<char>>)
    ensures
        ternary_shape(l) <==> {
            &&& l.len() == 3
            &&& (l[0].len() <= l[2].len() && l[2].subrange(0, l[0].len() as int) == l[0]) || (
            l[2].len() <= l[0].len() && l[0].subrange(0, l[2].len() as int) == l[2])
            &&& l[0] != l[1]
            &&& l[1] != l[2]
        },
{
}

/// A form is a rondo exactly when it has at least five sections and holds
/// the theme "A" at the even positions and only there; what the episode
/// labels are does not matter.
pub proof fn lemma_rondo_means_alternating_theme(l: Seq<Seq<char>>)
    ensures
        rondo_shape(l) <==> (l.len() >= 5 && forall|i: int|
            0 <= i < l.len() ==> (#[trigger] l[i] == "A"@ <==> i % 2 == 0)),
{
    if l.len() >= 5 && forall|i: int| 0 <= i < l.len() ==> (#[trigger] l[i] == "A"@ <==> i % 2 == 0) {
        lemma_alternating_theme_count(l, l.len() as int);
        assert(l.take(l.len() as int) =~= l);
    }
    if rondo_shape(l) {
        assert forall|i: int| 0 <= i < l.len() implies (#[trigger] l[i] == "A"@ <==> i % 2 == 0) by {
        }
    }
}

/// Sum of the lengths of the items.
pub open spec fn total_len(items: Seq<Seq<char>>) -> nat
    decreases items.len(),
{
    if items.len() == 0 {
        0
    } else {
        total_len(items.drop_last()) + items.last().len()
    }
}

/// The pattern holds every label, once per section, in order: one label
/// alone is its own pattern; adding a section adds a separator and that
/// section's label, whatever it is (so A-A-B keeps both As); and the
/// pattern is as long as all the labels together plus one separator
/// between each neighbouring pair.
pub proof fn lemma_pattern_holds_every_label(items: Seq<Seq<char>>, x: Seq<char>)
    ensures
        join_dash(seq![x]) == x,
        items.len() >= 1 ==> join_dash(items.push(x)) == join_dash(items) + seq!['-'] + x,
        items.len() >= 1 ==> join_dash(items).len() == total_len(items) + items.len() - 1,
    decreases items.len(),
{
    assert(items.push(x).drop_last() =~= items);
    if items.len() > 1 {
        lemma_pattern_holds_every_label(items.drop_last(), items.last());
    }
}

/// A label's theme is the label with its trailing primes removed and
/// nothing else: a label that does not end in a prime is its own theme,
/// adding a prime does not change the theme, the theme is a start of the
/// label, everything after it is primes, and it does not end in a prime.
pub proof fn lemma_theme_strips_only_trailing_primes(l: Seq<char>)
    ensures
        (l.len() == 0 || l.last() != '\'') ==> theme(l) == l,
        theme(l.push('\'')) == theme(l),
        theme(l).len() <= l.len(),
        l.subrange(0, theme(l).len() as int) == theme(l),
        forall|i: int| theme(l).len() <= i < l.len() ==> l[i] == '\'',
        theme(l).len() == 0 || theme(l).last() != '\'',
    decreases l.len(),
{
    assert(l.push('\'').drop_last() =~= l);
    if l.len() > 0 && l.last() == '\'' {
        let t = l.drop_last();
        lemma_theme_strips_only_trailing_primes(t);
        assert(l.subrange(0, theme(l).len() as int) =~= t.subrange(0, theme(t).len() as int));
        assert forall|i: int| theme(l).len() <= i < l.len() implies l[i] == '\'' by {
            if i < t.len() {
                assert(l[i] == t[i]);
            }
        }
    } else {
        assert(l.subrange(0, l.len() as int) =~= l);
    }
}

/// Labels that are all different and do not end in a prime are all kept,
/// in order, among the distinct labels.
pub proof fn lemma_unique_labels_keep_distinct_plain_labels(s: Seq<Seq<char>>)
    requires
        forall|i: int| 0 <= i < s.len() ==> (#[trigger] s[i]).len() == 0 || s[i].last() != '\'',
        forall|i: int, j: int| 0 <= i < j < s.len() ==> s[i] != s[j],
    ensures
        first_occurrences_by_theme(s) == s,
    decreases s.len(),
{
    if s.len() > 0 {
        let t = s.drop_last();
        let x = s.last();
        assert forall|i: int| 0 <= i < t.len() implies (#[trigger] t[i]).len() == 0 || t[i].last()
            != '\'' by {
            assert(t[i] == s[i]);
        }
        lemma_unique_labels_keep_distinct_plain_labels(t);
        lemma_theme_strips_only_trailing_primes(x);
        assert forall|i: int| 0 <= i < t.len() implies themes(t)[i] != theme(x) by {
            assert(t[i] == s[i]);
            lemma_theme_strips_only_trailing_primes(t[i]);
            assert(s[i] != s[s.len() - 1]);
        }
        assert(!themes(t).contains(theme(x)));
        assert(t.push(x) =~= s);
    }
}

} // verus!
