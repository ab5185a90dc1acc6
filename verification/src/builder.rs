//! Task plans that follow a musical form, with agents assigned to sections.
use vstd::prelude::*;

use crate::form::Form;
use crate::forms::{
    binary_labels, lemma_episode_label_is_not_theme, rondo_description, rondo_label, rondo_labels,
    sonata_labels, ternary_labels, BinaryForm, RondoForm, SonataForm, TernaryForm,
};
use crate::section::{Section, DEVELOPMENT_WEIGHT_BITS, NORMAL_WEIGHT_BITS};
use crate::text::{str_eq, str_views};

verus! {

/// Agent of the section at position `j` of a rondo plan: the theme agent on
/// every theme section, the episode agents in order on the episodes, and
/// none on the episodes left over once the episode agents run out.
pub open spec fn rondo_agent(theme_agent: Seq<char>, episode_agents: Seq<Seq<char>>, j: int) -> Option<
    Seq<char>,
> {
    if j % 2 == 0 {
        Some(theme_agent)
    } else if (j - 1) / 2 < episode_agents.len() {
        Some(episode_agents[(j - 1) / 2])
    } else {
        None
    }
}

/// Agent at position `j` once the theme agent is assigned below position `i`.
spec fn theme_pass_agent(theme_agent: Seq<char>, i: int, j: int) -> Option<Seq<char>> {
    if j < i && j % 2 == 0 {
        Some(theme_agent)
    } else {
        None
    }
}

/// Agent at position `j` once the episode agents are assigned below position `i`.
spec fn episode_pass_agent(
    theme_agent: Seq<char>,
    episode_agents: Seq<Seq<char>>,
    i: int,
    j: int,
) -> Option<Seq<char>> {
    if j < i {
        rondo_agent(theme_agent, episode_agents, j)
    } else if j % 2 == 0 {
        Some(theme_agent)
    } else {
        None
    }
}

/// Replaces the section at `i` by the same section with `agent` assigned.
fn assign_agent(sections: &mut Vec<Section>, i: usize, agent: &str)
    requires
        i < old(sections)@.len(),
    ensures
        final(sections)@.len() == old(sections)@.len(),
        forall|j: int|
            0 <= j < old(sections)@.len() && j != i ==> final(sections)@[j] == old(sections)@[j],
        final(sections)@[i as int].label == old(sections)@[i as int].label,
        final(sections)@[i as int].description == old(sections)@[i as int].description,
        final(sections)@[i as int].weight_bits == old(sections)@[i as int].weight_bits,
        final(sections)@[i as int].agent_view() == Some(agent@),
{
    let section = sections.remove(i);
    sections.insert(i, section.with_agent(agent));
}

/// Builds task plans following specific musical forms.
pub struct FormBuilder;

impl FormBuilder {
    /// Build a binary form task plan with agents.
    pub fn binary(agent_a: &str, agent_b: &str, task_a: &str, task_b: &str) -> (f: Form)
        ensures
            f.name@ == "Binary"@,
            f.sections@.len() == 2,
            f.sections@[0].has_parts("A"@, task_a@, Some(agent_a@), NORMAL_WEIGHT_BITS),
            f.sections@[1].has_parts("B"@, task_b@, Some(agent_b@), NORMAL_WEIGHT_BITS),
            f.labels() == binary_labels(),
    {
        let mut form = BinaryForm::build(task_a, task_b);
        assign_agent(&mut form.sections, 0, agent_a);
        assign_agent(&mut form.sections, 1, agent_b);
        assert(form.labels() =~= binary_labels());
        form
    }

    /// Build a ternary form task plan with agents: the first agent takes
    /// both A sections, the second the contrasting B section.
    pub fn ternary(
        agent_a: &str,
        agent_b: &str,
        task_a: &str,
        task_b: &str,
        task_a_prime: &str,
    ) -> (f: Form)
        ensures
            f.name@ == "Ternary"@,
            f.sections@.len() == 3,
            f.sections@[0].has_parts("A"@, task_a@, Some(agent_a@), NORMAL_WEIGHT_BITS),
            f.sections@[1].has_parts("B"@, task_b@, Some(agent_b@), NORMAL_WEIGHT_BITS),
            f.sections@[2].has_parts("A'"@, task_a_prime@, Some(agent_a@), NORMAL_WEIGHT_BITS),
            f.labels() == ternary_labels(),
    {
        let mut form = TernaryForm::build(task_a, task_b, task_a_prime);
        assign_agent(&mut form.sections, 0, agent_a);
        assign_agent(&mut form.sections, 1, agent_b);
        assign_agent(&mut form.sections, 2, agent_a);
        assert(form.labels() =~= ternary_labels());
        form
    }

    /// Build a rondo form task plan: the theme agent takes every "A"
    /// section, the episode agents take the other sections in order.
    pub fn rondo(
        theme_agent: &str,
        episode_agents: Vec<&str>,
        theme_task: &str,
        episode_tasks: Vec<&str>,
    ) -> (f: Form)
        ensures
            f.name@ == "Rondo"@,
            f.sections@.len() == 2 * episode_tasks@.len() + 1,
            forall|j: int|
                0 <= j < f.sections@.len() ==> (#[trigger] f.sections@[j]).has_parts(
                    rondo_label(j),
                    rondo_description(theme_task@, str_views(episode_tasks@), j),
                    rondo_agent(theme_agent@, str_views(episode_agents@), j),
                    NORMAL_WEIGHT_BITS,
                ),
            f.labels() == rondo_labels(episode_tasks@.len()),
    {
        let ghost tasks = str_views(episode_tasks@);
        let ghost agents = str_views(episode_agents@);
        let mut form = RondoForm::build(theme_task, episode_tasks);
        let n = form.sections.len();

        // Assign the theme agent to all A sections.
        let mut i: usize = 0;
        while i < n
            invariant
                i <= n,
                n == form.sections@.len(),
                form.name@ == "Rondo"@,
                forall|j: int|
                    0 <= j < n ==> #[trigger] form.sections@[j].has_parts(
                        rondo_label(j),
                        rondo_description(theme_task@, tasks, j),
                        theme_pass_agent(theme_agent@, i as int, j),
                        NORMAL_WEIGHT_BITS,
                    ),
            decreases n - i,
        {
            let ghost before = form.sections@;
            proof {
                if i % 2 == 1 {
                    lemma_episode_label_is_not_theme((i - 1) / 2);
                }
                assert(before[i as int].has_parts(
                    rondo_label(i as int),
                    rondo_description(theme_task@, tasks, i as int),
                    theme_pass_agent(theme_agent@, i as int, i as int),
                    NORMAL_WEIGHT_BITS,
                ));
            }
            if str_eq(form.sections[i].label.as_str(), "A") {
                assign_agent(&mut form.sections, i, theme_agent);
            }
            proof {
                assert forall|j: int| 0 <= j < n implies #[trigger] form.sections@[j].has_parts(
                    rondo_label(j),
                    rondo_description(theme_task@, tasks, j),
                    theme_pass_agent(theme_agent@, i + 1, j),
                    NORMAL_WEIGHT_BITS,
                ) by {
                    assert(before[j].has_parts(
                        rondo_label(j),
                        rondo_description(theme_task@, tasks, j),
                        theme_pass_agent(theme_agent@, i as int, j),
                        NORMAL_WEIGHT_BITS,
                    ));
                }
            }
            i = i + 1;
        }
        proof {
            assert forall|j: int| 0 <= j < n implies #[trigger] form.sections@[j].has_parts(
                rondo_label(j),
                rondo_description(theme_task@, tasks, j),
                episode_pass_agent(theme_agent@, agents, 0, j),
                NORMAL_WEIGHT_BITS,
            ) by {
                assert(form.sections@[j].has_parts(
                    rondo_label(j),
                    rondo_description(theme_task@, tasks, j),
                    theme_pass_agent(theme_agent@, n as int, j),
                    NORMAL_WEIGHT_BITS,
                ));
            }
        }

        // Assign the episode agents to the contrasting sections, in order.
        let m = episode_agents.len();
        let mut ep_idx: usize = 0;
        i = 0;
        while i < n
            invariant
                i <= n,
                n == form.sections@.len(),
                m == episode_agents@.len(),
                agents == str_views(episode_agents@),
                form.name@ == "Rondo"@,
                ep_idx == if i / 2 < m {
                    (i / 2) as int
                } else {
                    m as int
                },
                forall|j: int|
                    0 <= j < n ==> #[trigger] form.sections@[j].has_parts(
                        rondo_label(j),
                        rondo_description(theme_task@, tasks, j),
                        episode_pass_agent(theme_agent@, agents, i as int, j),
                        NORMAL_WEIGHT_BITS,
                    ),
            decreases n - i,
        {
            let ghost before = form.sections@;
            proof {
                if i % 2 == 1 {
                    lemma_episode_label_is_not_theme((i - 1) / 2);
                }
                assert(before[i as int].has_parts(
                    rondo_label(i as int),
                    rondo_description(theme_task@, tasks, i as int),
                    episode_pass_agent(theme_agent@, agents, i as int, i as int),
                    NORMAL_WEIGHT_BITS,
                ));
            }
            if !str_eq(form.sections[i].label.as_str(), "A") && ep_idx < m {
                assert(agents[ep_idx as int] == episode_agents@[ep_idx as int]@);
                assign_agent(&mut form.sections, i, episode_agents[ep_idx]);
                ep_idx = ep_idx + 1;
            }
            proof {
                assert forall|j: int| 0 <= j < n implies #[trigger] form.sections@[j].has_parts(
                    rondo_label(j),
                    rondo_description(theme_task@, tasks, j),
                    episode_pass_agent(theme_agent@, agents, i + 1, j),
                    NORMAL_WEIGHT_BITS,
                ) by {
                    assert(before[j].has_parts(
                        rondo_label(j),
                        rondo_description(theme_task@, tasks, j),
                        episode_pass_agent(theme_agent@, agents, i as int, j),
                        NORMAL_WEIGHT_BITS,
                    ));
                }
            }
            i = i + 1;
        }
        proof {
            assert forall|j: int| 0 <= j < n implies #[trigger] form.sections@[j].has_parts(
                rondo_label(j),
                rondo_description(theme_task@, tasks, j),
                rondo_agent(theme_agent@, agents, j),
                NORMAL_WEIGHT_BITS,
            ) by {
                assert(form.sections@[j].has_parts(
                    rondo_label(j),
                    rondo_description(theme_task@, tasks, j),
                    episode_pass_agent(theme_agent@, agents, n as int, j),
                    NORMAL_WEIGHT_BITS,
                ));
            }
            assert forall|j: int| 0 <= j < n implies #[trigger] form.labels()[j] == rondo_labels(
                tasks.len(),
            )[j] by {
                assert(form.sections@[j].has_parts(
                    rondo_label(j),
                    rondo_description(theme_task@, tasks, j),
                    rondo_agent(theme_agent@, agents, j),
                    NORMAL_WEIGHT_BITS,
                ));
            }
            assert(form.labels() =~= rondo_labels(tasks.len()));
        }
        form
    }

    /// Build a sonata form task plan with an agent for each section.
    pub fn sonata(
        exp_agents: (&str, &str),
        dev_agent: &str,
        recap_agents: (&str, &str),
        exp_tasks: (&str, &str),
        dev_task: &str,
        recap_tasks: (&str, &str),
    ) -> (f: Form)
        ensures
            f.name@ == "Sonata"@,
            f.sections@.len() == 5,
            f.sections@[0].has_parts("Exp-1"@, exp_tasks.0@, Some(exp_agents.0@), NORMAL_WEIGHT_BITS),
            f.sections@[1].has_parts("Exp-2"@, exp_tasks.1@, Some(exp_agents.1@), NORMAL_WEIGHT_BITS),
            f.sections@[2].has_parts("Dev"@, dev_task@, Some(dev_agent@), DEVELOPMENT_WEIGHT_BITS),
            f.sections@[3].has_parts("Recap-1"@, recap_tasks.0@, Some(recap_agents.0@), NORMAL_WEIGHT_BITS),
            f.sections@[4].has_parts("Recap-2"@, recap_tasks.1@, Some(recap_agents.1@), NORMAL_WEIGHT_BITS),
            f.labels() == sonata_labels(),
    {
        let mut form = SonataForm::build(
            exp_tasks.0,
            exp_tasks.1,
            dev_task,
            recap_tasks.0,
            recap_tasks.1,
        );
        assign_agent(&mut form.sections, 0, exp_agents.0);
        assign_agent(&mut form.sections, 1, exp_agents.1);
        assign_agent(&mut form.sections, 2, dev_agent);
        assign_agent(&mut form.sections, 3, recap_agents.0);
        assign_agent(&mut form.sections, 4, recap_agents.1);
        assert(form.labels() =~= sonata_labels());
        form
    }
}

} // verus!
