use vstd::prelude::*;
use vstd::std_specs::cmp::PartialEqSpecImpl;
use vstd::string::StringExecFns;

use crate::text::str_eq;

verus! {

/// A section within a musical form: a distinct phase of a task.
#[derive(Debug, Clone)]
pub struct Section {
    /// Label for this section (e.g., "A", "B", "development").
    pub label: String,
    /// Human-readable description.
    pub description: String,
    /// Which agent is responsible (if assigned).
    pub agent: Option<String>,
    /// Estimated relative duration, held as the bit pattern of an `f64`
    /// (`NORMAL_WEIGHT_BITS` is 1.0, the normal duration).
    pub weight_bits: u64,
}

/// Bit pattern of the `f64` value 1.0: the normal weight.
pub const NORMAL_WEIGHT_BITS: u64 = 0x3FF0_0000_0000_0000;

/// Bit pattern of the `f64` value 1.5: the weight of a development section.
pub const DEVELOPMENT_WEIGHT_BITS: u64 = 0x3FF8_0000_0000_0000;

/// Whether the bit pattern `x` encodes an `f64` NaN.
pub open spec fn is_nan_bits(x: u64) -> bool {
    x & 0x7FF0_0000_0000_0000 == 0x7FF0_0000_0000_0000 && x & 0x000F_FFFF_FFFF_FFFF != 0
}

/// Whether two weights are equal as `f64` values: a NaN equals nothing,
/// and +0.0 equals -0.0.
pub open spec fn weight_eq(a: u64, b: u64) -> bool {
    &&& !is_nan_bits(a)
    &&& !is_nan_bits(b)
    &&& (a == b || (a & 0x7FFF_FFFF_FFFF_FFFF == 0 && b & 0x7FFF_FFFF_FFFF_FFFF == 0))
}

/// Compares two weights as `f64` values.
fn weights_equal(a: u64, b: u64) -> (r: bool)
    ensures
        r == weight_eq(a, b),
{
    let a_nan = a & 0x7FF0_0000_0000_0000 == 0x7FF0_0000_0000_0000 && a & 0x000F_FFFF_FFFF_FFFF != 0;
    let b_nan = b & 0x7FF0_0000_0000_0000 == 0x7FF0_0000_0000_0000 && b & 0x000F_FFFF_FFFF_FFFF != 0;
    !a_nan && !b_nan && (a == b || (a & 0x7FFF_FFFF_FFFF_FFFF == 0 && b & 0x7FFF_FFFF_FFFF_FFFF
        == 0))
}

impl PartialEq for Section {
    fn eq(&self, other: &Section) -> (r: bool) {
        let same_agent = match (&self.agent, &other.agent) {
            (Some(a), Some(b)) => str_eq(a.as_str(), b.as_str()),
            (None, None) => true,
            _ => false,
        };
        str_eq(self.label.as_str(), other.label.as_str()) && str_eq(
            self.description.as_str(),
            other.description.as_str(),
        ) && same_agent
            && weights_equal(self.weight_bits, other.weight_bits)
    }
}

impl PartialEqSpecImpl for Section {
    open spec fn obeys_eq_spec() -> bool {
        true
    }

    /// Sections are equal when their texts and agents are equal and their
    /// weights are equal as `f64` values.
    open spec fn eq_spec(&self, other: &Section) -> bool {
        &&& self.label@ == other.label@
        &&& self.description@ == other.description@
        &&& self.agent_view() == other.agent_view()
        &&& weight_eq(self.weight_bits, other.weight_bits)
    }
}

impl Section {
    /// The assigned agent's characters, if any.
    pub open spec fn agent_view(self) -> Option<Seq<char>> {
        match self.agent {
            Some(a) => Some(a@),
            None => None,
        }
    }

    /// This section has the given label, description, agent and weight.
    pub open spec fn has_parts(
        self,
        label: Seq<char>,
        description: Seq<char>,
        agent: Option<Seq<char>>,
        weight_bits: u64,
    ) -> bool {
        &&& self.label@ == label
        &&& self.description@ == description
        &&& self.agent_view() == agent
        &&& self.weight_bits == weight_bits
    }

    /// Create a new section with no agent and the normal weight.
    pub fn new(label: &str, description: &str) -> (s: Section)
        ensures
            s.has_parts(label@, description@, None, NORMAL_WEIGHT_BITS),
    {
        Section {
            label: String::from_str(label),
            description: String::from_str(description),
            agent: None,
            weight_bits: NORMAL_WEIGHT_BITS,
        }
    }

    /// Assign an agent to this section.
    pub fn with_agent(self, agent: &str) -> (s: Section)
        ensures
            s.label == self.label,
            s.description == self.description,
            s.agent_view() == Some(agent@),
            s.weight_bits == self.weight_bits,
    {
        let mut s = self;
        s.agent = Some(String::from_str(agent));
        s
    }

    /// Set the weight (relative duration), given as the bit pattern of an `f64`.
    pub fn with_weight_bits(self, weight_bits: u64) -> (s: Section)
        ensures
            s.label == self.label,
            s.description == self.description,
            s.agent == self.agent,
            s.weight_bits == weight_bits,
    {
        let mut s = self;
        s.weight_bits = weight_bits;
        s
    }
}

} // verus!
