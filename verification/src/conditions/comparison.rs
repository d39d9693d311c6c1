//! Comparison operators that condition rows name by number.
use vstd::prelude::*;

verus! {

/// How a measured value is compared with the value of a condition row.
#[derive(Debug, Clone, Copy, PartialEq, Eq, Structural)]
pub enum ComparisonType {
    Eq,
    High,
    Low,
    HighEq,
    LowEq,
}

impl ComparisonType {
    pub open spec fn spec_from_repr(raw: u32) -> Option<ComparisonType> {
        if raw == 0 {
            Some(ComparisonType::Eq)
        } else if raw == 1 {
            Some(ComparisonType::High)
        } else if raw == 2 {
            Some(ComparisonType::Low)
        } else if raw == 3 {
            Some(ComparisonType::HighEq)
        } else if raw == 4 {
            Some(ComparisonType::LowEq)
        } else {
            None
        }
    }

    pub fn from_repr(raw: u32) -> (r: Option<ComparisonType>)
        ensures
            r == Self::spec_from_repr(raw),
    {
        match raw {
            0 => Some(ComparisonType::Eq),
            1 => Some(ComparisonType::High),
            2 => Some(ComparisonType::Low),
            3 => Some(ComparisonType::HighEq),
            4 => Some(ComparisonType::LowEq),
            _ => None,
        }
    }

    /// Whether `val1` stands in this relation to `val2`.
    pub open spec fn spec_compare(self, val1: int, val2: int) -> bool {
        match self {
            ComparisonType::Eq => val1 == val2,
            ComparisonType::High => val1 > val2,
            ComparisonType::Low => val1 < val2,
            ComparisonType::HighEq => val1 >= val2,
            ComparisonType::LowEq => val1 <= val2,
        }
    }

    pub fn compare(&self, val1: u32, val2: u32) -> (r: bool)
        ensures
            r == self.spec_compare(val1 as int, val2 as int),
    {
        match self {
            ComparisonType::Eq => val1 == val2,
            ComparisonType::High => val1 > val2,
            ComparisonType::Low => val1 < val2,
            ComparisonType::HighEq => val1 >= val2,
            ComparisonType::LowEq => val1 <= val2,
        }
    }
}

/// Of two values exactly one is equal to, higher than or lower than the other;
/// the inclusive operators are the strict ones or equality, and `High` is `Low`
/// with the operands swapped.
pub proof fn lemma_compare_laws(a: int, b: int)
    ensures
        ComparisonType::Eq.spec_compare(a, b) as int + ComparisonType::High.spec_compare(a, b) as int
            + ComparisonType::Low.spec_compare(a, b) as int == 1,
        ComparisonType::HighEq.spec_compare(a, b) == (ComparisonType::High.spec_compare(a, b)
            || ComparisonType::Eq.spec_compare(a, b)),
        ComparisonType::LowEq.spec_compare(a, b) == (ComparisonType::Low.spec_compare(a, b)
            || ComparisonType::Eq.spec_compare(a, b)),
        ComparisonType::High.spec_compare(a, b) == ComparisonType::Low.spec_compare(b, a),
        ComparisonType::HighEq.spec_compare(a, b) == ComparisonType::LowEq.spec_compare(b, a),
{
}

/// Comparison numbers 0 to 4 are equal, higher, lower, higher or equal, lower
/// or equal, each comparing the first value with the second; no other number
/// names a comparison.
pub proof fn lemma_comparison_numbers(a: int, b: int)
    ensures
        ComparisonType::spec_from_repr(0) == Some(ComparisonType::Eq),
        ComparisonType::spec_from_repr(1) == Some(ComparisonType::High),
        ComparisonType::spec_from_repr(2) == Some(ComparisonType::Low),
        ComparisonType::spec_from_repr(3) == Some(ComparisonType::HighEq),
        ComparisonType::spec_from_repr(4) == Some(ComparisonType::LowEq),
        forall|raw: u32| raw > 4 ==> #[trigger] ComparisonType::spec_from_repr(raw) is None,
        ComparisonType::Eq.spec_compare(a, b) == (a == b),
        ComparisonType::High.spec_compare(a, b) == (a > b),
        ComparisonType::Low.spec_compare(a, b) == (a < b),
        ComparisonType::HighEq.spec_compare(a, b) == (a >= b),
        ComparisonType::LowEq.spec_compare(a, b) == (a <= b),
{
}

} // verus!
