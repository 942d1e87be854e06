use vstd::prelude::*;

verus! {

/// Codes of the kernel's `ManifoldFillRule` enumeration, in the order of its C header.
pub const MANIFOLD_FILL_RULE_EVEN_ODD: u32 = 0;
pub const MANIFOLD_FILL_RULE_NON_ZERO: u32 = 1;
pub const MANIFOLD_FILL_RULE_POSITIVE: u32 = 2;
pub const MANIFOLD_FILL_RULE_NEGATIVE: u32 = 3;

/// How a polygon set decides which regions are filled.
#[derive(Debug, Clone, Copy, PartialEq, Eq, Structural)]
#[non_exhaustive]
pub enum FillRule {
    EvenOdd,
    NonZero,
    Positive,
    Negative,
    Unknown(u32),
}

/// The fill rule that a kernel code stands for.
pub open spec fn fill_rule_of_code(code: u32) -> FillRule {
    match code {
        0 => FillRule::EvenOdd,
        1 => FillRule::NonZero,
        2 => FillRule::Positive,
        3 => FillRule::Negative,
        _ => FillRule::Unknown(code),
    }
}

/// The kernel code of a fill rule; `Unknown` keeps its raw code.
pub open spec fn code_of_fill_rule(rule: FillRule) -> u32 {
    match rule {
        FillRule::EvenOdd => 0,
        FillRule::NonZero => 1,
        FillRule::Positive => 2,
        FillRule::Negative => 3,
        FillRule::Unknown(v) => v,
    }
}

/// A fill rule as `From<u32>` produces it: `Unknown` only holds codes that
/// name no known rule.
pub open spec fn is_canonical_fill_rule(rule: FillRule) -> bool {
    rule matches FillRule::Unknown(v) ==> v > MANIFOLD_FILL_RULE_NEGATIVE
}

impl From<u32> for FillRule {
    fn from(value: u32) -> (r: FillRule) {
        match value {
            MANIFOLD_FILL_RULE_EVEN_ODD => FillRule::EvenOdd,
            MANIFOLD_FILL_RULE_NON_ZERO => FillRule::NonZero,
            MANIFOLD_FILL_RULE_POSITIVE => FillRule::Positive,
            MANIFOLD_FILL_RULE_NEGATIVE => FillRule::Negative,
            _ => FillRule::Unknown(value),
        }
    }
}

impl vstd::std_specs::convert::FromSpecImpl<u32> for FillRule {
    open spec fn obeys_from_spec() -> bool {
        true
    }

    open spec fn from_spec(v: u32) -> FillRule {
        fill_rule_of_code(v)
    }
}

impl From<FillRule> for u32 {
    fn from(value: FillRule) -> (r: u32) {
        match value {
            FillRule::EvenOdd => MANIFOLD_FILL_RULE_EVEN_ODD,
            FillRule::NonZero => MANIFOLD_FILL_RULE_NON_ZERO,
            FillRule::Positive => MANIFOLD_FILL_RULE_POSITIVE,
            FillRule::Negative => MANIFOLD_FILL_RULE_NEGATIVE,
            FillRule::Unknown(v) => v,
        }
    }
}

impl vstd::std_specs::convert::FromSpecImpl<FillRule> for u32 {
    open spec fn obeys_from_spec() -> bool {
        true
    }

    open spec fn from_spec(v: FillRule) -> u32 {
        code_of_fill_rule(v)
    }
}

/// Decoding a kernel code and encoding the result gives the code back, for every code;
/// every decoded rule is canonical.
pub proof fn lemma_fill_rule_code_round_trip(code: u32)
    ensures
        code_of_fill_rule(fill_rule_of_code(code)) == code,
        is_canonical_fill_rule(fill_rule_of_code(code)),
{
}

/// Encoding a canonical fill rule and decoding the code gives the rule back.
pub proof fn lemma_fill_rule_round_trip(rule: FillRule)
    requires
        is_canonical_fill_rule(rule),
    ensures
        fill_rule_of_code(code_of_fill_rule(rule)) == rule,
{
}

} // verus!
