//! The three output lines and the operations a tick performs on them.
use vstd::prelude::*;

verus! {

/// The levels of the three output lines (`true` is lit).
#[derive(Clone, Copy, Debug, PartialEq, Eq, Structural)]
pub struct Lamps {
    pub red: bool,
    pub orange: bool,
    pub green: bool,
}

/// What a tick does to one output line.
#[derive(Clone, Copy, Debug, PartialEq, Eq, Structural)]
pub enum LineOp {
    Keep,
    High,
    Low,
    Toggle,
}

/// One operation for each of the three lines.
#[derive(Clone, Copy, Debug, PartialEq, Eq, Structural)]
pub struct Effect {
    pub red: LineOp,
    pub orange: LineOp,
    pub green: LineOp,
}

impl LineOp {
    /// The level of a line that was at `level` once this operation is done.
    pub open spec fn spec_apply(self, level: bool) -> bool {
        match self {
            LineOp::Keep => level,
            LineOp::High => true,
            LineOp::Low => false,
            LineOp::Toggle => !level,
        }
    }

    #[verifier::when_used_as_spec(spec_apply)]
    pub fn apply(self, level: bool) -> (r: bool)
        ensures
            r == self.spec_apply(level),
    {
        match self {
            LineOp::Keep => level,
            LineOp::High => true,
            LineOp::Low => false,
            LineOp::Toggle => !level,
        }
    }
}

impl Lamps {
    /// All three lines low.
    pub open spec fn spec_dark() -> Lamps {
        Lamps { red: false, orange: false, green: false }
    }

    #[verifier::when_used_as_spec(spec_dark)]
    pub fn dark() -> (r: Lamps)
        ensures
            r == Lamps::spec_dark(),
    {
        Lamps { red: false, orange: false, green: false }
    }

    /// The lines after each has had its operation of `e`.
    pub open spec fn spec_after(self, e: Effect) -> Lamps {
        Lamps {
            red: e.red.apply(self.red),
            orange: e.orange.apply(self.orange),
            green: e.green.apply(self.green),
        }
    }

    #[verifier::when_used_as_spec(spec_after)]
    pub fn after(self, e: Effect) -> (r: Lamps)
        ensures
            r == self.spec_after(e),
    {
        Lamps { red: e.red.apply(self.red), orange: e.orange.apply(self.orange), green: e.green.apply(self.green) }
    }
}

impl Effect {
    /// Leaves every line as it is.
    pub open spec fn spec_none() -> Effect {
        Effect { red: LineOp::Keep, orange: LineOp::Keep, green: LineOp::Keep }
    }

    #[verifier::when_used_as_spec(spec_none)]
    pub fn none() -> (r: Effect)
        ensures
            r == Effect::spec_none(),
    {
        Effect { red: LineOp::Keep, orange: LineOp::Keep, green: LineOp::Keep }
    }

    /// Drives every line low.
    pub open spec fn spec_all_low() -> Effect {
        Effect { red: LineOp::Low, orange: LineOp::Low, green: LineOp::Low }
    }

    #[verifier::when_used_as_spec(spec_all_low)]
    pub fn all_low() -> (r: Effect)
        ensures
            r == Effect::spec_all_low(),
    {
        Effect { red: LineOp::Low, orange: LineOp::Low, green: LineOp::Low }
    }
}

} // verus!
