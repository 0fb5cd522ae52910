use vstd::prelude::*;

verus! {

/// The cyclic spinner shown in a response pane's title while a request for
/// that pane is outstanding. `Idle` is the phase with no request.
#[derive(Clone, Copy, Debug, PartialEq, Eq, Structural)]
pub enum ShaiRequestProgress {
    Idle,
    S0,
    S1,
    S2,
    S3,
}

impl Default for ShaiRequestProgress {
    fn default() -> (r: ShaiRequestProgress)
        ensures
            r == ShaiRequestProgress::Idle,
    {
        ShaiRequestProgress::Idle
    }
}

impl ShaiRequestProgress {
    /// The phase after one tick: idle and the last phase both lead to the
    /// first one.
    pub open spec fn spec_next_state(self) -> ShaiRequestProgress {
        match self {
            ShaiRequestProgress::Idle => ShaiRequestProgress::S0,
            ShaiRequestProgress::S3 => ShaiRequestProgress::S0,
            ShaiRequestProgress::S0 => ShaiRequestProgress::S1,
            ShaiRequestProgress::S1 => ShaiRequestProgress::S2,
            ShaiRequestProgress::S2 => ShaiRequestProgress::S3,
        }
    }

    /// The symbol drawn for each phase.
    pub open spec fn spec_symbol(self) -> Seq<char> {
        match self {
            ShaiRequestProgress::Idle => seq![],
            ShaiRequestProgress::S0 => seq!['-'],
            ShaiRequestProgress::S1 => seq!['\\'],
            ShaiRequestProgress::S2 => seq!['|'],
            ShaiRequestProgress::S3 => seq!['/'],
        }
    }

    pub fn next_state(self) -> (r: ShaiRequestProgress)
        ensures
            r == self.spec_next_state(),
            r != ShaiRequestProgress::Idle,
    {
        match self {
            ShaiRequestProgress::Idle | ShaiRequestProgress::S3 => ShaiRequestProgress::S0,
            ShaiRequestProgress::S0 => ShaiRequestProgress::S1,
            ShaiRequestProgress::S1 => ShaiRequestProgress::S2,
            ShaiRequestProgress::S2 => ShaiRequestProgress::S3,
        }
    }

    /// The text shown for this phase in a pane title.
    pub fn symbol(&self) -> (r: String)
        ensures
            r@ == self.spec_symbol(),
    {
        let r = match self {
            ShaiRequestProgress::Idle => String::new(),
            ShaiRequestProgress::S0 => String::from_str("-"),
            ShaiRequestProgress::S1 => String::from_str("\\"),
            ShaiRequestProgress::S2 => String::from_str("|"),
            ShaiRequestProgress::S3 => String::from_str("/"),
        };
        proof {
            reveal_strlit("-");
            reveal_strlit("\\");
            reveal_strlit("|");
            reveal_strlit("/");
        }
        r
    }
}

} // verus!
