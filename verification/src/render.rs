use crate::model::Arm;
use crate::model::ArmView;
use crate::model::Branch;
use crate::model::BranchView;
use crate::model::Dispatch;
use crate::model::DispatchView;
use crate::model::Mode;
use vstd::prelude::*;

verus! {

/// The expression a variant maps to. In optional mode a text is wrapped in
/// `Some`. A format request becomes a call that formats at compile time.
/// A branch without text is `None`, which has the type of the method only in
/// optional mode: see [`DispatchView::well_formed`].
pub open spec fn arm_text(arm: ArmView, mode: Mode) -> Seq<char> {
    match arm {
        ArmView::Absent => "None"@,
        ArmView::Literal(token) => match mode {
            Mode::Total => token,
            Mode::Optional => "Some("@ + token + ")"@,
        },
        ArmView::Format(args) => match mode {
            Mode::Total => "::const_format::formatcp!("@ + args + ")"@,
            Mode::Optional => "Some(::const_format::formatcp!("@ + args + "))"@,
        },
    }
}

/// One branch of the `match`, with the comma that ends it.
pub open spec fn branch_text(branch: BranchView, mode: Mode) -> Seq<char> {
    "Self::"@ + branch.variant + " => "@ + arm_text(branch.arm, mode) + ", "@
}

/// The first `n` branches, one after the other.
pub open spec fn branches_text(branches: Seq<BranchView>, n: int, mode: Mode) -> Seq<char>
    decreases n,
{
    if n <= 0 {
        Seq::empty()
    } else {
        branches_text(branches, n - 1, mode) + branch_text(branches[n - 1], mode)
    }
}

/// What stands before the branches.
pub open spec fn opening(target: Seq<char>, mode: Mode) -> Seq<char> {
    match mode {
        Mode::Total => "impl ::description::Description for "@ + target
            + " { fn description(&self) -> &'static str { match self { "@,
        Mode::Optional => "impl ::description::OptionalDescription for "@ + target
            + " { fn description(&self) -> Option<&'static str> { match self { "@,
    }
}

/// The source text of an implementation: the `impl` of the capability for
/// the target, whose one method matches on `self` with the branches in order.
pub open spec fn rendering(dispatch: DispatchView) -> Seq<char> {
    opening(dispatch.target, dispatch.mode) + branches_text(
        dispatch.branches,
        dispatch.branches.len() as int,
        dispatch.mode,
    ) + "} } }"@
}

fn push_arm(out: &mut String, arm: &Arm, mode: Mode)
    ensures
        final(out)@ == old(out)@ + arm_text(arm@, mode),
{
    let ghost before = out@;
    match arm {
        Arm::Absent => {
            out.append("None");
        },
        Arm::Literal(token) => match mode {
            Mode::Total => {
                out.append(token.as_str());
            },
            Mode::Optional => {
                out.append("Some(");
                out.append(token.as_str());
                out.append(")");
            },
        },
        Arm::Format(args) => match mode {
            Mode::Total => {
                out.append("::const_format::formatcp!(");
                out.append(args.as_str());
                out.append(")");
            },
            Mode::Optional => {
                out.append("Some(::const_format::formatcp!(");
                out.append(args.as_str());
                out.append("))");
            },
        },
    }
    assert(out@ =~= before + arm_text(arm@, mode));
}

fn push_branch(out: &mut String, branch: &Branch, mode: Mode)
    ensures
        final(out)@ == old(out)@ + branch_text(branch@, mode),
{
    let ghost before = out@;
    out.append("Self::");
    out.append(branch.variant.as_str());
    out.append(" => ");
    push_arm(out, &branch.arm, mode);
    out.append(", ");
    assert(out@ =~= before + branch_text(branch@, mode));
}

impl Dispatch {
    /// Whether every branch of a total dispatch has a text.
    pub fn is_well_formed(&self) -> (r: bool)
        ensures
            r == self@.well_formed(),
    {
        match self.mode {
            Mode::Optional => true,
            Mode::Total => {
                let mut i: usize = 0;
                while i < self.branches.len()
                    invariant
                        self@.mode == Mode::Total,
                        i <= self.branches.len(),
                        forall|j: int| 0 <= j < i ==> !((#[trigger] self@.branches[j]).arm is Absent),
                    decreases self.branches.len() - i,
                {
                    match self.branches[i].arm {
                        Arm::Absent => {
                            assert(self@.branches[i as int].arm is Absent);
                            return false;
                        },
                        _ => {},
                    }
                    i += 1;
                }
                true
            },
        }
    }

    /// The source text of the implementation.
    pub fn render(&self) -> (text: String)
        ensures
            text@ == rendering(self@),
    {
        let mut out = String::new();
        match self.mode {
            Mode::Total => {
                out.append("impl ::description::Description for ");
                out.append(self.target.as_str());
                out.append(" { fn description(&self) -> &'static str { match self { ");
            },
            Mode::Optional => {
                out.append("impl ::description::OptionalDescription for ");
                out.append(self.target.as_str());
                out.append(" { fn description(&self) -> Option<&'static str> { match self { ");
            },
        }
        assert(out@ =~= opening(self@.target, self@.mode));
        let mut i: usize = 0;
        while i < self.branches.len()
            invariant
                i <= self.branches.len(),
                out@ == opening(self@.target, self@.mode) + branches_text(
                    self@.branches,
                    i as int,
                    self@.mode,
                ),
            decreases self.branches.len() - i,
        {
            let ghost before = out@;
            push_branch(&mut out, &self.branches[i], self.mode);
            assert(out@ =~= opening(self@.target, self@.mode) + branches_text(
                self@.branches,
                i + 1,
                self@.mode,
            ));
            i += 1;
        }
        out.append("} } }");
        out
    }
}

} // verus!
