//! The operator's single-character commands.

use vstd::prelude::*;
use vstd::std_specs::convert::FromSpecImpl;

verus! {

/// What the operator asks for a branch.
#[derive(Debug, Clone, Copy, PartialEq, Eq, Structural)]
pub enum BranchAction {
    /// Display the commit at the branch's tip and ask again.
    Show,
    /// Leave the branch alone.
    Keep,
    /// Delete the branch.
    Delete,
    /// Leave this branch.
    Quit,
    /// The command was none of these.
    Invalid,
}

/// The action that a command byte stands for: `d`, `k`, `s` and `q` in lower
/// case, anything else is invalid.
pub open spec fn action_of_byte(c: u8) -> BranchAction {
    if c == 0x64u8 {
        BranchAction::Delete
    } else if c == 0x6bu8 {
        BranchAction::Keep
    } else if c == 0x73u8 {
        BranchAction::Show
    } else if c == 0x71u8 {
        BranchAction::Quit
    } else {
        BranchAction::Invalid
    }
}

/// A byte with an ASCII capital letter turned into the small one.
pub open spec fn lowered(c: u8) -> u8 {
    if 0x41u8 <= c <= 0x5au8 {
        (c + 32) as u8
    } else {
        c
    }
}

/// The action that the operator's input asks for: that of its first byte,
/// whichever case it is in. Empty input asks for nothing valid.
pub open spec fn action_of_input(input: Seq<u8>) -> BranchAction {
    if input.len() == 0 {
        BranchAction::Invalid
    } else {
        action_of_byte(lowered(input[0]))
    }
}

impl From<u8> for BranchAction {
    fn from(c: u8) -> (action: BranchAction) {
        if c == 0x64u8 {
            BranchAction::Delete
        } else if c == 0x6bu8 {
            BranchAction::Keep
        } else if c == 0x73u8 {
            BranchAction::Show
        } else if c == 0x71u8 {
            BranchAction::Quit
        } else {
            BranchAction::Invalid
        }
    }
}

impl FromSpecImpl<u8> for BranchAction {
    open spec fn obeys_from_spec() -> bool {
        true
    }

    open spec fn from_spec(c: u8) -> BranchAction {
        action_of_byte(c)
    }
}

impl BranchAction {
    /// The action's name, as it is shown to the operator.
    pub fn name(&self) -> (name: &'static str)
        ensures
            name@ == match self {
                BranchAction::Show => "Show"@,
                BranchAction::Keep => "Keep"@,
                BranchAction::Delete => "Delete"@,
                BranchAction::Quit => "Quit"@,
                BranchAction::Invalid => "Invalid"@,
            },
    {
        match self {
            BranchAction::Show => "Show",
            BranchAction::Keep => "Keep",
            BranchAction::Delete => "Delete",
            BranchAction::Quit => "Quit",
            BranchAction::Invalid => "Invalid",
        }
    }
}

/// Reads the operator's command from the bytes that were read at the prompt.
pub fn get_action(input: &[u8]) -> (action: BranchAction)
    ensures
        action == action_of_input(input@),
{
    if input.len() == 0 {
        return BranchAction::Invalid;
    }
    let first: u8 = input[0];
    let small: u8 = if 0x41u8 <= first && first <= 0x5au8 {
        first + 32
    } else {
        first
    };
    BranchAction::from(small)
}

/// Where the triage of one branch stands.
#[derive(Debug, Clone, Copy, PartialEq, Eq, Structural)]
pub enum Triage {
    /// The branch is shown and a command is awaited.
    Presented,
    /// The commit is being displayed; the prompt comes back afterwards.
    Shown,
    /// The branch is being deleted; the triage ends whatever comes of it.
    Deleting,
    /// The triage has ended and the branch was left alone, or its deletion
    /// was attempted.
    Kept,
    /// The operator has left the triage of this branch.
    Quit,
}

impl Triage {
    /// Whether the triage has ended.
    pub open spec fn is_over(self) -> bool {
        self is Kept || self is Quit
    }

    /// The state after a command. Only a branch that is presented takes
    /// commands: an invalid one leaves it presented.
    pub open spec fn after(self, action: BranchAction) -> Triage {
        if self is Presented {
            match action {
                BranchAction::Show => Triage::Shown,
                BranchAction::Delete => Triage::Deleting,
                BranchAction::Keep => Triage::Kept,
                BranchAction::Quit => Triage::Quit,
                BranchAction::Invalid => Triage::Presented,
            }
        } else {
            self
        }
    }

    /// The state once the work of the present state is done: the prompt
    /// returns after a display, and the triage ends after a deletion, whether
    /// it succeeded or failed.
    pub open spec fn settled(self) -> Triage {
        match self {
            Triage::Shown => Triage::Presented,
            Triage::Deleting => Triage::Kept,
            other => other,
        }
    }

    /// Takes a command.
    pub fn on_action(self, action: BranchAction) -> (next: Triage)
        ensures
            next == self.after(action),
    {
        match self {
            Triage::Presented => match action {
                BranchAction::Show => Triage::Shown,
                BranchAction::Delete => Triage::Deleting,
                BranchAction::Keep => Triage::Kept,
                BranchAction::Quit => Triage::Quit,
                BranchAction::Invalid => Triage::Presented,
            },
            other => other,
        }
    }

    /// Moves on once the work of the present state is done.
    pub fn on_done(self) -> (next: Triage)
        ensures
            next == self.settled(),
    {
        match self {
            Triage::Shown => Triage::Presented,
            Triage::Deleting => Triage::Kept,
            other => other,
        }
    }

    /// Whether the triage has ended.
    pub fn over(self) -> (ended: bool)
        ensures
            ended == self.is_over(),
    {
        match self {
            Triage::Kept => true,
            Triage::Quit => true,
            _ => false,
        }
    }
}

} // verus!
