use vstd::prelude::*;
use crate::menu::{add_bill, menu_choice, remove_bill, update_bill, Menu, Notice};
use crate::store::Bills;

verus! {

/// Where the controller stands: which line it waits for next.
pub enum Stage {
    /// The top-level menu selection.
    Choosing,
    /// The name of a bill to add.
    AddName,
    /// The amount of the bill to add under `name`.
    AddAmount(String),
    /// The name of a bill to remove.
    RemoveName,
    /// The name of a bill to update.
    UpdateName,
    /// The new amount of the bill `name`.
    UpdateAmount(String),
    /// The user is done; no more lines are read.
    Exited,
}

/// A `Stage` with its names as character sequences.
pub enum Phase {
    Choosing,
    AddName,
    AddAmount(Seq<char>),
    RemoveName,
    UpdateName,
    UpdateAmount(Seq<char>),
    Exited,
}

impl View for Stage {
    type V = Phase;

    open spec fn view(&self) -> Phase {
        match self {
            Stage::Choosing => Phase::Choosing,
            Stage::AddName => Phase::AddName,
            Stage::AddAmount(n) => Phase::AddAmount(n@),
            Stage::RemoveName => Phase::RemoveName,
            Stage::UpdateName => Phase::UpdateName,
            Stage::UpdateAmount(n) => Phase::UpdateAmount(n@),
            Stage::Exited => Phase::Exited,
        }
    }
}

impl Stage {
    /// Whether the next line is an amount, which the reader then also tries to
    /// parse as a number.
    pub fn expects_amount(&self) -> (r: bool)
        ensures
            r == (self@ is AddAmount || self@ is UpdateAmount),
    {
        match self {
            Stage::AddAmount(_) | Stage::UpdateAmount(_) => true,
            _ => false,
        }
    }

    pub fn is_exited(&self) -> (r: bool)
        ensures
            r == (self@ is Exited),
    {
        match self {
            Stage::Exited => true,
            _ => false,
        }
    }
}

/// Back at the menu with the store as it was: what an empty line does at any
/// name or amount prompt.
pub open spec fn cancelled<A>(m: Map<Seq<char>, A>) -> (Phase, Map<Seq<char>, A>, Seq<Notice>) {
    (Phase::Choosing, m, seq![Notice::Menu])
}

/// The controller's rules: from the phase `p` and the store `m`, a line of
/// input (trimmed) and the number that it reads as, if it does, the next
/// phase, the next store and what to tell the user.
///
/// An empty line at any name or amount prompt cancels the flow, also after an
/// amount that was not a number.
pub open spec fn transition<A>(p: Phase, m: Map<Seq<char>, A>, line: Seq<char>, amount: Option<A>) -> (
    Phase,
    Map<Seq<char>, A>,
    Seq<Notice>,
) {
    match p {
        Phase::Choosing => match menu_choice(line) {
            Some(Menu::AddBill) => (Phase::AddName, m, seq![Notice::NamePrompt]),
            Some(Menu::ViewBill) => (Phase::Choosing, m, seq![Notice::Listing, Notice::Menu]),
            Some(Menu::RemoveBill) => (
                Phase::RemoveName,
                m,
                seq![Notice::Listing, Notice::RemovePrompt],
            ),
            Some(Menu::UpdateBill) => (
                Phase::UpdateName,
                m,
                seq![Notice::Listing, Notice::UpdatePrompt],
            ),
            None => (Phase::Exited, m, Seq::empty()),
        },
        Phase::AddName => if line.len() == 0 {
            cancelled(m)
        } else {
            (Phase::AddAmount(line), m, seq![Notice::AmountPrompt])
        },
        Phase::AddAmount(name) => if line.len() == 0 {
            cancelled(m)
        } else {
            match amount {
                Some(a) => (Phase::Choosing, m.insert(name, a), seq![Notice::Added, Notice::Menu]),
                None => (Phase::AddAmount(name), m, seq![Notice::NotANumber]),
            }
        },
        Phase::RemoveName => if line.len() == 0 {
            cancelled(m)
        } else if m.contains_key(line) {
            (Phase::Choosing, m.remove(line), seq![Notice::Removed, Notice::Menu])
        } else {
            (Phase::Choosing, m, seq![Notice::NotFound, Notice::Menu])
        },
        Phase::UpdateName => if line.len() == 0 {
            cancelled(m)
        } else {
            (Phase::UpdateAmount(line), m, seq![Notice::AmountPrompt])
        },
        Phase::UpdateAmount(name) => if line.len() == 0 {
            cancelled(m)
        } else {
            match amount {
                Some(a) => if m.contains_key(name) {
                    (Phase::Choosing, m.insert(name, a), seq![Notice::Updated, Notice::Menu])
                } else {
                    (Phase::Choosing, m, seq![Notice::NotFound, Notice::Menu])
                },
                None => (Phase::UpdateAmount(name), m, seq![Notice::NotANumber]),
            }
        },
        Phase::Exited => (Phase::Exited, m, Seq::empty()),
    }
}

/// The interactive controller: the store and the stage of the current flow.
pub struct Session<A> {
    bills: Bills<A>,
    stage: Stage,
}

impl<A> View for Session<A> {
    type V = (Phase, Map<Seq<char>, A>);

    closed spec fn view(&self) -> (Phase, Map<Seq<char>, A>) {
        (self.stage@, self.bills@)
    }
}

impl<A> Session<A> {
    /// A session at the menu over an empty store.
    pub fn new() -> (s: Self)
        ensures
            s@ == (Phase::Choosing, Map::<Seq<char>, A>::empty()),
    {
        Session { bills: Bills::new(), stage: Stage::Choosing }
    }

    /// A session at the menu over the given store.
    pub fn with_bills(bills: Bills<A>) -> (s: Self)
        ensures
            s@ == (Phase::Choosing, bills@),
    {
        Session { bills, stage: Stage::Choosing }
    }

    /// What to show before the first line is read.
    pub fn opening() -> (r: Vec<Notice>)
        ensures
            r@ == seq![Notice::Menu],
    {
        vec![Notice::Menu]
    }

    pub fn bills(&self) -> (r: &Bills<A>)
        ensures
            r@ == self@.1,
    {
        &self.bills
    }

    pub fn stage(&self) -> (r: &Stage)
        ensures
            r@ == self@.0,
    {
        &self.stage
    }

    /// Takes one trimmed line of input, with what it reads as when parsed as
    /// an amount, and returns what to tell the user, in order.
    pub fn step(&mut self, line: &str, amount: Option<A>) -> (r: Vec<Notice>)
        ensures
            (final(self)@.0, final(self)@.1, r@) == transition(old(self)@.0, old(self)@.1, line@, amount),
    {
        let empty = line.is_empty();
        match &self.stage {
            Stage::Choosing => match Menu::from_str(line) {
                Some(Menu::AddBill) => {
                    self.stage = Stage::AddName;
                    vec![Notice::NamePrompt]
                },
                Some(Menu::ViewBill) => vec![Notice::Listing, Notice::Menu],
                Some(Menu::RemoveBill) => {
                    self.stage = Stage::RemoveName;
                    vec![Notice::Listing, Notice::RemovePrompt]
                },
                Some(Menu::UpdateBill) => {
                    self.stage = Stage::UpdateName;
                    vec![Notice::Listing, Notice::UpdatePrompt]
                },
                None => {
                    self.stage = Stage::Exited;
                    Vec::new()
                },
            },
            Stage::Exited => Vec::new(),
            _ if empty => {
                self.stage = Stage::Choosing;
                vec![Notice::Menu]
            },
            Stage::AddName => {
                self.stage = Stage::AddAmount(line.to_owned());
                vec![Notice::AmountPrompt]
            },
            Stage::UpdateName => {
                self.stage = Stage::UpdateAmount(line.to_owned());
                vec![Notice::AmountPrompt]
            },
            Stage::RemoveName => {
                let n = remove_bill(&mut self.bills, line);
                self.stage = Stage::Choosing;
                vec![n, Notice::Menu]
            },
            Stage::AddAmount(name) => match amount {
                Some(a) => {
                    let name = name.clone();
                    let n = add_bill(&mut self.bills, name, a);
                    self.stage = Stage::Choosing;
                    vec![n, Notice::Menu]
                },
                None => vec![Notice::NotANumber],
            },
            Stage::UpdateAmount(name) => match amount {
                Some(a) => {
                    let name = name.clone();
                    let n = update_bill(&mut self.bills, name.as_str(), a);
                    self.stage = Stage::Choosing;
                    vec![n, Notice::Menu]
                },
                None => vec![Notice::NotANumber],
            },
        }
    }
}

/// An empty line at any name or amount prompt of the add, remove or update
/// flow ends that flow: the controller is back at the menu and the store is
/// as it was.
pub proof fn empty_line_cancels<A>(p: Phase, m: Map<Seq<char>, A>, amount: Option<A>)
    requires
        p is AddName || p is AddAmount || p is RemoveName || p is UpdateName || p is UpdateAmount,
    ensures
        transition(p, m, Seq::empty(), amount).0 == Phase::Choosing,
        transition(p, m, Seq::empty(), amount).1 == m,
{
}

} // verus!
