use vstd::prelude::*;
use vstd::string::StrSliceExecFns;
use crate::store::{Bill, Bills};

verus! {

/// The operations offered at the top-level prompt.
#[derive(Clone, Copy, Debug, PartialEq, Eq, Structural)]
pub enum Menu {
    AddBill,
    ViewBill,
    RemoveBill,
    UpdateBill,
}

/// The operation that a selection line names, if any: "1" to "4" in menu
/// order; anything else means the user is done.
pub open spec fn menu_choice(s: Seq<char>) -> Option<Menu> {
    if s == seq!['1'] {
        Some(Menu::AddBill)
    } else if s == seq!['2'] {
        Some(Menu::ViewBill)
    } else if s == seq!['3'] {
        Some(Menu::RemoveBill)
    } else if s == seq!['4'] {
        Some(Menu::UpdateBill)
    } else {
        None
    }
}

impl Menu {
    pub fn from_str(input: &str) -> (r: Option<Menu>)
        ensures
            r == menu_choice(input@),
    {
        if input.unicode_len() != 1 {
            return None;
        }
        let c = input.get_char(0);
        assert(input@ =~= seq![c]);
        if c == '1' {
            Some(Menu::AddBill)
        } else if c == '2' {
            Some(Menu::ViewBill)
        } else if c == '3' {
            Some(Menu::RemoveBill)
        } else if c == '4' {
            Some(Menu::UpdateBill)
        } else {
            None
        }
    }
}

/// What the controller has to tell the user. `Listing` stands for the
/// records of the store; every other notice is a fixed line of text.
#[derive(Clone, Copy, Debug, PartialEq, Eq, Structural)]
pub enum Notice {
    Menu,
    Listing,
    NamePrompt,
    AmountPrompt,
    RemovePrompt,
    UpdatePrompt,
    Added,
    Removed,
    Updated,
    NotFound,
    NotANumber,
}

/// The fixed text of a notice; none for `Listing`.
pub open spec fn notice_text(n: Notice) -> Option<Seq<char>> {
    match n {
        Notice::Menu => Some(
            "\n == Bill Manager == \n1. Add Bill\n2. View Bills\n3. Remove Bill\n4. Update Bill\n\nEnter selection: "@,
        ),
        Notice::Listing => None,
        Notice::NamePrompt => Some("Bill name: "@),
        Notice::AmountPrompt => Some("Bill amount: "@),
        Notice::RemovePrompt => Some("Enter bill name to remove"@),
        Notice::UpdatePrompt => Some("Enter bill name to update"@),
        Notice::Added => Some("Bill added"@),
        Notice::Removed => Some("Bill removed"@),
        Notice::Updated => Some("Bill updated"@),
        Notice::NotFound => Some("Bill not found"@),
        Notice::NotANumber => Some("Please enter a number"@),
    }
}

impl Notice {
    pub fn text(self) -> (r: Option<&'static str>)
        ensures
            match r {
                Some(t) => notice_text(self) == Some(t@),
                None => notice_text(self) is None,
            },
    {
        match self {
            Notice::Menu => Some(
                "\n == Bill Manager == \n1. Add Bill\n2. View Bills\n3. Remove Bill\n4. Update Bill\n\nEnter selection: ",
            ),
            Notice::Listing => None,
            Notice::NamePrompt => Some("Bill name: "),
            Notice::AmountPrompt => Some("Bill amount: "),
            Notice::RemovePrompt => Some("Enter bill name to remove"),
            Notice::UpdatePrompt => Some("Enter bill name to update"),
            Notice::Added => Some("Bill added"),
            Notice::Removed => Some("Bill removed"),
            Notice::Updated => Some("Bill updated"),
            Notice::NotFound => Some("Bill not found"),
            Notice::NotANumber => Some("Please enter a number"),
        }
    }
}

/// Completes the add flow: stores a bill of `name` and `amount`.
pub fn add_bill<A>(bills: &mut Bills<A>, name: String, amount: A) -> (r: Notice)
    ensures
        final(bills)@ == old(bills)@.insert(name@, amount),
        r == Notice::Added,
{
    bills.add(Bill::new(name, amount));
    Notice::Added
}

/// The view flow: every record of the store.
pub fn view_bill<A>(bills: &Bills<A>) -> (r: Vec<&Bill<A>>)
    ensures
        crate::store::lists(crate::store::entries(r@), bills@),
{
    bills.list()
}

/// Completes the remove flow for `name`.
pub fn remove_bill<A>(bills: &mut Bills<A>, name: &str) -> (r: Notice)
    ensures
        final(bills)@ == old(bills)@.remove(name@),
        r == if old(bills)@.contains_key(name@) {
            Notice::Removed
        } else {
            Notice::NotFound
        },
{
    if bills.remove(name) {
        Notice::Removed
    } else {
        Notice::NotFound
    }
}

/// Completes the update flow: gives the bill `name` the amount `amount`, if
/// there is such a bill.
pub fn update_bill<A>(bills: &mut Bills<A>, name: &str, amount: A) -> (r: Notice)
    ensures
        old(bills)@.contains_key(name@) ==> final(bills)@ == old(bills)@.insert(name@, amount)
            && r == Notice::Updated,
        !old(bills)@.contains_key(name@) ==> final(bills)@ == old(bills)@ && r == Notice::NotFound,
{
    if bills.update(name, amount) {
        Notice::Updated
    } else {
        Notice::NotFound
    }
}

} // verus!
