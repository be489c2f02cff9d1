//! The session state machine: the closed set of interaction states and
//! one handler per state. Every handler returns to the menu except the
//! menu itself, which can name any state, including Exit.

use vstd::prelude::*;

use crate::account::spec_debit;
use crate::account::App;
use crate::menu::menu_of;
use crate::menu::Menus;
use crate::text::parse_u32;
use crate::text::parse_u32_text;

verus! {

/// The phases of one interactive session.
#[derive(Debug, PartialEq, Eq, Structural, Clone, Copy)]
pub enum State {
    Menu,
    AccountDetails,
    Balance,
    Transfer,
    Airtime,
    Data,
    Exit,
}

/// The state the menu moves to for a parsed selection: each catalog
/// entry names its state; no selection, or one outside the catalog,
/// leads back to the menu.
pub open spec fn menu_target(sel: Option<u32>) -> State {
    match sel {
        Some(n) => match menu_of(n) {
            Some(Menus::Zero) => State::Exit,
            Some(Menus::One) => State::AccountDetails,
            Some(Menus::Two) => State::Balance,
            Some(Menus::Three) => State::Transfer,
            Some(Menus::Four) => State::Airtime,
            Some(Menus::Five) => State::Data,
            None => State::Menu,
        },
        None => State::Menu,
    }
}

impl App {
    /// Handles the menu state: parses one input line as a selection and
    /// names the next state. An unparseable or out-of-range line leads
    /// back to the menu; the session data is untouched.
    pub fn menu_state(&self, line: &str) -> (next: State)
        ensures
            next == menu_target(parse_u32_text(line@)),
    {
        let sel = parse_u32(line);
        let choice = match sel {
            Some(n) => Menus::from_number(n),
            None => None,
        };
        match choice {
            Some(Menus::Zero) => State::Exit,
            Some(Menus::One) => State::AccountDetails,
            Some(Menus::Two) => State::Balance,
            Some(Menus::Three) => State::Transfer,
            Some(Menus::Four) => State::Airtime,
            Some(Menus::Five) => State::Data,
            None => State::Menu,
        }
    }

    /// Handles the account-details state: the display is plumbing; the
    /// session data is untouched and the next state is the menu.
    pub fn account_state(&mut self) -> (next: State)
        ensures
            next == State::Menu,
            *final(self) == *old(self),
    {
        State::Menu
    }

    /// Handles the balance state: the display of balance, interest and
    /// history is plumbing; the session data is untouched and the next
    /// state is the menu.
    pub fn balance_state(&mut self) -> (next: State)
        ensures
            next == State::Menu,
            *final(self) == *old(self),
    {
        State::Menu
    }

    /// Handles the transfer state: debits the amount under the
    /// "Transfer" label and returns to the menu.
    pub fn transfer_state(&mut self, amt: i64) -> (next: State)
        requires
            old(self).wf(),
        ensures
            next == State::Menu,
            final(self).wf(),
            old(self).same_identity(*final(self)),
            (final(self).bal as int, final(self).history.deep_view()) == spec_debit(
                old(self).bal as int,
                old(self).history.deep_view(),
                "Transfer"@,
                amt as int,
            ),
    {
        self.debit("Transfer", amt);
        State::Menu
    }

    /// Handles the airtime state: debits the amount under the
    /// "Airtime purchase" label and returns to the menu.
    pub fn airtime_state(&mut self, amt: i64) -> (next: State)
        requires
            old(self).wf(),
        ensures
            next == State::Menu,
            final(self).wf(),
            old(self).same_identity(*final(self)),
            (final(self).bal as int, final(self).history.deep_view()) == spec_debit(
                old(self).bal as int,
                old(self).history.deep_view(),
                "Airtime purchase"@,
                amt as int,
            ),
    {
        self.debit("Airtime purchase", amt);
        State::Menu
    }

    /// Handles the data state: debits the amount under the
    /// "Data purchase" label and returns to the menu.
    pub fn data_state(&mut self, amt: i64) -> (next: State)
        requires
            old(self).wf(),
        ensures
            next == State::Menu,
            final(self).wf(),
            old(self).same_identity(*final(self)),
            (final(self).bal as int, final(self).history.deep_view()) == spec_debit(
                old(self).bal as int,
                old(self).history.deep_view(),
                "Data purchase"@,
                amt as int,
            ),
    {
        self.debit("Data purchase", amt);
        State::Menu
    }

    /// One turn of the dispatch loop: adopt the state a handler named;
    /// nothing else changes.
    pub fn transition(&mut self, next: State)
        ensures
            final(self).state == next,
            final(self).bal == old(self).bal,
            final(self).history == old(self).history,
            final(self).valid == old(self).valid,
            final(self).name == old(self).name,
            final(self).age == old(self).age,
            final(self).intrest == old(self).intrest,
    {
        self.state = next;
    }
}

} // verus!
