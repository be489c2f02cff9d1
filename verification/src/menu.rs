//! The menu catalog: a fixed, ordered set of six actions, one for each
//! numeric code 0 through 5.

use vstd::prelude::*;

verus! {

/// The six selectable actions of the menu catalog.
#[derive(Debug, PartialEq, Eq, Structural, Clone, Copy)]
pub enum Menus {
    One,
    Two,
    Three,
    Four,
    Five,
    Zero,
}

/// The label shown beside a menu entry.
pub open spec fn label_text(m: Menus) -> Seq<char> {
    match m {
        Menus::One => "Account details"@,
        Menus::Two => "Balance"@,
        Menus::Three => "Transfer"@,
        Menus::Four => "Buy Airtime"@,
        Menus::Five => "Buy Data"@,
        Menus::Zero => "Exit"@,
    }
}

/// The catalog lookup: an entry for each code in 0..=5, nothing outside.
pub open spec fn menu_of(n: u32) -> Option<Menus> {
    if n == 0 {
        Some(Menus::Zero)
    } else if n == 1 {
        Some(Menus::One)
    } else if n == 2 {
        Some(Menus::Two)
    } else if n == 3 {
        Some(Menus::Three)
    } else if n == 4 {
        Some(Menus::Four)
    } else if n == 5 {
        Some(Menus::Five)
    } else {
        None
    }
}

impl Menus {
    /// Returns the label of this menu entry.
    pub fn label(&self) -> (r: &'static str)
        ensures
            r@ == label_text(*self),
    {
        match self {
            Menus::One => "Account details",
            Menus::Two => "Balance",
            Menus::Three => "Transfer",
            Menus::Four => "Buy Airtime",
            Menus::Five => "Buy Data",
            Menus::Zero => "Exit",
        }
    }

    /// Looks a numeric code up in the catalog.
    pub fn from_number(n: u32) -> (r: Option<Menus>)
        ensures
            r == menu_of(n),
            r is Some <==> n <= 5,
    {
        match n {
            0 => Some(Menus::Zero),
            1 => Some(Menus::One),
            2 => Some(Menus::Two),
            3 => Some(Menus::Three),
            4 => Some(Menus::Four),
            5 => Some(Menus::Five),
            _ => None,
        }
    }
}

/// Law: the menu lookup is total on codes 0 through 5 and empty outside
/// that range, so a label exists exactly when the code is in the catalog.
pub proof fn lemma_menu_lookup_total()
    ensures
        forall|n: u32| menu_of(n) is Some <==> n <= 5,
{
}

} // verus!
