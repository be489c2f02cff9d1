//! The account model: the session record, its construction rule, and
//! the debit operation, which is the sole mutator of the balance and
//! the transaction history.

use vstd::prelude::*;

use crate::machine::State;
use crate::text::entry_text;
use crate::text::format_entry;

verus! {

/// One user's session: the current state of the interaction loop and
/// the account data it works on. Balances and amounts are in cents.
#[derive(Debug)]
pub struct App {
    pub state: State,
    pub valid: bool,
    pub name: String,
    pub age: i32,
    pub bal: i64,
    pub intrest: i64,
    pub history: Vec<String>,
}

/// The outcome of one debit attempt on a balance and a history: a
/// non-positive amount changes nothing; an amount at or above the
/// balance only records a failed entry; otherwise the balance shrinks
/// by the amount and a successful entry is recorded.
pub open spec fn spec_debit(
    bal: int,
    history: Seq<Seq<char>>,
    action: Seq<char>,
    cents: int,
) -> (int, Seq<Seq<char>>) {
    if cents <= 0 {
        (bal, history)
    } else if cents >= bal {
        (bal, history.push(entry_text(action, cents, false)))
    } else {
        (bal - cents, history.push(entry_text(action, cents, true)))
    }
}

impl App {
    /// The session invariant: the holder is of age and the balance
    /// never goes below zero.
    pub open spec fn wf(self) -> bool {
        &&& self.bal >= 0
        &&& self.age >= 18
        &&& self.valid
        &&& self.intrest >= 0
    }

    /// The fields no debit attempt may touch.
    pub open spec fn same_identity(self, other: App) -> bool {
        &&& self.state == other.state
        &&& self.valid == other.valid
        &&& self.name == other.name
        &&& self.age == other.age
        &&& self.intrest == other.intrest
    }

    /// Checks the applicant's age: 18 or older may open an account.
    pub fn verify_age(age: i32) -> (r: Option<bool>)
        ensures
            r == (if age >= 18 {
                Some(true)
            } else {
                None::<bool>
            }),
    {
        if age >= 18 {
            Some(true)
        } else {
            None
        }
    }

    /// Opens a session: succeeds exactly when the applicant is 18 or
    /// older, with a starting balance of $1000.00, no accrued interest,
    /// an empty history, and the menu as the first state.
    pub fn new(name: &str, age: i32) -> (r: Option<App>)
        ensures
            r is Some <==> age >= 18,
            (r matches Some(app) ==> {
                &&& app.wf()
                &&& app.state == State::Menu
                &&& app.valid
                &&& app.name@ == name@
                &&& app.age == age
                &&& app.bal == 100_000
                &&& app.intrest == 0
                &&& app.history.deep_view() == Seq::<Seq<char>>::empty()
            }),
    {
        let valid_age: bool = match App::verify_age(age) {
            Some(v) => v,
            None => {
                return None;
            },
        };
        let app = App {
            state: State::Menu,
            valid: valid_age,
            name: name.to_owned(),
            age,
            bal: 100_000,
            intrest: 0,
            history: Vec::new(),
        };
        proof {
            assert(app.history.deep_view() =~= Seq::<Seq<char>>::empty());
        }
        Some(app)
    }

    /// Appends the entry for one recorded debit attempt to the history;
    /// nothing else changes.
    fn update_history(&mut self, action: &str, amt: i64, status: bool)
        requires
            amt >= 0,
        ensures
            final(self).history.deep_view() == old(self).history.deep_view().push(
                entry_text(action@, amt as int, status),
            ),
            final(self).bal == old(self).bal,
            old(self).same_identity(*final(self)),
    {
        let entry = format_entry(action, amt, status);
        self.history.push(entry);
        proof {
            assert(self.history.deep_view() =~= old(self).history.deep_view().push(
                entry_text(action@, amt as int, status),
            ));
        }
    }

    /// Attempts to deduct an amount of cents from the balance: a
    /// non-positive amount leaves balance and history untouched; an
    /// amount at or above the balance (the account can never be drawn
    /// to exactly zero) leaves the balance and appends one failed
    /// entry; otherwise the balance shrinks by the amount and one
    /// successful entry is appended.
    pub fn debit(&mut self, action: &str, amt: i64)
        requires
            old(self).wf(),
        ensures
            final(self).wf(),
            old(self).same_identity(*final(self)),
            (final(self).bal as int, final(self).history.deep_view()) == spec_debit(
                old(self).bal as int,
                old(self).history.deep_view(),
                action@,
                amt as int,
            ),
            amt <= 0 ==> final(self).bal == old(self).bal && final(self).history
                == old(self).history,
            0 < amt < old(self).bal ==> final(self).bal == old(self).bal - amt
                && final(self).history.deep_view() == old(self).history.deep_view().push(
                entry_text(action@, amt as int, true),
            ),
            amt > 0 && amt >= old(self).bal ==> final(self).bal == old(self).bal
                && final(self).history.deep_view() == old(self).history.deep_view().push(
                entry_text(action@, amt as int, false),
            ),
    {
        if amt <= 0 {
            return;
        }
        if amt >= self.bal {
            self.update_history(action, amt, false);
            return;
        }
        self.bal = self.bal - amt;
        self.update_history(action, amt, true);
    }
}

/// The balance and history left by a whole sequence of debit attempts,
/// applied first to last.
pub open spec fn spec_debit_seq(
    bal: int,
    history: Seq<Seq<char>>,
    actions: Seq<Seq<char>>,
    amts: Seq<int>,
) -> (int, Seq<Seq<char>>)
    recommends
        actions.len() == amts.len(),
    decreases amts.len(),
{
    if amts.len() == 0 {
        (bal, history)
    } else {
        let next = spec_debit(bal, history, actions[0], amts[0]);
        spec_debit_seq(next.0, next.1, actions.drop_first(), amts.drop_first())
    }
}

/// Law: a run of debit attempts whose amounts are all positive grows
/// the history by exactly one entry per attempt, whatever mix of
/// successes and failures the balance allows.
pub proof fn lemma_history_growth_positive(
    bal: int,
    history: Seq<Seq<char>>,
    actions: Seq<Seq<char>>,
    amts: Seq<int>,
)
    requires
        actions.len() == amts.len(),
        forall|i: int| 0 <= i < amts.len() ==> amts[i] > 0,
    ensures
        spec_debit_seq(bal, history, actions, amts).1.len() == history.len() + amts.len(),
    decreases amts.len(),
{
    if amts.len() > 0 {
        let next = spec_debit(bal, history, actions[0], amts[0]);
        assert(forall|i: int|
            0 <= i < amts.drop_first().len() ==> amts.drop_first()[i] == amts[i + 1]);
        lemma_history_growth_positive(next.0, next.1, actions.drop_first(), amts.drop_first());
    }
}

/// Law: a run of debit attempts whose amounts are all non-positive
/// leaves both the balance and the history exactly as they were.
pub proof fn lemma_history_unchanged_nonpositive(
    bal: int,
    history: Seq<Seq<char>>,
    actions: Seq<Seq<char>>,
    amts: Seq<int>,
)
    requires
        actions.len() == amts.len(),
        forall|i: int| 0 <= i < amts.len() ==> amts[i] <= 0,
    ensures
        spec_debit_seq(bal, history, actions, amts) == (bal, history),
    decreases amts.len(),
{
    if amts.len() > 0 {
        assert(forall|i: int|
            0 <= i < amts.drop_first().len() ==> amts.drop_first()[i] == amts[i + 1]);
        lemma_history_unchanged_nonpositive(bal, history, actions.drop_first(), amts.drop_first());
    }
}

} // verus!
