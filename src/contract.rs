use vstd::prelude::*;

use crate::funding::{fits_i8, Funding, FundingError, FundingView};
use crate::ledger::Ledger;

verus! {

/// The state of the store after a record for `owner` with goal `goal` was created.
pub open spec fn created(
    store: Map<Seq<char>, FundingView>,
    goal: int,
    owner: Seq<char>,
) -> Map<Seq<char>, FundingView> {
    store.insert(
        owner,
        FundingView { funding_value: goal, funding_account_id: owner, partial_funding_value: 0 },
    )
}

/// Whether a donation of `amount` to the record under `key` is taken: the
/// record exists and the new total stays within `i8`.
pub open spec fn donation_accepted(
    store: Map<Seq<char>, FundingView>,
    key: Seq<char>,
    amount: int,
) -> bool {
    store.contains_key(key) && fits_i8(store[key].partial_funding_value + amount)
}

/// The state of the store after the donation of `amount` to `key` was recorded.
pub open spec fn donated(
    store: Map<Seq<char>, FundingView>,
    key: Seq<char>,
    amount: int,
) -> Map<Seq<char>, FundingView> {
    store.insert(
        key,
        FundingView {
            partial_funding_value: store[key].partial_funding_value + amount,
            ..store[key]
        },
    )
}

/// Whether a donation of `amount` makes the record's total exactly meet its goal.
pub open spec fn completes_goal(record: FundingView, amount: int) -> bool {
    record.partial_funding_value + amount == record.funding_value
}

/// A release of funds that the host must carry out: `amount` goes to `destination`.
#[derive(Debug)]
pub struct Transfer {
    pub destination: String,
    pub amount: u128,
}

/// The escrow engine: it creates funding records, records donations, and
/// decides when the collected value is released to a record's owner.
pub struct Contract {
    pub funding_memo: Ledger,
}

impl View for Contract {
    type V = Map<Seq<char>, FundingView>;

    open spec fn view(&self) -> Map<Seq<char>, FundingView> {
        self.funding_memo@
    }
}

impl Default for Contract {
    fn default() -> (r: Contract)
        ensures
            r.well_formed(),
            r@ == Map::<Seq<char>, FundingView>::empty(),
    {
        Contract { funding_memo: Ledger::new() }
    }
}

impl Contract {
    /// The store's own invariant holds.
    pub open spec fn well_formed(&self) -> bool {
        self.funding_memo.well_formed()
    }

    /// Creates the record of a campaign with goal `amount`. Its owner, and the
    /// key it is stored under, is `account_id` when given and the caller
    /// `signer_account_id` otherwise. A record already under that key is replaced.
    pub fn create_funding(&mut self, amount: i8, account_id: Option<String>, signer_account_id: String)
        requires
            old(self).well_formed(),
        ensures
            final(self).well_formed(),
            final(self)@ == created(
                old(self)@,
                amount as int,
                match account_id {
                    Some(a) => a@,
                    None => signer_account_id@,
                },
            ),
    {
        let owner = match account_id {
            Some(a) => a,
            None => signer_account_id,
        };
        let funding = Funding::new(amount, owner.clone());
        self.funding_memo.insert(&owner, &funding);
    }

    /// Records a donation of `amount` to the campaign stored under
    /// `funding_account_id`, then writes the record back. When the donation
    /// makes the total exactly meet the goal, the value attached to the call,
    /// `attached_deposit`, is to be transferred to `funding_account_id`.
    /// A missing record or a total outside `i8` is refused with the store unchanged.
    pub fn donate_to_funding(
        &mut self,
        amount: i8,
        funding_account_id: String,
        attached_deposit: u128,
    ) -> (r: Result<Option<Transfer>, FundingError>)
        requires
            old(self).well_formed(),
        ensures
            final(self).well_formed(),
            r is Ok <==> donation_accepted(old(self)@, funding_account_id@, amount as int),
            !old(self)@.contains_key(funding_account_id@) ==> r == Err::<Option<Transfer>, FundingError>(
                FundingError::RecordNotFound,
            ),
            old(self)@.contains_key(funding_account_id@) && !donation_accepted(
                old(self)@,
                funding_account_id@,
                amount as int,
            ) ==> r == Err::<Option<Transfer>, FundingError>(FundingError::AmountOverflow),
            r is Err ==> final(self)@ == old(self)@,
            r is Ok ==> final(self)@ == donated(old(self)@, funding_account_id@, amount as int),
            r is Ok ==> (r->Ok_0 is Some <==> completes_goal(
                old(self)@[funding_account_id@],
                amount as int,
            )),
            r matches Ok(Some(t)) ==> t.destination@ == funding_account_id@ && t.amount
                == attached_deposit,
    {
        let mut record = match self.funding_memo.get(&funding_account_id) {
            Some(f) => f,
            None => return Err(FundingError::RecordNotFound),
        };
        match record.inc_funding_value(amount) {
            Ok(()) => {},
            Err(e) => return Err(e),
        }
        let completes = record.partial_funding_value == record.funding_value;
        self.funding_memo.insert(&funding_account_id, &record);
        if completes {
            Ok(Some(Transfer { destination: funding_account_id, amount: attached_deposit }))
        } else {
            Ok(None)
        }
    }

    /// The record stored under `user`, or `RecordNotFound` when there is none.
    pub fn get_funding(self, user: String) -> (r: Result<Funding, FundingError>)
        requires
            self.well_formed(),
        ensures
            self@.contains_key(user@) <==> r is Ok,
            r matches Ok(f) ==> f@ == self@[user@],
            r is Err ==> r == Err::<Funding, FundingError>(FundingError::RecordNotFound),
    {
        match self.funding_memo.get(&user) {
            Some(f) => Ok(f),
            None => Err(FundingError::RecordNotFound),
        }
    }
}

} // verus!
