use vstd::prelude::*;

verus! {

/// Why an escrow operation was refused.
#[derive(Debug, Clone, Copy, PartialEq, Eq, Structural)]
pub enum FundingError {
    /// No funding record is stored under the requested account key.
    RecordNotFound,
    /// The donation would move the accumulated amount out of the range of `i8`.
    AmountOverflow,
}

/// The mathematical content of a funding record.
pub struct FundingView {
    pub funding_value: int,
    pub funding_account_id: Seq<char>,
    pub partial_funding_value: int,
}

/// One funding campaign: the goal, its owner, and what has been donated so far.
#[derive(Debug)]
pub struct Funding {
    pub funding_value: i8,
    pub funding_account_id: String,
    pub partial_funding_value: i8,
}

impl View for Funding {
    type V = FundingView;

    open spec fn view(&self) -> FundingView {
        FundingView {
            funding_value: self.funding_value as int,
            funding_account_id: self.funding_account_id@,
            partial_funding_value: self.partial_funding_value as int,
        }
    }
}

/// Whether `value` is representable as an `i8`.
pub open spec fn fits_i8(value: int) -> bool {
    i8::MIN <= value <= i8::MAX
}

impl Funding {
    /// A fresh record for `owner` with goal `amount` and nothing donated yet.
    pub fn new(amount: i8, owner: String) -> (r: Funding)
        ensures
            r.funding_value == amount,
            r.funding_account_id == owner,
            r.partial_funding_value == 0,
    {
        Funding { funding_value: amount, funding_account_id: owner, partial_funding_value: 0 }
    }

    /// Adds `amount` to the donated total. When the sum leaves the range of
    /// `i8` the record stays as it was and `AmountOverflow` is returned.
    pub fn inc_funding_value(&mut self, amount: i8) -> (r: Result<(), FundingError>)
        ensures
            fits_i8(old(self).partial_funding_value + amount) <==> r is Ok,
            r is Ok ==> *final(self) == (Funding {
                partial_funding_value: (old(self).partial_funding_value + amount) as i8,
                ..*old(self)
            }),
            r is Err ==> r == Err::<(), FundingError>(FundingError::AmountOverflow)
                && *final(self) == *old(self),
    {
        match self.partial_funding_value.checked_add(amount) {
            Some(total) => {
                self.partial_funding_value = total;
                Ok(())
            },
            None => Err(FundingError::AmountOverflow),
        }
    }

    /// A copy of this record with the same contents.
    pub fn duplicate(&self) -> (r: Funding)
        ensures
            r == *self,
    {
        Funding {
            funding_value: self.funding_value,
            funding_account_id: self.funding_account_id.clone(),
            partial_funding_value: self.partial_funding_value,
        }
    }
}

} // verus!
