//! The token counter: the source of token identifiers.

use vstd::prelude::*;

use crate::error::ContractError;

verus! {

/// The number of tokens issued so far. It starts at zero and only grows.
#[derive(Clone, Copy, Debug, PartialEq, Eq, Structural)]
pub struct TokenCounter {
    pub value: u64,
}

impl View for TokenCounter {
    type V = nat;

    open spec fn view(&self) -> nat {
        self.value as nat
    }
}

impl TokenCounter {
    /// A counter that has issued nothing.
    pub fn new() -> (counter: TokenCounter)
        ensures
            counter@ == 0,
    {
        TokenCounter { value: 0 }
    }

    /// Advances the counter by one and returns the new value. A counter that
    /// has reached the largest value refuses and stays where it is: it never
    /// wraps.
    pub fn next(&mut self) -> (r: Result<u64, ContractError>)
        ensures
            match r {
                Ok(value) => {
                    &&& value == old(self)@ + 1
                    &&& final(self)@ == old(self)@ + 1
                },
                Err(e) => {
                    &&& e == ContractError::CounterOverflow {  }
                    &&& old(self)@ == u64::MAX
                    &&& *final(self) == *old(self)
                },
            },
    {
        if self.value == u64::MAX {
            return Err(ContractError::CounterOverflow {  });
        }
        self.value = self.value + 1;
        Ok(self.value)
    }
}

} // verus!
