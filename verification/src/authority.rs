//! The mint authority: the one account that may mint and that may hand the
//! privilege on.

use vstd::prelude::*;

use crate::error::ContractError;
use crate::msg::Response;

verus! {

/// The account that holds the minting privilege. There is exactly one at any
/// time; its view is the account's identifier.
#[derive(Clone, Debug, PartialEq, Eq)]
pub struct MintAuthority {
    pub account: String,
}

impl View for MintAuthority {
    type V = Seq<char>;

    open spec fn view(&self) -> Seq<char> {
        self.account@
    }
}

/// What a rotation reports: the action, the account that held the privilege
/// and the account that holds it now.
pub open spec fn rotation_report(current: Seq<char>, new_account: Seq<char>) -> Seq<
    (Seq<char>, Seq<char>),
> {
    seq![
        ("action"@, "lockdrop-nft/execute/update_minter"@),
        ("current_minter"@, current),
        ("new_minter"@, new_account),
    ]
}

impl MintAuthority {
    /// Gives the privilege to `account`.
    pub fn initialize(account: String) -> (authority: MintAuthority)
        ensures
            authority@ == account@,
    {
        MintAuthority { account }
    }

    /// Whether `sender` holds the privilege.
    pub fn authorize(&self, sender: &String) -> (allowed: bool)
        ensures
            allowed == (sender@ == self@),
    {
        *sender == self.account
    }

    /// Hands the privilege from `sender` to `new_account`. Only the holder
    /// can do so; anyone else is refused and nothing changes.
    pub fn rotate(&mut self, sender: &String, new_account: String) -> (r: Result<
        Response,
        ContractError,
    >)
        ensures
            match r {
                Ok(report) => {
                    &&& sender@ == old(self)@
                    &&& final(self)@ == new_account@
                    &&& report@ == rotation_report(old(self)@, new_account@)
                },
                Err(e) => {
                    &&& e == ContractError::Unauthorized {  }
                    &&& sender@ != old(self)@
                    &&& *final(self) == *old(self)
                },
            },
    {
        if !self.authorize(sender) {
            return Err(ContractError::Unauthorized {  });
        }
        let report = Response::new().add_attribute(
            "action",
            "lockdrop-nft/execute/update_minter",
        ).add_attribute("current_minter", self.account.as_str()).add_attribute(
            "new_minter",
            new_account.as_str(),
        );
        self.account = new_account;
        Ok(report)
    }
}

} // verus!
