//! The errors of the token program.
use vstd::prelude::*;

verus! {

/// The errors of the token program.
#[derive(Clone, Copy, Debug, PartialEq, Eq, Structural)]
pub enum TokenError {
    FeeTooHigh,
    InvalidAdminVault,
    InvalidCoreState,
    ZeroSharesMinted,
}

impl TokenError {
    /// The place of the error in the table, from 0.
    pub open spec fn index(self) -> int {
        match self {
            TokenError::FeeTooHigh => 0,
            TokenError::InvalidAdminVault => 1,
            TokenError::InvalidCoreState => 2,
            TokenError::ZeroSharesMinted => 3,
        }
    }

    /// The name of the error.
    pub open spec fn label(self) -> Seq<char> {
        match self {
            TokenError::FeeTooHigh => "FeeTooHigh"@,
            TokenError::InvalidAdminVault => "InvalidAdminVault"@,
            TokenError::InvalidCoreState => "InvalidCoreState"@,
            TokenError::ZeroSharesMinted => "ZeroSharesMinted"@,
        }
    }

    /// The message of the error.
    pub open spec fn text(self) -> Seq<char> {
        match self {
            TokenError::FeeTooHigh => "Fee exceeds maximum protocol limits."@,
            TokenError::InvalidAdminVault => "Invalid admin vault address."@,
            TokenError::InvalidCoreState => "Invalid core state address."@,
            TokenError::ZeroSharesMinted => "Computed shares to mint is zero. Increase base_amount or wait for field pressure to decrease."@,
        }
    }

    /// The number under which the error is reported: its place after 6000.
    pub fn code(&self) -> (code: u32)
        ensures
            code == 6000 + self.index(),
    {
        match self {
            TokenError::FeeTooHigh => 6000,
            TokenError::InvalidAdminVault => 6001,
            TokenError::InvalidCoreState => 6002,
            TokenError::ZeroSharesMinted => 6003,
        }
    }

    /// The name under which the error is reported.
    pub fn name(&self) -> (name: &'static str)
        ensures
            name@ == self.label(),
    {
        match self {
            TokenError::FeeTooHigh => "FeeTooHigh",
            TokenError::InvalidAdminVault => "InvalidAdminVault",
            TokenError::InvalidCoreState => "InvalidCoreState",
            TokenError::ZeroSharesMinted => "ZeroSharesMinted",
        }
    }

    /// The message with which the error is reported.
    pub fn message(&self) -> (message: &'static str)
        ensures
            message@ == self.text(),
    {
        match self {
            TokenError::FeeTooHigh => "Fee exceeds maximum protocol limits.",
            TokenError::InvalidAdminVault => "Invalid admin vault address.",
            TokenError::InvalidCoreState => "Invalid core state address.",
            TokenError::ZeroSharesMinted => "Computed shares to mint is zero. Increase base_amount or wait for field pressure to decrease.",
        }
    }
}

/// The errors of the token program keep their places, their names and their messages.
pub proof fn law_token_error_table()
    ensures
        TokenError::FeeTooHigh.index() == 0,
        TokenError::InvalidAdminVault.index() == 1,
        TokenError::InvalidCoreState.index() == 2,
        TokenError::ZeroSharesMinted.index() == 3,
        TokenError::FeeTooHigh.label() == "FeeTooHigh"@,
        TokenError::InvalidAdminVault.label() == "InvalidAdminVault"@,
        TokenError::InvalidCoreState.label() == "InvalidCoreState"@,
        TokenError::ZeroSharesMinted.label() == "ZeroSharesMinted"@,
        TokenError::FeeTooHigh.text() == "Fee exceeds maximum protocol limits."@,
        TokenError::InvalidAdminVault.text() == "Invalid admin vault address."@,
        TokenError::InvalidCoreState.text() == "Invalid core state address."@,
        TokenError::ZeroSharesMinted.text() == "Computed shares to mint is zero. Increase base_amount or wait for field pressure to decrease."@,
{
}

} // verus!
