//! Constants and error codes shared by both programs.
use vstd::prelude::*;

verus! {

/// The change that one tick of negative entropy makes to the global field.
pub const NEG_E: i128 = -2_718_281_828_459_045_235;

/// The largest number of registered participants.
pub const MAX_PARTICIPANTS: u64 = 1_000_000_000_000;

/// The largest magnitude of an edge weight.
pub const MAX_EDGE_COST: i128 = 1_000_000_000_000_000_000_000;

/// The debt floor of a ledger without participants.
pub const MIN_ABS_DEBT: i128 = -1_000_000_000_000_000_000;

/// The largest total supply: `i128::MAX`.
pub const MAX_SUPPLY: u128 = 170_141_183_460_469_231_731_687_303_715_884_105_727;

/// The largest number of participants for which `p * NEG_E` is an `i128`:
/// `i128::MAX / -NEG_E`.
pub const NEG_E_MAX_P: i128 = 62_591_443_491_685_266_066;

/// `x` is a value of `i128`.
pub open spec fn is_i128(x: int) -> bool {
    i128::MIN <= x <= i128::MAX
}

/// `x` is a value of `u128`.
pub open spec fn is_u128(x: int) -> bool {
    0 <= x <= u128::MAX
}

/// The absolute value of `x`.
pub fn magnitude(x: i128) -> (size: u128)
    ensures
        size == if x < 0 { -(x as int) } else { x as int },
{
    if x < 0 {
        // One less than the magnitude is an `i128` even for `i128::MIN`.
        (-(x + 1)) as u128 + 1
    } else {
        x as u128
    }
}

/// `MAX_SUPPLY` is the largest `i128`, and `NEG_E_MAX_P` is the largest factor
/// by which `NEG_E` can be multiplied within `i128`.
pub proof fn law_derived_constants()
    ensures
        MAX_SUPPLY == i128::MAX,
        NEG_E_MAX_P == (i128::MAX as int) / -(NEG_E as int),
        is_i128(NEG_E_MAX_P * NEG_E),
        !is_i128((NEG_E_MAX_P + 1) * NEG_E),
{
}

/// The errors of the core program.
#[derive(Clone, Copy, Debug, PartialEq, Eq, Structural)]
pub enum RiftError {
    InvariantViolation,
    UnauthorizedGate,
    ProtocolPaused,
    MaxParticipantsReached,
    DebtLimitExceeded,
    SupplyUnderflow,
    EdgeLimitExceeded,
    ZeroParticipants,
    PhysicalOverflowLimit,
    DebtOnExitNotAllowed,
    MathOverflow,
    UnauthorizedAuthority,
}

impl RiftError {
    /// The place of the error in the table, from 0.
    pub open spec fn index(self) -> int {
        match self {
            RiftError::InvariantViolation => 0,
            RiftError::UnauthorizedGate => 1,
            RiftError::ProtocolPaused => 2,
            RiftError::MaxParticipantsReached => 3,
            RiftError::DebtLimitExceeded => 4,
            RiftError::SupplyUnderflow => 5,
            RiftError::EdgeLimitExceeded => 6,
            RiftError::ZeroParticipants => 7,
            RiftError::PhysicalOverflowLimit => 8,
            RiftError::DebtOnExitNotAllowed => 9,
            RiftError::MathOverflow => 10,
            RiftError::UnauthorizedAuthority => 11,
        }
    }

    /// The name of the error.
    pub open spec fn label(self) -> Seq<char> {
        match self {
            RiftError::InvariantViolation => "InvariantViolation"@,
            RiftError::UnauthorizedGate => "UnauthorizedGate"@,
            RiftError::ProtocolPaused => "ProtocolPaused"@,
            RiftError::MaxParticipantsReached => "MaxParticipantsReached"@,
            RiftError::DebtLimitExceeded => "DebtLimitExceeded"@,
            RiftError::SupplyUnderflow => "SupplyUnderflow"@,
            RiftError::EdgeLimitExceeded => "EdgeLimitExceeded"@,
            RiftError::ZeroParticipants => "ZeroParticipants"@,
            RiftError::PhysicalOverflowLimit => "PhysicalOverflowLimit"@,
            RiftError::DebtOnExitNotAllowed => "DebtOnExitNotAllowed"@,
            RiftError::MathOverflow => "MathOverflow"@,
            RiftError::UnauthorizedAuthority => "UnauthorizedAuthority"@,
        }
    }

    /// The message of the error.
    pub open spec fn text(self) -> Seq<char> {
        match self {
            RiftError::InvariantViolation => "Critical: The core economic invariant has been violated."@,
            RiftError::UnauthorizedGate => "Unauthorized: Caller is not the designated gate."@,
            RiftError::ProtocolPaused => "Operation denied: The protocol is currently paused."@,
            RiftError::MaxParticipantsReached => "Capacity reached: Maximum number of participants exceeded."@,
            RiftError::DebtLimitExceeded => "Transaction denied: The resulting balance exceeds the maximum allowable debt limit."@,
            RiftError::SupplyUnderflow => "State corruption: Attempted to burn more supply than currently exists."@,
            RiftError::EdgeLimitExceeded => "Parameter out of bounds: The provided edge weight exceeds the protocol limits."@,
            RiftError::ZeroParticipants => "Operation invalid: The protocol currently has zero registered participants."@,
            RiftError::PhysicalOverflowLimit => "Physical limit reached: Applying negative entropy would overflow the system bounds."@,
            RiftError::DebtOnExitNotAllowed => "Exit denied: Participants cannot unregister while holding a negative balance (debt)."@,
            RiftError::MathOverflow => "Mathematical error: An arithmetic operation resulted in an overflow or underflow."@,
            RiftError::UnauthorizedAuthority => "Unauthorized: Invalid authority for target user."@,
        }
    }

    /// The number under which the error is reported: its place after 6000.
    pub fn code(&self) -> (code: u32)
        ensures
            code == 6000 + self.index(),
    {
        match self {
            RiftError::InvariantViolation => 6000,
            RiftError::UnauthorizedGate => 6001,
            RiftError::ProtocolPaused => 6002,
            RiftError::MaxParticipantsReached => 6003,
            RiftError::DebtLimitExceeded => 6004,
            RiftError::SupplyUnderflow => 6005,
            RiftError::EdgeLimitExceeded => 6006,
            RiftError::ZeroParticipants => 6007,
            RiftError::PhysicalOverflowLimit => 6008,
            RiftError::DebtOnExitNotAllowed => 6009,
            RiftError::MathOverflow => 6010,
            RiftError::UnauthorizedAuthority => 6011,
        }
    }

    /// The name under which the error is reported.
    pub fn name(&self) -> (name: &'static str)
        ensures
            name@ == self.label(),
    {
        match self {
            RiftError::InvariantViolation => "InvariantViolation",
            RiftError::UnauthorizedGate => "UnauthorizedGate",
            RiftError::ProtocolPaused => "ProtocolPaused",
            RiftError::MaxParticipantsReached => "MaxParticipantsReached",
            RiftError::DebtLimitExceeded => "DebtLimitExceeded",
            RiftError::SupplyUnderflow => "SupplyUnderflow",
            RiftError::EdgeLimitExceeded => "EdgeLimitExceeded",
            RiftError::ZeroParticipants => "ZeroParticipants",
            RiftError::PhysicalOverflowLimit => "PhysicalOverflowLimit",
            RiftError::DebtOnExitNotAllowed => "DebtOnExitNotAllowed",
            RiftError::MathOverflow => "MathOverflow",
            RiftError::UnauthorizedAuthority => "UnauthorizedAuthority",
        }
    }

    /// The message with which the error is reported.
    pub fn message(&self) -> (message: &'static str)
        ensures
            message@ == self.text(),
    {
        match self {
            RiftError::InvariantViolation => "Critical: The core economic invariant has been violated.",
            RiftError::UnauthorizedGate => "Unauthorized: Caller is not the designated gate.",
            RiftError::ProtocolPaused => "Operation denied: The protocol is currently paused.",
            RiftError::MaxParticipantsReached => "Capacity reached: Maximum number of participants exceeded.",
            RiftError::DebtLimitExceeded => "Transaction denied: The resulting balance exceeds the maximum allowable debt limit.",
            RiftError::SupplyUnderflow => "State corruption: Attempted to burn more supply than currently exists.",
            RiftError::EdgeLimitExceeded => "Parameter out of bounds: The provided edge weight exceeds the protocol limits.",
            RiftError::ZeroParticipants => "Operation invalid: The protocol currently has zero registered participants.",
            RiftError::PhysicalOverflowLimit => "Physical limit reached: Applying negative entropy would overflow the system bounds.",
            RiftError::DebtOnExitNotAllowed => "Exit denied: Participants cannot unregister while holding a negative balance (debt).",
            RiftError::MathOverflow => "Mathematical error: An arithmetic operation resulted in an overflow or underflow.",
            RiftError::UnauthorizedAuthority => "Unauthorized: Invalid authority for target user.",
        }
    }
}

/// The errors of the core program keep their places, their names and their messages.
pub proof fn law_rift_error_table()
    ensures
        RiftError::InvariantViolation.index() == 0,
        RiftError::UnauthorizedGate.index() == 1,
        RiftError::ProtocolPaused.index() == 2,
        RiftError::MaxParticipantsReached.index() == 3,
        RiftError::DebtLimitExceeded.index() == 4,
        RiftError::SupplyUnderflow.index() == 5,
        RiftError::EdgeLimitExceeded.index() == 6,
        RiftError::ZeroParticipants.index() == 7,
        RiftError::PhysicalOverflowLimit.index() == 8,
        RiftError::DebtOnExitNotAllowed.index() == 9,
        RiftError::MathOverflow.index() == 10,
        RiftError::UnauthorizedAuthority.index() == 11,
        RiftError::InvariantViolation.label() == "InvariantViolation"@,
        RiftError::UnauthorizedGate.label() == "UnauthorizedGate"@,
        RiftError::ProtocolPaused.label() == "ProtocolPaused"@,
        RiftError::MaxParticipantsReached.label() == "MaxParticipantsReached"@,
        RiftError::DebtLimitExceeded.label() == "DebtLimitExceeded"@,
        RiftError::SupplyUnderflow.label() == "SupplyUnderflow"@,
        RiftError::EdgeLimitExceeded.label() == "EdgeLimitExceeded"@,
        RiftError::ZeroParticipants.label() == "ZeroParticipants"@,
        RiftError::PhysicalOverflowLimit.label() == "PhysicalOverflowLimit"@,
        RiftError::DebtOnExitNotAllowed.label() == "DebtOnExitNotAllowed"@,
        RiftError::MathOverflow.label() == "MathOverflow"@,
        RiftError::UnauthorizedAuthority.label() == "UnauthorizedAuthority"@,
        RiftError::InvariantViolation.text() == "Critical: The core economic invariant has been violated."@,
        RiftError::UnauthorizedGate.text() == "Unauthorized: Caller is not the designated gate."@,
        RiftError::ProtocolPaused.text() == "Operation denied: The protocol is currently paused."@,
        RiftError::MaxParticipantsReached.text() == "Capacity reached: Maximum number of participants exceeded."@,
        RiftError::DebtLimitExceeded.text() == "Transaction denied: The resulting balance exceeds the maximum allowable debt limit."@,
        RiftError::SupplyUnderflow.text() == "State corruption: Attempted to burn more supply than currently exists."@,
        RiftError::EdgeLimitExceeded.text() == "Parameter out of bounds: The provided edge weight exceeds the protocol limits."@,
        RiftError::ZeroParticipants.text() == "Operation invalid: The protocol currently has zero registered participants."@,
        RiftError::PhysicalOverflowLimit.text() == "Physical limit reached: Applying negative entropy would overflow the system bounds."@,
        RiftError::DebtOnExitNotAllowed.text() == "Exit denied: Participants cannot unregister while holding a negative balance (debt)."@,
        RiftError::MathOverflow.text() == "Mathematical error: An arithmetic operation resulted in an overflow or underflow."@,
        RiftError::UnauthorizedAuthority.text() == "Unauthorized: Invalid authority for target user."@,
{
}

} // verus!
