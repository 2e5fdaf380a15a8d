//! What a swap answers: the report on its finalisation and the answer to a
//! request for a refund.

use crate::principal::PrincipalId;
use vstd::prelude::*;

verus! {

/// How many transfers of a sweep went through, failed, or were skipped.
#[derive(Clone, Copy, Debug, PartialEq, Eq, Structural)]
pub struct SweepResult {
    pub success: u32,
    pub failure: u32,
    pub skipped: u32,
}

/// The failure of a call to another canister.
#[derive(Clone, Debug, PartialEq, Eq)]
pub struct CanisterCallError {
    pub code: Option<i32>,
    pub description: String,
}

/// An error reported by the governance canister.
#[derive(Clone, Debug, PartialEq, Eq)]
pub struct GovernanceError {
    pub error_type: i32,
    pub error_message: String,
}

/// What the call that switches the governance canister to normal mode came
/// to.
#[derive(Clone, Debug, PartialEq, Eq)]
pub enum SetModeOutcome {
    Done,
    Failed(CanisterCallError),
}

/// The answer to the request to switch the governance canister to normal
/// mode.
#[derive(Clone, Debug, PartialEq, Eq)]
pub struct SetModeCallResult {
    pub possibility: Option<SetModeOutcome>,
}

/// A canister whose controllers could not be set.
#[derive(Clone, Debug, PartialEq, Eq)]
pub struct FailedUpdate {
    pub dapp_canister_id: Option<PrincipalId>,
    pub err: Option<CanisterCallError>,
}

/// What the call that hands the dapp canisters over came to.
#[derive(Clone, Debug, PartialEq, Eq)]
pub enum SetDappControllersOutcome {
    Done(Vec<FailedUpdate>),
    Failed(CanisterCallError),
}

/// The answer to the request to hand the dapp canisters over.
#[derive(Clone, Debug, PartialEq, Eq)]
pub struct SetDappControllersCallResult {
    pub possibility: Option<SetDappControllersOutcome>,
}

/// What the call that settles the participation of the community fund came
/// to.
#[derive(Clone, Debug, PartialEq, Eq)]
pub enum SettleOutcome {
    Done(Option<GovernanceError>),
    Failed(CanisterCallError),
}

/// The answer to the request to settle the participation of the community
/// fund.
#[derive(Clone, Debug, PartialEq, Eq)]
pub struct SettleCommunityFundParticipationResult {
    pub possibility: Option<SettleOutcome>,
}

/// The report on the finalisation of a swap. Each step fills in its part;
/// a part that is absent belongs to a step that was not reached.
#[derive(Clone, Debug, PartialEq, Eq)]
pub struct FinalizeSwapResponse {
    pub sweep_icp: Option<SweepResult>,
    pub sweep_sns: Option<SweepResult>,
    pub create_neuron: Option<SweepResult>,
    pub sns_governance_normal_mode_enabled: Option<SetModeCallResult>,
    pub set_dapp_controllers_result: Option<SetDappControllersCallResult>,
    pub settle_community_fund_participation_result: Option<
        SettleCommunityFundParticipationResult,
    >,
    pub error_message: Option<String>,
}

/// The kinds of error that a request for a refund can meet.
#[derive(Clone, Copy, Debug, PartialEq, Eq, Structural)]
pub enum RefundErrorType {
    Unspecified,
    Precondition,
    InvalidRequest,
    External,
}

/// A refund that was made: the block in which the ledger recorded it.
#[derive(Clone, Copy, Debug, PartialEq, Eq, Structural)]
pub struct RefundDone {
    pub block_height: Option<u64>,
}

/// A refund that was not made.
#[derive(Clone, Debug, PartialEq, Eq)]
pub struct RefundFailed {
    pub error_type: Option<i32>,
    pub description: Option<String>,
}

/// The two outcomes of a request for a refund.
#[derive(Clone, Debug, PartialEq, Eq)]
pub enum RefundOutcome {
    Done(RefundDone),
    Failed(RefundFailed),
}

/// The answer to a request for a refund.
#[derive(Clone, Debug, PartialEq, Eq)]
pub struct ErrorRefundIcpResponse {
    pub result: Option<RefundOutcome>,
}

impl RefundErrorType {
    /// The number that stands for a kind of error on the wire.
    pub open spec fn code_of(self) -> i32 {
        match self {
            RefundErrorType::Unspecified => 0,
            RefundErrorType::Precondition => 1,
            RefundErrorType::InvalidRequest => 2,
            RefundErrorType::External => 3,
        }
    }

    /// Returns the number that stands for the kind of error on the wire.
    pub fn code(self) -> (code: i32)
        ensures
            code == self.code_of(),
    {
        match self {
            RefundErrorType::Unspecified => 0,
            RefundErrorType::Precondition => 1,
            RefundErrorType::InvalidRequest => 2,
            RefundErrorType::External => 3,
        }
    }
}

impl ErrorRefundIcpResponse {
    /// Whether the answer reports an error of the given kind with the
    /// given description.
    pub open spec fn reports(&self, error_type: RefundErrorType, description: Seq<char>) -> bool {
        self.result matches Some(RefundOutcome::Failed(failed)) && failed.error_type == Some(
            error_type.code_of(),
        ) && failed.description is Some && failed.description->0@ == description
    }

    /// The answer for a refund recorded at `block_height`.
    pub fn new_ok(block_height: u64) -> (response: Self)
        ensures
            response.result == Some(
                RefundOutcome::Done(RefundDone { block_height: Some(block_height) }),
            ),
    {
        ErrorRefundIcpResponse {
            result: Some(RefundOutcome::Done(RefundDone { block_height: Some(block_height) })),
        }
    }

    /// The answer for a request that came at the wrong time.
    pub fn new_precondition_error(description: String) -> (response: Self)
        ensures
            response.reports(RefundErrorType::Precondition, description@),
    {
        Self::new_error(RefundErrorType::Precondition, description)
    }

    /// The answer for a request that is itself at fault.
    pub fn new_invalid_request_error(description: String) -> (response: Self)
        ensures
            response.reports(RefundErrorType::InvalidRequest, description@),
    {
        Self::new_error(RefundErrorType::InvalidRequest, description)
    }

    /// The answer for a request that failed outside the swap.
    pub fn new_external_error(description: String) -> (response: Self)
        ensures
            response.reports(RefundErrorType::External, description@),
    {
        Self::new_error(RefundErrorType::External, description)
    }

    /// The answer for a refund that was not made.
    pub fn new_error(error_type: RefundErrorType, description: String) -> (response: Self)
        ensures
            response.reports(error_type, description@),
    {
        ErrorRefundIcpResponse {
            result: Some(
                RefundOutcome::Failed(
                    RefundFailed {
                        error_type: Some(error_type.code()),
                        description: Some(description),
                    },
                ),
            ),
        }
    }
}

impl Default for FinalizeSwapResponse {
    fn default() -> (response: Self)
        ensures
            response.sweep_icp is None,
            response.sweep_sns is None,
            response.create_neuron is None,
            response.sns_governance_normal_mode_enabled is None,
            response.set_dapp_controllers_result is None,
            response.settle_community_fund_participation_result is None,
            response.error_message is None,
    {
        FinalizeSwapResponse {
            sweep_icp: None,
            sweep_sns: None,
            create_neuron: None,
            sns_governance_normal_mode_enabled: None,
            set_dapp_controllers_result: None,
            settle_community_fund_participation_result: None,
            error_message: None,
        }
    }
}

impl FinalizeSwapResponse {
    /// A report that holds an error message and nothing else.
    pub fn with_error(error_message: String) -> (response: Self)
        ensures
            response.error_message == Some(error_message),
            response.sweep_icp is None,
            response.sweep_sns is None,
            response.create_neuron is None,
            response.sns_governance_normal_mode_enabled is None,
            response.set_dapp_controllers_result is None,
            response.settle_community_fund_participation_result is None,
    {
        FinalizeSwapResponse {
            sweep_icp: None,
            sweep_sns: None,
            create_neuron: None,
            sns_governance_normal_mode_enabled: None,
            set_dapp_controllers_result: None,
            settle_community_fund_participation_result: None,
            error_message: Some(error_message),
        }
    }

    /// Records the error message; the other parts stay as they are.
    pub fn set_error_message(&mut self, error_message: String)
        ensures
            *final(self) == (FinalizeSwapResponse {
                error_message: Some(error_message),
                ..*old(self)
            }),
    {
        self.error_message = Some(error_message)
    }

    /// Records the sweep of ICP; the other parts stay as they are.
    pub fn set_sweep_icp(&mut self, sweep_icp: SweepResult)
        ensures
            *final(self) == (FinalizeSwapResponse { sweep_icp: Some(sweep_icp), ..*old(self) }),
    {
        self.sweep_icp = Some(sweep_icp)
    }

    /// Records how the participation of the community fund was settled; the
    /// other parts stay as they are.
    pub fn set_settle_community_fund_participation_result(
        &mut self,
        result: SettleCommunityFundParticipationResult,
    )
        ensures
            *final(self) == (FinalizeSwapResponse {
                settle_community_fund_participation_result: Some(result),
                ..*old(self)
            }),
    {
        self.settle_community_fund_participation_result = Some(result)
    }

    /// Records how the dapp canisters were handed over; the other parts
    /// stay as they are.
    pub fn set_set_dapp_controllers_result(&mut self, result: SetDappControllersCallResult)
        ensures
            *final(self) == (FinalizeSwapResponse {
                set_dapp_controllers_result: Some(result),
                ..*old(self)
            }),
    {
        self.set_dapp_controllers_result = Some(result)
    }

    /// Records the sweep of SNS tokens; the other parts stay as they are.
    pub fn set_sweep_sns(&mut self, sweep_sns: SweepResult)
        ensures
            *final(self) == (FinalizeSwapResponse { sweep_sns: Some(sweep_sns), ..*old(self) }),
    {
        self.sweep_sns = Some(sweep_sns)
    }

    /// Records the creation of neurons; the other parts stay as they are.
    pub fn set_create_neuron(&mut self, create_neuron: SweepResult)
        ensures
            *final(self) == (FinalizeSwapResponse {
                create_neuron: Some(create_neuron),
                ..*old(self)
            }),
    {
        self.create_neuron = Some(create_neuron)
    }

    /// Records whether the governance canister was switched to normal
    /// mode; the other parts stay as they are.
    pub fn set_sns_governance_normal_mode_enabled(
        &mut self,
        set_mode_call_result: SetModeCallResult,
    )
        ensures
            *final(self) == (FinalizeSwapResponse {
                sns_governance_normal_mode_enabled: Some(set_mode_call_result),
                ..*old(self)
            }),
    {
        self.sns_governance_normal_mode_enabled = Some(set_mode_call_result)
    }
}

} // verus!
