//! The records of a token swap: what buyers have committed, what neurons
//! are to be created for them, and what the finalisation of a swap reports.

use crate::principal::{is_principal_text, is_valid_principal};
use crate::swap_params::{saturating_add, Init, Params};
use crate::text::{decimal, push_decimal};
use vstd::prelude::*;
use vstd::string::*;

verus! {

/// An amount of tokens together with the progress of its transfer. A time
/// stamp of zero means that the step has not happened.
#[derive(Clone, Copy, Debug, PartialEq, Eq, Structural)]
pub struct TransferableAmount {
    pub amount_e8s: u64,
    pub transfer_start_timestamp_seconds: u64,
    pub transfer_success_timestamp_seconds: u64,
}

/// What one buyer has committed to a swap.
#[derive(Clone, Copy, Debug, PartialEq, Eq, Structural)]
pub struct BuyerState {
    pub icp: Option<TransferableAmount>,
}

/// One neuron of the community fund that takes part in a swap.
#[derive(Clone, Copy, Debug, PartialEq, Eq, Structural)]
pub struct CfNeuron {
    pub nns_neuron_id: u64,
    pub amount_icp_e8s: u64,
}

/// One participant of the community fund, with the neurons that take part.
#[derive(Clone, Debug, PartialEq, Eq)]
pub struct CfParticipant {
    pub hotkey_principal: String,
    pub cf_neurons: Vec<CfNeuron>,
}

/// The request to open a swap.
#[derive(Clone, Debug, PartialEq, Eq)]
pub struct OpenRequest {
    pub params: Option<Params>,
    pub cf_participants: Vec<CfParticipant>,
    pub open_sns_token_swap_proposal_id: Option<u64>,
}

/// A participation made directly by a buyer.
#[derive(Clone, Debug, PartialEq, Eq)]
pub struct DirectInvestment {
    pub buyer_principal: String,
}

/// A participation made through the community fund.
#[derive(Clone, Debug, PartialEq, Eq)]
pub struct CfInvestment {
    pub hotkey_principal: String,
    pub nns_neuron_id: u64,
}

/// Who stands behind a neuron that is to be created.
#[derive(Clone, Debug, PartialEq, Eq)]
pub enum Investor {
    Direct(DirectInvestment),
    CommunityFund(CfInvestment),
}

/// A neuron that is to be created once the swap is committed.
#[derive(Clone, Debug, PartialEq, Eq)]
pub struct SnsNeuronRecipe {
    pub sns: Option<TransferableAmount>,
    pub investor: Option<Investor>,
}

/// The stages in the life of a swap.
#[derive(Clone, Copy, Debug, PartialEq, Eq, Structural)]
pub enum Lifecycle {
    Unspecified,
    Pending,
    Open,
    Committed,
    Aborted,
}

/// Result of a token transfer (commit or abort) on a ledger (ICP or SNS)
/// for a single buyer.
#[derive(Debug)]
pub enum TransferResult {
    /// Transfer was skipped as the amount was less than the requested fee.
    AmountTooSmall,
    /// Transfer was skipped as an operation is already in progress or
    /// completed.
    AlreadyStarted,
    /// The operation was successful at the specified block height.
    Success(u64),
    /// The operation failed with the specified error message.
    Failure(String),
}

/// What is to be sent to the ledger for a transfer that may start.
#[derive(Clone, Copy, Debug, PartialEq, Eq, Structural)]
pub struct TransferOrder {
    /// The amount that arrives: what is held, less the fee.
    pub amount_e8s: u64,
    /// The fee that the ledger takes.
    pub fee_e8s: u64,
}

/// Intermediate record used when the basket of neurons of an investor is
/// put together.
#[derive(Clone, Copy, Debug, PartialEq, Eq, Structural)]
pub struct ScheduledVestingEvent {
    /// The dissolve delay of the neuron.
    pub dissolve_delay_seconds: u64,
    /// The amount of tokens in e8s.
    pub amount_e8s: u64,
}

impl Default for OpenRequest {
    fn default() -> (request: Self)
        ensures
            request.params is None,
            request.cf_participants@.len() == 0,
            request.open_sns_token_swap_proposal_id is None,
    {
        OpenRequest {
            params: None,
            cf_participants: Vec::new(),
            open_sns_token_swap_proposal_id: None,
        }
    }
}

impl TransferableAmount {
    /// The message of the rule that the time stamps break, if they break
    /// one: a transfer cannot have succeeded without having started, nor
    /// before it started.
    pub open spec fn defect(&self) -> Option<Seq<char>> {
        if self.transfer_start_timestamp_seconds == 0 && self.transfer_success_timestamp_seconds
            > 0 {
            Some(
                "Invariant violation: transfer_start_timestamp_seconds is zero but transfer_success_timestamp_seconds ("@
                    + decimal(self.transfer_success_timestamp_seconds as nat)
                    + ") is non-zero"@,
            )
        } else if self.transfer_start_timestamp_seconds > self.transfer_success_timestamp_seconds
            && self.transfer_success_timestamp_seconds > 0 {
            Some(
                "Invariant violation: transfer_start_timestamp_seconds ("@ + decimal(
                    self.transfer_start_timestamp_seconds as nat,
                ) + ") > transfer_success_timestamp_seconds ("@ + decimal(
                    self.transfer_success_timestamp_seconds as nat,
                ) + ") > 0"@,
            )
        } else {
            None
        }
    }

    /// Checks the time stamps of the transfer.
    pub fn validate(&self) -> (result: Result<(), String>)
        ensures
            match self.defect() {
                None => result is Ok,
                Some(message) => result is Err && result->Err_0@ == message,
            },
    {
        if self.transfer_start_timestamp_seconds == 0 && self.transfer_success_timestamp_seconds
            > 0 {
            let mut m =
                "Invariant violation: transfer_start_timestamp_seconds is zero but transfer_success_timestamp_seconds (".to_owned();
            push_decimal(&mut m, self.transfer_success_timestamp_seconds);
            m.append(") is non-zero");
            return Err(m);
        }
        if self.transfer_start_timestamp_seconds > self.transfer_success_timestamp_seconds
            && self.transfer_success_timestamp_seconds > 0 {
            let mut m = "Invariant violation: transfer_start_timestamp_seconds (".to_owned();
            push_decimal(&mut m, self.transfer_start_timestamp_seconds);
            m.append(") > transfer_success_timestamp_seconds (");
            push_decimal(&mut m, self.transfer_success_timestamp_seconds);
            m.append(") > 0");
            return Err(m);
        }
        Ok(())
    }

    /// What stands in the way of a transfer, if anything: an amount that
    /// does not exceed the fee is too small, and a transfer that has
    /// started before is not started again.
    pub fn transfer_obstacle(&self, fee_e8s: u64) -> (obstacle: Option<TransferResult>)
        ensures
            self.amount_e8s <= fee_e8s ==> obstacle is Some && obstacle->0 is AmountTooSmall,
            self.amount_e8s > fee_e8s && self.transfer_start_timestamp_seconds > 0
                ==> obstacle is Some && obstacle->0 is AlreadyStarted,
            self.amount_e8s > fee_e8s && self.transfer_start_timestamp_seconds == 0
                ==> obstacle is None,
    {
        if self.amount_e8s <= fee_e8s {
            Some(TransferResult::AmountTooSmall)
        } else if self.transfer_start_timestamp_seconds > 0 {
            Some(TransferResult::AlreadyStarted)
        } else {
            None
        }
    }

    /// First half of a transfer: decides whether the amount is to be sent.
    /// An amount that does not exceed the fee is skipped, and so is one
    /// whose transfer has started before. Otherwise the start is recorded
    /// at `now` and the order for the ledger is returned.
    pub fn begin_transfer(&mut self, now: u64, fee_e8s: u64) -> (start: Result<
        TransferOrder,
        TransferResult,
    >)
        ensures
            old(self).amount_e8s <= fee_e8s ==> start is Err && start->Err_0 is AmountTooSmall
                && *final(self) == *old(self),
            old(self).amount_e8s > fee_e8s && old(self).transfer_start_timestamp_seconds > 0
                ==> start is Err && start->Err_0 is AlreadyStarted && *final(self) == *old(self),
            old(self).amount_e8s > fee_e8s && old(self).transfer_start_timestamp_seconds == 0
                ==> start == Ok::<TransferOrder, TransferResult>(
                TransferOrder { amount_e8s: (old(self).amount_e8s - fee_e8s) as u64, fee_e8s },
            ) && *final(self) == (TransferableAmount {
                transfer_start_timestamp_seconds: now,
                ..*old(self)
            }),
    {
        if self.amount_e8s <= fee_e8s {
            return Err(TransferResult::AmountTooSmall);
        }
        if self.transfer_start_timestamp_seconds > 0 {
            return Err(TransferResult::AlreadyStarted);
        }
        self.transfer_start_timestamp_seconds = now;
        Ok(TransferOrder { amount_e8s: self.amount_e8s - fee_e8s, fee_e8s })
    }

    /// Second half of a transfer: records what the ledger answered. A
    /// transfer that went through is marked as succeeded at `now`; one that
    /// failed is marked as not started, so that it can be tried again.
    pub fn finish_transfer(&mut self, outcome: Result<u64, String>, now: u64) -> (result:
        TransferResult)
        ensures
            final(self).amount_e8s == old(self).amount_e8s,
            match outcome {
                Ok(height) => result == TransferResult::Success(height)
                    && final(self).transfer_start_timestamp_seconds == old(
                    self,
                ).transfer_start_timestamp_seconds
                    && final(self).transfer_success_timestamp_seconds == now,
                Err(reason) => result == TransferResult::Failure(reason)
                    && final(self).transfer_start_timestamp_seconds == 0
                    && final(self).transfer_success_timestamp_seconds == 0,
            },
    {
        match outcome {
            Ok(height) => {
                self.transfer_success_timestamp_seconds = now;
                TransferResult::Success(height)
            },
            Err(reason) => {
                self.transfer_start_timestamp_seconds = 0;
                self.transfer_success_timestamp_seconds = 0;
                TransferResult::Failure(reason)
            },
        }
    }
}

impl BuyerState {
    /// The state of a buyer who has committed `amount_icp_e8s` and whose
    /// transfer has not started.
    pub fn new(amount_icp_e8s: u64) -> (state: Self)
        ensures
            state.icp == Some(
                TransferableAmount {
                    amount_e8s: amount_icp_e8s,
                    transfer_start_timestamp_seconds: 0,
                    transfer_success_timestamp_seconds: 0,
                },
            ),
    {
        BuyerState {
            icp: Some(
                TransferableAmount {
                    amount_e8s: amount_icp_e8s,
                    transfer_start_timestamp_seconds: 0,
                    transfer_success_timestamp_seconds: 0,
                },
            ),
        }
    }

    /// The message of the rule that the state breaks, if it breaks one.
    pub open spec fn defect(&self) -> Option<Seq<char>> {
        match self.icp {
            Some(icp) => icp.defect(),
            None => Some("Field 'icp' is missing but required"@),
        }
    }

    /// Checks that the amount is present and its time stamps are in order.
    pub fn validate(&self) -> (result: Result<(), String>)
        ensures
            match self.defect() {
                None => result is Ok,
                Some(message) => result is Err && result->Err_0@ == message,
            },
    {
        match &self.icp {
            Some(icp) => icp.validate(),
            None => Err("Field 'icp' is missing but required".to_owned()),
        }
    }

    /// The committed amount; zero where none is recorded.
    pub fn amount_icp_e8s(&self) -> (amount: u64)
        ensures
            amount == match self.icp {
                Some(icp) => icp.amount_e8s,
                None => 0,
            },
    {
        match &self.icp {
            Some(icp) => icp.amount_e8s,
            None => 0,
        }
    }

    /// Sets the committed amount. The progress of a recorded transfer is
    /// kept; where nothing was recorded, a transfer that has not started is.
    pub fn set_amount_icp_e8s(&mut self, val: u64)
        ensures
            final(self).icp == Some(
                match old(self).icp {
                    Some(icp) => TransferableAmount { amount_e8s: val, ..icp },
                    None => TransferableAmount {
                        amount_e8s: val,
                        transfer_start_timestamp_seconds: 0,
                        transfer_success_timestamp_seconds: 0,
                    },
                },
            ),
    {
        match self.icp {
            Some(icp) => {
                self.icp = Some(TransferableAmount { amount_e8s: val, ..icp });
            },
            None => {
                self.icp = Some(
                    TransferableAmount {
                        amount_e8s: val,
                        transfer_start_timestamp_seconds: 0,
                        transfer_success_timestamp_seconds: 0,
                    },
                );
            },
        }
    }
}

impl CfNeuron {
    /// The message of the rule that the neuron breaks, if it breaks one.
    pub open spec fn defect(&self) -> Option<Seq<char>> {
        if self.nns_neuron_id == 0 {
            Some("nns_neuron_id must be specified"@)
        } else if self.amount_icp_e8s == 0 {
            Some("amount_icp_e8s must be specified"@)
        } else {
            None
        }
    }

    /// Checks that the neuron is named and takes part with an amount.
    pub fn validate(&self) -> (result: Result<(), String>)
        ensures
            match self.defect() {
                None => result is Ok,
                Some(message) => result is Err && result->Err_0@ == message,
            },
    {
        if self.nns_neuron_id == 0 {
            return Err("nns_neuron_id must be specified".to_owned());
        }
        if self.amount_icp_e8s == 0 {
            return Err("amount_icp_e8s must be specified".to_owned());
        }
        Ok(())
    }
}

/// The sum of the amounts of some neurons.
pub open spec fn total_icp_e8s(neurons: Seq<CfNeuron>) -> int
    decreases neurons.len(),
{
    if neurons.len() == 0 {
        0
    } else {
        total_icp_e8s(neurons.drop_last()) + neurons.last().amount_icp_e8s
    }
}

/// The position of the first neuron that breaks a rule, looking from
/// position `from` on.
pub open spec fn first_bad_neuron(neurons: Seq<CfNeuron>, from: int) -> Option<int>
    decreases neurons.len() - from,
{
    if from < 0 || from >= neurons.len() {
        None
    } else if neurons[from].defect() is Some {
        Some(from)
    } else {
        first_bad_neuron(neurons, from + 1)
    }
}

/// The sum of amounts never shrinks when a neuron is added.
pub proof fn lemma_total_nonnegative(neurons: Seq<CfNeuron>)
    ensures
        total_icp_e8s(neurons) >= 0,
    decreases neurons.len(),
{
    if neurons.len() > 0 {
        lemma_total_nonnegative(neurons.drop_last());
    }
}

impl CfParticipant {
    /// The message of the first rule that the participant breaks, given
    /// whether the hot key was found to be a principal: the hot key comes
    /// first, then the presence of a neuron, then the neurons in their
    /// order.
    pub open spec fn verdict(&self, hotkey_is_principal: bool) -> Option<Seq<char>> {
        if !hotkey_is_principal {
            Some("Invalid hotkey principal "@ + self.hotkey_principal@)
        } else if self.cf_neurons@.len() == 0 {
            Some(
                "A CF participant ("@ + self.hotkey_principal@
                    + ") must have at least one neuron"@,
            )
        } else if first_bad_neuron(self.cf_neurons@, 0) is Some {
            self.cf_neurons@[first_bad_neuron(self.cf_neurons@, 0)->0].defect()
        } else {
            None
        }
    }

    /// The message of the first rule that the participant breaks, if it
    /// breaks one.
    pub open spec fn defect(&self) -> Option<Seq<char>> {
        self.verdict(self.hotkey_principal@.len() > 0 && is_principal_text(self.hotkey_principal@))
    }

    /// Judges the participant, given whether the hot key was found to be a
    /// principal.
    pub fn judge(&self, hotkey_is_principal: bool) -> (result: Result<(), String>)
        ensures
            match self.verdict(hotkey_is_principal) {
                None => result is Ok,
                Some(message) => result is Err && result->Err_0@ == message,
            },
    {
        if !hotkey_is_principal {
            let mut m = "Invalid hotkey principal ".to_owned();
            m.append(self.hotkey_principal.as_str());
            return Err(m);
        }
        if self.cf_neurons.len() == 0 {
            let mut m = "A CF participant (".to_owned();
            m.append(self.hotkey_principal.as_str());
            m.append(") must have at least one neuron");
            return Err(m);
        }
        let mut i: usize = 0;
        while i < self.cf_neurons.len()
            invariant
                i <= self.cf_neurons.len(),
                hotkey_is_principal,
                self.cf_neurons@.len() > 0,
                first_bad_neuron(self.cf_neurons@, 0) == first_bad_neuron(
                    self.cf_neurons@,
                    i as int,
                ),
            decreases self.cf_neurons.len() - i,
        {
            match self.cf_neurons[i].validate() {
                Err(e) => {
                    return Err(e);
                },
                Ok(_) => {},
            }
            i = i + 1;
        }
        Ok(())
    }

    /// Checks the hot key, that there is a neuron, and every neuron.
    pub fn validate(&self) -> (result: Result<(), String>)
        ensures
            match self.defect() {
                None => result is Ok,
                Some(message) => result is Err && result->Err_0@ == message,
            },
    {
        self.judge(is_valid_principal(self.hotkey_principal.as_str()))
    }

    /// The amount that the participant takes part with: the sum over the
    /// neurons, or the largest sixty-four-bit number where the sum exceeds
    /// it.
    pub fn participant_total_icp_e8s(&self) -> (total: u64)
        ensures
            total == if total_icp_e8s(self.cf_neurons@) > u64::MAX {
                u64::MAX as int
            } else {
                total_icp_e8s(self.cf_neurons@)
            },
    {
        let mut total: u64 = 0;
        let mut i: usize = 0;
        while i < self.cf_neurons.len()
            invariant
                i <= self.cf_neurons.len(),
                total == if total_icp_e8s(self.cf_neurons@.take(i as int)) > u64::MAX {
                    u64::MAX as int
                } else {
                    total_icp_e8s(self.cf_neurons@.take(i as int))
                },
            decreases self.cf_neurons.len() - i,
        {
            proof {
                let next = self.cf_neurons@.take(i + 1);
                assert(next.drop_last() =~= self.cf_neurons@.take(i as int));
                lemma_total_nonnegative(self.cf_neurons@.take(i as int));
            }
            total = saturating_add(total, self.cf_neurons[i].amount_icp_e8s);
            i = i + 1;
        }
        assert(self.cf_neurons@.take(i as int) =~= self.cf_neurons@);
        total
    }
}

impl DirectInvestment {
    /// The message of the rule that the participation breaks, given
    /// whether the buyer was found to be a principal.
    pub open spec fn verdict(&self, buyer_is_principal: bool) -> Option<Seq<char>> {
        if !buyer_is_principal {
            Some("Invalid principal "@ + self.buyer_principal@)
        } else {
            None
        }
    }

    /// The message of the rule that the participation breaks, if any.
    pub open spec fn defect(&self) -> Option<Seq<char>> {
        self.verdict(self.buyer_principal@.len() > 0 && is_principal_text(self.buyer_principal@))
    }

    /// Judges the participation, given whether the buyer was found to be a
    /// principal.
    pub fn judge(&self, buyer_is_principal: bool) -> (result: Result<(), String>)
        ensures
            match self.verdict(buyer_is_principal) {
                None => result is Ok,
                Some(message) => result is Err && result->Err_0@ == message,
            },
    {
        if !buyer_is_principal {
            let mut m = "Invalid principal ".to_owned();
            m.append(self.buyer_principal.as_str());
            return Err(m);
        }
        Ok(())
    }

    /// Checks that the buyer is named by a principal.
    pub fn validate(&self) -> (result: Result<(), String>)
        ensures
            match self.defect() {
                None => result is Ok,
                Some(message) => result is Err && result->Err_0@ == message,
            },
    {
        self.judge(is_valid_principal(self.buyer_principal.as_str()))
    }
}

impl CfInvestment {
    /// The message of the first rule that the participation breaks, given
    /// whether the hot key was found to be a principal.
    pub open spec fn verdict(&self, hotkey_is_principal: bool) -> Option<Seq<char>> {
        if !hotkey_is_principal {
            Some("Invalid hotkey principal "@ + self.hotkey_principal@)
        } else if self.nns_neuron_id == 0 {
            Some("Missing nns_neuron_id"@)
        } else {
            None
        }
    }

    /// The message of the rule that the participation breaks, if any.
    pub open spec fn defect(&self) -> Option<Seq<char>> {
        self.verdict(self.hotkey_principal@.len() > 0 && is_principal_text(self.hotkey_principal@))
    }

    /// Judges the participation, given whether the hot key was found to be
    /// a principal.
    pub fn judge(&self, hotkey_is_principal: bool) -> (result: Result<(), String>)
        ensures
            match self.verdict(hotkey_is_principal) {
                None => result is Ok,
                Some(message) => result is Err && result->Err_0@ == message,
            },
    {
        if !hotkey_is_principal {
            let mut m = "Invalid hotkey principal ".to_owned();
            m.append(self.hotkey_principal.as_str());
            return Err(m);
        }
        if self.nns_neuron_id == 0 {
            return Err("Missing nns_neuron_id".to_owned());
        }
        Ok(())
    }

    /// Checks that the hot key is a principal and the neuron is named.
    pub fn validate(&self) -> (result: Result<(), String>)
        ensures
            match self.defect() {
                None => result is Ok,
                Some(message) => result is Err && result->Err_0@ == message,
            },
    {
        self.judge(is_valid_principal(self.hotkey_principal.as_str()))
    }
}

impl SnsNeuronRecipe {
    /// The amount of tokens of the neuron; zero where none is recorded.
    pub fn amount_e8s(&self) -> (amount: u64)
        ensures
            amount == match self.sns {
                Some(sns) => sns.amount_e8s,
                None => 0,
            },
    {
        match &self.sns {
            Some(sns) => sns.amount_e8s,
            None => 0,
        }
    }

    /// The message of the first rule that the recipe breaks, given whether
    /// the investor was found to be named by a principal: the amount comes
    /// first, the investor second.
    pub open spec fn verdict(&self, investor_is_principal: bool) -> Option<Seq<char>> {
        match self.sns {
            None => Some("Missing required field 'sns'"@),
            Some(sns) => if sns.defect() is Some {
                sns.defect()
            } else {
                match self.investor {
                    Some(Investor::Direct(direct)) => direct.verdict(investor_is_principal),
                    Some(Investor::CommunityFund(fund)) => fund.verdict(investor_is_principal),
                    None => Some("Missing required field 'investor'"@),
                }
            },
        }
    }

    /// Whether the investor of the recipe is named by a text that is
    /// present and denotes a principal.
    pub open spec fn investor_named(&self) -> bool {
        match self.investor {
            Some(Investor::Direct(direct)) => direct.buyer_principal@.len() > 0
                && is_principal_text(direct.buyer_principal@),
            Some(Investor::CommunityFund(fund)) => fund.hotkey_principal@.len() > 0
                && is_principal_text(fund.hotkey_principal@),
            None => false,
        }
    }

    /// The message of the first rule that the recipe breaks, if any.
    pub open spec fn defect(&self) -> Option<Seq<char>> {
        self.verdict(self.investor_named())
    }

    /// Judges the recipe, given whether the investor was found to be named
    /// by a principal.
    pub fn judge(&self, investor_is_principal: bool) -> (result: Result<(), String>)
        ensures
            match self.verdict(investor_is_principal) {
                None => result is Ok,
                Some(message) => result is Err && result->Err_0@ == message,
            },
    {
        match &self.sns {
            Some(sns) => match sns.validate() {
                Err(e) => {
                    return Err(e);
                },
                Ok(_) => {},
            },
            None => {
                return Err("Missing required field 'sns'".to_owned());
            },
        }
        match &self.investor {
            Some(Investor::Direct(direct)) => direct.judge(investor_is_principal),
            Some(Investor::CommunityFund(fund)) => fund.judge(investor_is_principal),
            None => Err("Missing required field 'investor'".to_owned()),
        }
    }

    /// Checks the amount and the investor of the recipe.
    pub fn validate(&self) -> (result: Result<(), String>)
        ensures
            match self.defect() {
                None => result is Ok,
                Some(message) => result is Err && result->Err_0@ == message,
            },
    {
        let investor_is_principal = match &self.investor {
            Some(Investor::Direct(direct)) => is_valid_principal(direct.buyer_principal.as_str()),
            Some(Investor::CommunityFund(fund)) => is_valid_principal(
                fund.hotkey_principal.as_str(),
            ),
            None => false,
        };
        self.judge(investor_is_principal)
    }
}

impl OpenRequest {
    /// What is wrong with the terms of the request, if anything: they are
    /// missing, they are not valid at the given time, or they break a rule.
    pub open spec fn params_defect(&self, now_seconds: u64, init: &Init) -> Option<Seq<char>> {
        match self.params {
            None => Some("The parameters of the swap are missing."@),
            Some(params) => if !params.valid_at(now_seconds) {
                Some("The parameters of the swap are invalid."@)
            } else {
                match params.defect(init) {
                    Some(defect) => Some(params.defect_text(init, defect)),
                    None => None,
                }
            },
        }
    }

    /// What is wrong with the proposal of the request, if anything.
    pub open spec fn proposal_defect(&self) -> Option<Seq<char>> {
        if self.open_sns_token_swap_proposal_id is None {
            Some("The open_sns_token_swap_proposal_id field has no value."@)
        } else {
            None
        }
    }

    /// Everything that is wrong with the request, one defect per line.
    pub open spec fn defects(&self, now_seconds: u64, init: &Init) -> Option<Seq<char>> {
        match (self.params_defect(now_seconds, init), self.proposal_defect()) {
            (None, None) => None,
            (Some(a), None) => Some(a),
            (None, Some(b)) => Some(b),
            (Some(a), Some(b)) => Some(a + seq!['\n'] + b),
        }
    }

    /// Whether the request can be checked: terms that are valid at the
    /// given time have to be checkable against the set-up.
    pub open spec fn checkable(&self, now_seconds: u64, init: &Init) -> bool {
        self.params is Some && self.params->0.valid_at(now_seconds) ==> self.params->0.checkable(
            init,
        )
    }

    /// Checks the request at the given time against the set-up of the swap
    /// and reports every defect.
    pub fn validate(&self, current_timestamp_seconds: u64, init: &Init) -> (result: Result<
        (),
        String,
    >)
        requires
            self.checkable(current_timestamp_seconds, init),
        ensures
            match self.defects(current_timestamp_seconds, init) {
                None => result is Ok,
                Some(message) => result is Err && result->Err_0@ == message,
            },
    {
        let first: Option<String> = match &self.params {
            None => Some("The parameters of the swap are missing.".to_owned()),
            Some(params) => {
                if !params.is_valid_at(current_timestamp_seconds) {
                    Some("The parameters of the swap are invalid.".to_owned())
                } else {
                    match params.validate(init) {
                        Err(e) => Some(e),
                        Ok(_) => None,
                    }
                }
            },
        };
        let second: Option<String> = if self.open_sns_token_swap_proposal_id.is_none() {
            Some("The open_sns_token_swap_proposal_id field has no value.".to_owned())
        } else {
            None
        };
        match (first, second) {
            (None, None) => Ok(()),
            (Some(a), None) => Err(a),
            (None, Some(b)) => Err(b),
            (Some(a), Some(b)) => {
                proof {
                    reveal_strlit("\n");
                }
                let mut m = a;
                m.append("\n");
                m.append(b.as_str());
                Err(m)
            },
        }
    }
}

impl Lifecycle {
    /// Tells whether the swap has reached a stage that it does not leave:
    /// committed or aborted.
    pub fn is_terminal(&self) -> (terminal: bool)
        ensures
            terminal == (*self is Committed || *self is Aborted),
    {
        match self {
            Lifecycle::Committed | Lifecycle::Aborted => true,
            Lifecycle::Pending | Lifecycle::Open => false,
            Lifecycle::Unspecified => false,
        }
    }
}

} // verus!
