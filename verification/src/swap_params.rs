//! The parameters of a token swap and the rules they have to meet.
//!
//! Amounts are counted in e8s, hundred-millionths of a token. Validation
//! reports the first rule that is broken, in words.

use crate::principal::{canister_defect_text, canister_id_of, is_principal_text};
use crate::principal::{parse_canister_id, principal_defect_text, principal_of_text};
use crate::principal::{validate_canister_id, validate_principal, CanisterId};
use crate::text::{decimal, push_decimal};
use vstd::prelude::*;
use vstd::string::*;

verus! {

/// Seconds in one day.
pub const SECONDS_PER_DAY: u64 = 86400;

/// The largest amount of ICP that a swap may collect: one billion tokens.
pub const MAX_ICP_E8S_CAP: u64 = 100_000_000_000_000_000;

/// The largest number of participants that a swap may ask for as a
/// minimum.
pub const MIN_PARTICIPANTS_CAP: u32 = 100;

/// The canisters and settings that a swap is set up with.
#[derive(Clone, Debug, PartialEq, Eq)]
pub struct Init {
    pub nns_governance_canister_id: String,
    pub sns_governance_canister_id: String,
    pub sns_ledger_canister_id: String,
    pub icp_ledger_canister_id: String,
    pub sns_root_canister_id: String,
    pub fallback_controller_principal_ids: Vec<String>,
    pub transaction_fee_e8s: Option<u64>,
    pub neuron_minimum_stake_e8s: Option<u64>,
}

/// The canisters that a swap works with.
#[derive(Clone, Debug, PartialEq, Eq)]
pub struct SwapCanisters {
    pub nns_governance: CanisterId,
    pub sns_root: CanisterId,
    pub sns_governance: CanisterId,
    pub sns_ledger: CanisterId,
    pub icp_ledger: CanisterId,
}

/// How the tokens of one participant are split into neurons.
#[derive(Clone, Copy, Debug, PartialEq, Eq, Structural)]
pub struct NeuronBasketConstructionParameters {
    /// Number of neurons per participant.
    pub count: u64,
    /// Difference in dissolve delay between one neuron and the next.
    pub dissolve_delay_interval_seconds: u64,
}

/// The terms of a swap.
#[derive(Clone, Copy, Debug, PartialEq, Eq, Structural)]
pub struct Params {
    pub min_participants: u32,
    pub min_icp_e8s: u64,
    pub max_icp_e8s: u64,
    pub min_participant_icp_e8s: u64,
    pub max_participant_icp_e8s: u64,
    pub swap_due_timestamp_seconds: u64,
    pub sns_token_e8s: u64,
    pub neuron_basket_construction_parameters: Option<NeuronBasketConstructionParameters>,
}

/// The rules that the terms of a swap can break, in the order in which
/// they are checked.
#[derive(Clone, Copy, Debug, PartialEq, Eq, Structural)]
pub enum ParamsDefect {
    MinIcpZero,
    MinParticipantsZero,
    MinParticipantIcpTooSmall,
    SnsTokenZero,
    ParticipantRangeEmpty,
    IcpRangeEmpty,
    MaxParticipantAboveMaxIcp,
    MaxIcpAboveCap,
    MinParticipantsAboveCap,
    MaxIcpBelowMinimumTotal,
    BasketCountZero,
    BasketIntervalZero,
    BasketDelayOverflow,
}

impl Default for Init {
    fn default() -> (init: Self)
        ensures
            init.nns_governance_canister_id@.len() == 0,
            init.sns_governance_canister_id@.len() == 0,
            init.sns_ledger_canister_id@.len() == 0,
            init.icp_ledger_canister_id@.len() == 0,
            init.sns_root_canister_id@.len() == 0,
            init.fallback_controller_principal_ids@.len() == 0,
            init.transaction_fee_e8s is None,
            init.neuron_minimum_stake_e8s is None,
    {
        Init {
            nns_governance_canister_id: String::new(),
            sns_governance_canister_id: String::new(),
            sns_ledger_canister_id: String::new(),
            icp_ledger_canister_id: String::new(),
            sns_root_canister_id: String::new(),
            fallback_controller_principal_ids: Vec::new(),
            transaction_fee_e8s: None,
            neuron_minimum_stake_e8s: None,
        }
    }
}

/// The outcomes of validating the names in a set-up.
#[derive(Debug, PartialEq, Eq)]
pub struct InitChecks {
    pub nns_governance: Result<(), String>,
    pub sns_governance: Result<(), String>,
    pub sns_ledger: Result<(), String>,
    pub icp_ledger: Result<(), String>,
    pub sns_root: Result<(), String>,
    /// One outcome per fallback controller, in their order.
    pub fallback_controllers: Vec<Result<(), String>>,
}

/// Whether `check` is what validating `text` as the name of a canister
/// yields.
pub open spec fn canister_check(check: Result<(), String>, text: Seq<char>) -> bool {
    (check is Ok <==> is_principal_text(text)) && (check is Err ==> check->Err_0@
        == canister_defect_text(text))
}

/// Whether `check` is what validating `text` as a principal yields.
pub open spec fn principal_check(check: Result<(), String>, text: Seq<char>) -> bool {
    (check is Ok <==> is_principal_text(text)) && (check is Err ==> check->Err_0@
        == principal_defect_text(text))
}

/// The position of the first outcome that is a failure, looking from
/// position `from` on.
pub open spec fn first_failed(checks: Seq<Result<(), String>>, from: int) -> Option<int>
    decreases checks.len() - from,
{
    if from < 0 || from >= checks.len() {
        None
    } else if checks[from] is Err {
        Some(from)
    } else {
        first_failed(checks, from + 1)
    }
}

/// The product of two sixty-four-bit numbers, or the largest such number
/// where the product does not fit.
pub open spec fn saturating_product(a: u64, b: u64) -> u64 {
    if a * b > u64::MAX {
        u64::MAX
    } else {
        (a * b) as u64
    }
}

/// The sum of two sixty-four-bit numbers, or the largest such number where
/// the sum does not fit.
pub open spec fn saturating_sum(a: u64, b: u64) -> u64 {
    if a + b > u64::MAX {
        u64::MAX
    } else {
        (a + b) as u64
    }
}

/// Multiplies without overflow: a product that does not fit is replaced by
/// the largest number.
pub fn saturating_mul(a: u64, b: u64) -> (product: u64)
    ensures
        product == saturating_product(a, b),
{
    if a == 0 || b == 0 {
        assert(a * b == 0) by (nonlinear_arith)
            requires
                a == 0 || b == 0,
        ;
        0
    } else if a > u64::MAX / b {
        assert(a * b > u64::MAX) by (nonlinear_arith)
            requires
                a > u64::MAX / b,
                b > 0,
        ;
        u64::MAX
    } else {
        assert(a * b <= u64::MAX) by (nonlinear_arith)
            requires
                a <= u64::MAX / b,
                b > 0,
                a >= 0,
        ;
        a * b
    }
}

/// Adds without overflow: a sum that does not fit is replaced by the
/// largest number.
pub fn saturating_add(a: u64, b: u64) -> (sum: u64)
    ensures
        sum == saturating_sum(a, b),
{
    if a > u64::MAX - b {
        u64::MAX
    } else {
        a + b
    }
}

impl Init {
    /// Whether every canister of the set-up is named by a text that
    /// denotes a principal.
    pub open spec fn canisters_named(&self) -> bool {
        &&& is_principal_text(self.nns_governance_canister_id@)
        &&& is_principal_text(self.sns_governance_canister_id@)
        &&& is_principal_text(self.sns_ledger_canister_id@)
        &&& is_principal_text(self.icp_ledger_canister_id@)
        &&& is_principal_text(self.sns_root_canister_id@)
    }

    /// The position of the first fallback controller that is no principal,
    /// looking from position `from` on.
    pub open spec fn first_bad_controller(&self, from: int) -> Option<int>
        decreases self.fallback_controller_principal_ids@.len() - from,
    {
        if from < 0 || from >= self.fallback_controller_principal_ids@.len() {
            None
        } else if !is_principal_text(self.fallback_controller_principal_ids@[from]@) {
            Some(from)
        } else {
            self.first_bad_controller(from + 1)
        }
    }

    /// The message of the first rule that the set-up breaks, if it breaks
    /// one. The canisters are checked first, in the order governance of the
    /// NNS, governance of the SNS, ledger of the SNS, ledger of ICP, root;
    /// then the fallback controllers; then the two amounts.
    pub open spec fn defect(&self) -> Option<Seq<char>> {
        if !is_principal_text(self.nns_governance_canister_id@) {
            Some(canister_defect_text(self.nns_governance_canister_id@))
        } else if !is_principal_text(self.sns_governance_canister_id@) {
            Some(canister_defect_text(self.sns_governance_canister_id@))
        } else if !is_principal_text(self.sns_ledger_canister_id@) {
            Some(canister_defect_text(self.sns_ledger_canister_id@))
        } else if !is_principal_text(self.icp_ledger_canister_id@) {
            Some(canister_defect_text(self.icp_ledger_canister_id@))
        } else if !is_principal_text(self.sns_root_canister_id@) {
            Some(canister_defect_text(self.sns_root_canister_id@))
        } else if self.fallback_controller_principal_ids@.len() == 0 {
            Some("at least one fallback controller required"@)
        } else if self.first_bad_controller(0) is Some {
            Some(
                principal_defect_text(
                    self.fallback_controller_principal_ids@[self.first_bad_controller(0)->0]@,
                ),
            )
        } else if self.transaction_fee_e8s is None {
            Some("transaction_fee_e8s is required."@)
        } else if self.neuron_minimum_stake_e8s is None {
            Some("neuron_minimum_stake_e8s is required."@)
        } else {
            None
        }
    }

    /// The governance canister of the NNS.
    pub fn nns_governance_or_panic(&self) -> (id: CanisterId)
        requires
            is_principal_text(self.nns_governance_canister_id@),
        ensures
            id.principal.bytes@ == principal_of_text(self.nns_governance_canister_id@)->Ok_0,
    {
        canister_id_of(self.nns_governance_canister_id.as_str())
    }

    /// The governance canister of the NNS, or what is wrong with its name.
    pub fn nns_governance(&self) -> (id: Result<CanisterId, String>)
        ensures
            id is Ok <==> is_principal_text(self.nns_governance_canister_id@),
            id is Ok ==> id->Ok_0.principal.bytes@ == principal_of_text(
                self.nns_governance_canister_id@,
            )->Ok_0,
            id is Err ==> id->Err_0@ == principal_of_text(
                self.nns_governance_canister_id@,
            )->Err_0,
    {
        parse_canister_id(self.nns_governance_canister_id.as_str())
    }

    /// The root canister of the SNS.
    pub fn sns_root_or_panic(&self) -> (id: CanisterId)
        requires
            is_principal_text(self.sns_root_canister_id@),
        ensures
            id.principal.bytes@ == principal_of_text(self.sns_root_canister_id@)->Ok_0,
    {
        canister_id_of(self.sns_root_canister_id.as_str())
    }

    /// The governance canister of the SNS.
    pub fn sns_governance_or_panic(&self) -> (id: CanisterId)
        requires
            is_principal_text(self.sns_governance_canister_id@),
        ensures
            id.principal.bytes@ == principal_of_text(self.sns_governance_canister_id@)->Ok_0,
    {
        canister_id_of(self.sns_governance_canister_id.as_str())
    }

    /// The governance canister of the SNS, or what is wrong with its name.
    pub fn sns_governance(&self) -> (id: Result<CanisterId, String>)
        ensures
            id is Ok <==> is_principal_text(self.sns_governance_canister_id@),
            id is Ok ==> id->Ok_0.principal.bytes@ == principal_of_text(
                self.sns_governance_canister_id@,
            )->Ok_0,
            id is Err ==> id->Err_0@ == principal_of_text(
                self.sns_governance_canister_id@,
            )->Err_0,
    {
        parse_canister_id(self.sns_governance_canister_id.as_str())
    }

    /// The ledger canister of the SNS.
    pub fn sns_ledger_or_panic(&self) -> (id: CanisterId)
        requires
            is_principal_text(self.sns_ledger_canister_id@),
        ensures
            id.principal.bytes@ == principal_of_text(self.sns_ledger_canister_id@)->Ok_0,
    {
        canister_id_of(self.sns_ledger_canister_id.as_str())
    }

    /// The ledger canister of ICP.
    pub fn icp_ledger_or_panic(&self) -> (id: CanisterId)
        requires
            is_principal_text(self.icp_ledger_canister_id@),
        ensures
            id.principal.bytes@ == principal_of_text(self.icp_ledger_canister_id@)->Ok_0,
    {
        canister_id_of(self.icp_ledger_canister_id.as_str())
    }

    /// The five canisters of a set-up whose names all denote principals;
    /// `None` where a name denotes none.
    pub fn canisters(&self) -> (ids: Option<SwapCanisters>)
        ensures
            ids is Some <==> self.canisters_named(),
            ids is Some ==> {
                &&& ids->0.nns_governance.principal.bytes@ == principal_of_text(
                    self.nns_governance_canister_id@,
                )->Ok_0
                &&& ids->0.sns_root.principal.bytes@ == principal_of_text(
                    self.sns_root_canister_id@,
                )->Ok_0
                &&& ids->0.sns_governance.principal.bytes@ == principal_of_text(
                    self.sns_governance_canister_id@,
                )->Ok_0
                &&& ids->0.sns_ledger.principal.bytes@ == principal_of_text(
                    self.sns_ledger_canister_id@,
                )->Ok_0
                &&& ids->0.icp_ledger.principal.bytes@ == principal_of_text(
                    self.icp_ledger_canister_id@,
                )->Ok_0
            },
    {
        if validate_canister_id(self.nns_governance_canister_id.as_str()).is_ok()
            && validate_canister_id(self.sns_root_canister_id.as_str()).is_ok()
            && validate_canister_id(self.sns_governance_canister_id.as_str()).is_ok()
            && validate_canister_id(self.sns_ledger_canister_id.as_str()).is_ok()
            && validate_canister_id(self.icp_ledger_canister_id.as_str()).is_ok() {
            Some(
                SwapCanisters {
                    nns_governance: self.nns_governance_or_panic(),
                    sns_root: self.sns_root_or_panic(),
                    sns_governance: self.sns_governance_or_panic(),
                    sns_ledger: self.sns_ledger_or_panic(),
                    icp_ledger: self.icp_ledger_or_panic(),
                },
            )
        } else {
            None
        }
    }

    /// Whether `checks` holds what validating the names of this set-up
    /// yields: one outcome per canister, and one per fallback controller in
    /// their order.
    pub open spec fn checked_by(&self, checks: InitChecks) -> bool {
        &&& canister_check(checks.nns_governance, self.nns_governance_canister_id@)
        &&& canister_check(checks.sns_governance, self.sns_governance_canister_id@)
        &&& canister_check(checks.sns_ledger, self.sns_ledger_canister_id@)
        &&& canister_check(checks.icp_ledger, self.icp_ledger_canister_id@)
        &&& canister_check(checks.sns_root, self.sns_root_canister_id@)
        &&& checks.fallback_controllers@.len() == self.fallback_controller_principal_ids@.len()
        &&& forall|i: int|
            0 <= i < checks.fallback_controllers@.len() ==> principal_check(
                #[trigger] checks.fallback_controllers@[i],
                self.fallback_controller_principal_ids@[i]@,
            )
    }

    /// The message of the first rule that the set-up breaks, given the
    /// outcomes of validating its names: the canisters come first, in the
    /// order governance of the NNS, governance of the SNS, ledger of the
    /// SNS, ledger of ICP, root; then the fallback controllers, of which
    /// there has to be one; then the two amounts, which have to be present.
    pub open spec fn verdict(&self, checks: InitChecks) -> Option<Seq<char>> {
        if checks.nns_governance is Err {
            Some(checks.nns_governance->Err_0@)
        } else if checks.sns_governance is Err {
            Some(checks.sns_governance->Err_0@)
        } else if checks.sns_ledger is Err {
            Some(checks.sns_ledger->Err_0@)
        } else if checks.icp_ledger is Err {
            Some(checks.icp_ledger->Err_0@)
        } else if checks.sns_root is Err {
            Some(checks.sns_root->Err_0@)
        } else if self.fallback_controller_principal_ids@.len() == 0 {
            Some("at least one fallback controller required"@)
        } else if first_failed(checks.fallback_controllers@, 0) is Some {
            Some(
                checks.fallback_controllers@[first_failed(
                    checks.fallback_controllers@,
                    0,
                )->0]->Err_0@,
            )
        } else if self.transaction_fee_e8s is None {
            Some("transaction_fee_e8s is required."@)
        } else if self.neuron_minimum_stake_e8s is None {
            Some("neuron_minimum_stake_e8s is required."@)
        } else {
            None
        }
    }

    /// With the outcomes of validating the names of the set-up, the first
    /// controller whose validation failed is the first that is no
    /// principal.
    pub proof fn lemma_first_failed(&self, checks: InitChecks, from: int)
        requires
            self.checked_by(checks),
            0 <= from,
        ensures
            first_failed(checks.fallback_controllers@, from) == self.first_bad_controller(from),
        decreases checks.fallback_controllers@.len() - from,
    {
        if from < checks.fallback_controllers@.len() {
            assert(principal_check(
                checks.fallback_controllers@[from],
                self.fallback_controller_principal_ids@[from]@,
            ));
            if checks.fallback_controllers@[from] is Ok {
                self.lemma_first_failed(checks, from + 1);
            }
        }
    }

    /// Validates the names in the set-up: every canister and every
    /// fallback controller.
    pub fn check_names(&self) -> (checks: InitChecks)
        ensures
            self.checked_by(checks),
    {
        let mut fallback_controllers: Vec<Result<(), String>> = Vec::new();
        let mut i: usize = 0;
        while i < self.fallback_controller_principal_ids.len()
            invariant
                i <= self.fallback_controller_principal_ids.len(),
                fallback_controllers@.len() == i,
                forall|k: int|
                    0 <= k < i ==> principal_check(
                        #[trigger] fallback_controllers@[k],
                        self.fallback_controller_principal_ids@[k]@,
                    ),
            decreases self.fallback_controller_principal_ids.len() - i,
        {
            fallback_controllers.push(
                validate_principal(self.fallback_controller_principal_ids[i].as_str()),
            );
            i = i + 1;
        }
        InitChecks {
            nns_governance: validate_canister_id(self.nns_governance_canister_id.as_str()),
            sns_governance: validate_canister_id(self.sns_governance_canister_id.as_str()),
            sns_ledger: validate_canister_id(self.sns_ledger_canister_id.as_str()),
            icp_ledger: validate_canister_id(self.icp_ledger_canister_id.as_str()),
            sns_root: validate_canister_id(self.sns_root_canister_id.as_str()),
            fallback_controllers,
        }
    }

    /// Judges the set-up by the outcomes of validating its names. The
    /// amounts only have to be present; their values are not judged.
    pub fn judge(&self, checks: &InitChecks) -> (result: Result<(), String>)
        ensures
            match self.verdict(*checks) {
                None => result is Ok,
                Some(message) => result is Err && result->Err_0@ == message,
            },
    {
        if let Err(e) = &checks.nns_governance {
            return Err(e.clone());
        }
        if let Err(e) = &checks.sns_governance {
            return Err(e.clone());
        }
        if let Err(e) = &checks.sns_ledger {
            return Err(e.clone());
        }
        if let Err(e) = &checks.icp_ledger {
            return Err(e.clone());
        }
        if let Err(e) = &checks.sns_root {
            return Err(e.clone());
        }
        if self.fallback_controller_principal_ids.len() == 0 {
            return Err("at least one fallback controller required".to_owned());
        }
        let mut i: usize = 0;
        while i < checks.fallback_controllers.len()
            invariant
                i <= checks.fallback_controllers.len(),
                checks.nns_governance is Ok,
                checks.sns_governance is Ok,
                checks.sns_ledger is Ok,
                checks.icp_ledger is Ok,
                checks.sns_root is Ok,
                self.fallback_controller_principal_ids@.len() > 0,
                first_failed(checks.fallback_controllers@, 0) == first_failed(
                    checks.fallback_controllers@,
                    i as int,
                ),
            decreases checks.fallback_controllers.len() - i,
        {
            if let Err(e) = &checks.fallback_controllers[i] {
                return Err(e.clone());
            }
            i = i + 1;
        }
        if self.transaction_fee_e8s.is_none() {
            return Err("transaction_fee_e8s is required.".to_owned());
        }
        if self.neuron_minimum_stake_e8s.is_none() {
            return Err("neuron_minimum_stake_e8s is required.".to_owned());
        }
        Ok(())
    }

    /// Checks the set-up. The amounts only have to be present; their values
    /// are not judged.
    pub fn validate(&self) -> (result: Result<(), String>)
        ensures
            match self.defect() {
                None => result is Ok,
                Some(message) => result is Err && result->Err_0@ == message,
            },
    {
        let checks = self.check_names();
        proof {
            self.lemma_first_failed(checks, 0);
            if self.first_bad_controller(0) is Some {
                let at = self.first_bad_controller(0)->0;
                self.lemma_first_bad_controller(0);
                assert(principal_check(
                    checks.fallback_controllers@[at],
                    self.fallback_controller_principal_ids@[at]@,
                ));
            }
        }
        self.judge(&checks)
    }

    /// What `first_bad_controller` finds is a position among the
    /// controllers, and the controller there is no principal.
    pub proof fn lemma_first_bad_controller(&self, from: int)
        requires
            0 <= from,
        ensures
            self.first_bad_controller(from) matches Some(at) ==> from <= at
                < self.fallback_controller_principal_ids@.len() && !is_principal_text(
                self.fallback_controller_principal_ids@[at]@,
            ),
        decreases self.fallback_controller_principal_ids@.len() - from,
    {
        if from < self.fallback_controller_principal_ids@.len() && is_principal_text(
            self.fallback_controller_principal_ids@[from]@,
        ) {
            self.lemma_first_bad_controller(from + 1);
        }
    }
}

impl Params {
    /// The number of SNS tokens that the smallest participation buys.
    pub open spec fn min_participant_sns_e8s(&self) -> int {
        (self.min_participant_icp_e8s as int * self.sns_token_e8s as int) / (
        self.max_icp_e8s as int)
    }

    /// Whether the terms can be checked against a set-up: once the two
    /// rules that are checked first are met, the set-up has to name both
    /// amounts, their sum has to fit into sixty-four bits, and the terms
    /// have to name a basket and a largest amount above zero.
    pub open spec fn checkable(&self, init: &Init) -> bool {
        (self.min_icp_e8s != 0 && self.min_participants != 0) ==> {
            &&& init.transaction_fee_e8s is Some
            &&& init.neuron_minimum_stake_e8s is Some
            &&& self.neuron_basket_construction_parameters is Some
            &&& self.max_icp_e8s != 0
            &&& init.neuron_minimum_stake_e8s->0 + init.transaction_fee_e8s->0 <= u64::MAX
        }
    }

    /// The longest dissolve delay that the basket can give a neuron: one
    /// interval more than the count, since a random share of an interval
    /// is added; capped at the largest sixty-four-bit number.
    pub open spec fn maximum_dissolve_delay(basket: NeuronBasketConstructionParameters) -> u64 {
        saturating_product(saturating_sum(basket.count, 1), basket.dissolve_delay_interval_seconds)
    }

    /// The first rule that the terms break, if they break one.
    pub open spec fn defect(&self, init: &Init) -> Option<ParamsDefect> {
        let basket = self.neuron_basket_construction_parameters->0;
        if self.min_icp_e8s == 0 {
            Some(ParamsDefect::MinIcpZero)
        } else if self.min_participants == 0 {
            Some(ParamsDefect::MinParticipantsZero)
        } else if self.min_participant_sns_e8s() < basket.count * (
        init.neuron_minimum_stake_e8s->0 + init.transaction_fee_e8s->0) {
            Some(ParamsDefect::MinParticipantIcpTooSmall)
        } else if self.sns_token_e8s == 0 {
            Some(ParamsDefect::SnsTokenZero)
        } else if self.max_participant_icp_e8s < self.min_participant_icp_e8s {
            Some(ParamsDefect::ParticipantRangeEmpty)
        } else if self.min_icp_e8s > self.max_icp_e8s {
            Some(ParamsDefect::IcpRangeEmpty)
        } else if self.max_participant_icp_e8s > self.max_icp_e8s {
            Some(ParamsDefect::MaxParticipantAboveMaxIcp)
        } else if self.max_icp_e8s > MAX_ICP_E8S_CAP {
            Some(ParamsDefect::MaxIcpAboveCap)
        } else if self.min_participants > MIN_PARTICIPANTS_CAP {
            Some(ParamsDefect::MinParticipantsAboveCap)
        } else if self.max_icp_e8s < saturating_product(
            self.min_participants as u64,
            self.min_participant_icp_e8s,
        ) {
            Some(ParamsDefect::MaxIcpBelowMinimumTotal)
        } else if basket.count == 0 {
            Some(ParamsDefect::BasketCountZero)
        } else if basket.dissolve_delay_interval_seconds == 0 {
            Some(ParamsDefect::BasketIntervalZero)
        } else if Self::maximum_dissolve_delay(basket) == u64::MAX {
            Some(ParamsDefect::BasketDelayOverflow)
        } else {
            None
        }
    }

    /// The message for a rule that the terms break.
    pub open spec fn defect_text(&self, init: &Init, defect: ParamsDefect) -> Seq<char> {
        let basket = self.neuron_basket_construction_parameters->0;
        match defect {
            ParamsDefect::MinIcpZero => "min_icp_e8s must be > 0"@,
            ParamsDefect::MinParticipantsZero => "min_participants must be > 0"@,
            ParamsDefect::MinParticipantIcpTooSmall => "min_participant_icp_e8s="@ + decimal(
                self.min_participant_icp_e8s as nat,
            )
                + " is too small. It needs to be large enough to ensure that participants will end up with enough SNS tokens to form "@
                + decimal(basket.count as nat) + " SNS neurons, each of which require at least "@
                + decimal(init.neuron_minimum_stake_e8s->0 as nat) + " SNS e8s, plus "@ + decimal(
                init.transaction_fee_e8s->0 as nat,
            )
                + " e8s in transaction fees. More precisely, the following inequality must hold: min_participant_icp_e8s >= neuron_basket_count * (neuron_minimum_stake_e8s + transaction_fee_e8s) * max_icp_e8s / sns_token_e8s (where / denotes floor division)."@,
            ParamsDefect::SnsTokenZero => "sns_token_e8s must be > 0"@,
            ParamsDefect::ParticipantRangeEmpty => "max_participant_icp_e8s ("@ + decimal(
                self.max_participant_icp_e8s as nat,
            ) + ") must be >= min_participant_icp_e8s ("@ + decimal(
                self.min_participant_icp_e8s as nat,
            ) + ")"@,
            ParamsDefect::IcpRangeEmpty => "min_icp_e8s ("@ + decimal(self.min_icp_e8s as nat)
                + ") must be <= max_icp_e8s ("@ + decimal(self.max_icp_e8s as nat) + ")"@,
            ParamsDefect::MaxParticipantAboveMaxIcp => "max_participant_icp_e8s ("@ + decimal(
                self.max_participant_icp_e8s as nat,
            ) + ") must be <= max_icp_e8s ("@ + decimal(self.max_icp_e8s as nat) + ")"@,
            ParamsDefect::MaxIcpAboveCap => "max_icp_e8s ("@ + decimal(self.max_icp_e8s as nat)
                + ") can be at most 1B ICP"@,
            ParamsDefect::MinParticipantsAboveCap => "min_participants ("@ + decimal(
                self.min_participants as nat,
            ) + ") can be at most 100"@,
            ParamsDefect::MaxIcpBelowMinimumTotal => "max_icp_e8s ("@ + decimal(
                self.max_icp_e8s as nat,
            ) + ") must be >= min_participants ("@ + decimal(self.min_participants as nat)
                + ") * min_participant_icp_e8s ("@ + decimal(self.min_participant_icp_e8s as nat)
                + ")"@,
            ParamsDefect::BasketCountZero => "neuron_basket_construction_parameters.count ("@
                + decimal(basket.count as nat) + ") must be > 0"@,
            ParamsDefect::BasketIntervalZero => "neuron_basket_construction_parameters.dissolve_delay_interval_seconds ("@
                + decimal(basket.dissolve_delay_interval_seconds as nat) + ") must be > 0"@,
            ParamsDefect::BasketDelayOverflow => "Chosen neuron_basket_construction_parameters will result in u64 overflow"@,
        }
    }

    /// Whether the swap is due no sooner than one day and no later than
    /// ninety days after `now_seconds`.
    pub open spec fn valid_at(&self, now_seconds: u64) -> bool {
        saturating_sum(now_seconds, SECONDS_PER_DAY) <= self.swap_due_timestamp_seconds
            && self.swap_due_timestamp_seconds <= saturating_sum(
            now_seconds,
            (90 * SECONDS_PER_DAY) as u64,
        )
    }

    /// Finds the first rule that the terms break.
    pub fn find_defect(&self, init: &Init) -> (defect: Option<ParamsDefect>)
        requires
            self.checkable(init),
        ensures
            defect == self.defect(init),
    {
        if self.min_icp_e8s == 0 {
            return Some(ParamsDefect::MinIcpZero);
        }
        if self.min_participants == 0 {
            return Some(ParamsDefect::MinParticipantsZero);
        }
        let transaction_fee_e8s = init.transaction_fee_e8s.unwrap();
        let neuron_minimum_stake_e8s = init.neuron_minimum_stake_e8s.unwrap();
        let basket = self.neuron_basket_construction_parameters.unwrap();
        let neuron_basket_count: u128 = basket.count as u128;
        assert(self.min_participant_icp_e8s as int * self.sns_token_e8s as int <= u64::MAX
            * u64::MAX) by (nonlinear_arith)
            requires
                0 <= self.min_participant_icp_e8s <= u64::MAX,
                0 <= self.sns_token_e8s <= u64::MAX,
        ;
        let min_participant_sns_e8s: u128 = self.min_participant_icp_e8s as u128
            * self.sns_token_e8s as u128 / self.max_icp_e8s as u128;
        let per_neuron: u128 = (neuron_minimum_stake_e8s + transaction_fee_e8s) as u128;
        assert(neuron_basket_count * per_neuron <= u64::MAX * u64::MAX) by (nonlinear_arith)
            requires
                0 <= neuron_basket_count <= u64::MAX,
                0 <= per_neuron <= u64::MAX,
        ;
        if min_participant_sns_e8s < neuron_basket_count * per_neuron {
            return Some(ParamsDefect::MinParticipantIcpTooSmall);
        }
        if self.sns_token_e8s == 0 {
            return Some(ParamsDefect::SnsTokenZero);
        }
        if self.max_participant_icp_e8s < self.min_participant_icp_e8s {
            return Some(ParamsDefect::ParticipantRangeEmpty);
        }
        if self.min_icp_e8s > self.max_icp_e8s {
            return Some(ParamsDefect::IcpRangeEmpty);
        }
        if self.max_participant_icp_e8s > self.max_icp_e8s {
            return Some(ParamsDefect::MaxParticipantAboveMaxIcp);
        }
        if self.max_icp_e8s > MAX_ICP_E8S_CAP {
            return Some(ParamsDefect::MaxIcpAboveCap);
        }
        if self.min_participants > MIN_PARTICIPANTS_CAP {
            return Some(ParamsDefect::MinParticipantsAboveCap);
        }
        assert(self.max_icp_e8s * (self.min_participants as u64) <= u64::MAX) by (nonlinear_arith)
            requires
                self.max_icp_e8s <= 100_000_000_000_000_000,
                self.min_participants <= 100,
        ;
        if self.max_icp_e8s < saturating_mul(
            self.min_participants as u64,
            self.min_participant_icp_e8s,
        ) {
            return Some(ParamsDefect::MaxIcpBelowMinimumTotal);
        }
        if basket.count == 0 {
            return Some(ParamsDefect::BasketCountZero);
        }
        if basket.dissolve_delay_interval_seconds == 0 {
            return Some(ParamsDefect::BasketIntervalZero);
        }
        let maximum_dissolve_delay = saturating_mul(
            saturating_add(basket.count, 1),
            basket.dissolve_delay_interval_seconds,
        );
        if maximum_dissolve_delay == u64::MAX {
            return Some(ParamsDefect::BasketDelayOverflow);
        }
        None
    }

    /// Puts a broken rule into words.
    pub fn describe(&self, init: &Init, defect: ParamsDefect) -> (message: String)
        requires
            defect is MinParticipantIcpTooSmall ==> init.transaction_fee_e8s is Some
                && init.neuron_minimum_stake_e8s is Some,
            (defect is MinParticipantIcpTooSmall || defect is BasketCountZero
                || defect is BasketIntervalZero)
                ==> self.neuron_basket_construction_parameters is Some,
        ensures
            message@ == self.defect_text(init, defect),
    {
        match defect {
            ParamsDefect::MinIcpZero => "min_icp_e8s must be > 0".to_owned(),
            ParamsDefect::MinParticipantsZero => "min_participants must be > 0".to_owned(),
            ParamsDefect::MinParticipantIcpTooSmall => {
                let basket = self.neuron_basket_construction_parameters.unwrap();
                let mut m = "min_participant_icp_e8s=".to_owned();
                push_decimal(&mut m, self.min_participant_icp_e8s);
                m.append(
                    " is too small. It needs to be large enough to ensure that participants will end up with enough SNS tokens to form ",
                );
                push_decimal(&mut m, basket.count);
                m.append(" SNS neurons, each of which require at least ");
                push_decimal(&mut m, init.neuron_minimum_stake_e8s.unwrap());
                m.append(" SNS e8s, plus ");
                push_decimal(&mut m, init.transaction_fee_e8s.unwrap());
                m.append(
                    " e8s in transaction fees. More precisely, the following inequality must hold: min_participant_icp_e8s >= neuron_basket_count * (neuron_minimum_stake_e8s + transaction_fee_e8s) * max_icp_e8s / sns_token_e8s (where / denotes floor division).",
                );
                m
            },
            ParamsDefect::SnsTokenZero => "sns_token_e8s must be > 0".to_owned(),
            ParamsDefect::ParticipantRangeEmpty => {
                let mut m = "max_participant_icp_e8s (".to_owned();
                push_decimal(&mut m, self.max_participant_icp_e8s);
                m.append(") must be >= min_participant_icp_e8s (");
                push_decimal(&mut m, self.min_participant_icp_e8s);
                m.append(")");
                m
            },
            ParamsDefect::IcpRangeEmpty => {
                let mut m = "min_icp_e8s (".to_owned();
                push_decimal(&mut m, self.min_icp_e8s);
                m.append(") must be <= max_icp_e8s (");
                push_decimal(&mut m, self.max_icp_e8s);
                m.append(")");
                m
            },
            ParamsDefect::MaxParticipantAboveMaxIcp => {
                let mut m = "max_participant_icp_e8s (".to_owned();
                push_decimal(&mut m, self.max_participant_icp_e8s);
                m.append(") must be <= max_icp_e8s (");
                push_decimal(&mut m, self.max_icp_e8s);
                m.append(")");
                m
            },
            ParamsDefect::MaxIcpAboveCap => {
                let mut m = "max_icp_e8s (".to_owned();
                push_decimal(&mut m, self.max_icp_e8s);
                m.append(") can be at most 1B ICP");
                m
            },
            ParamsDefect::MinParticipantsAboveCap => {
                let mut m = "min_participants (".to_owned();
                push_decimal(&mut m, self.min_participants as u64);
                m.append(") can be at most 100");
                m
            },
            ParamsDefect::MaxIcpBelowMinimumTotal => {
                let mut m = "max_icp_e8s (".to_owned();
                push_decimal(&mut m, self.max_icp_e8s);
                m.append(") must be >= min_participants (");
                push_decimal(&mut m, self.min_participants as u64);
                m.append(") * min_participant_icp_e8s (");
                push_decimal(&mut m, self.min_participant_icp_e8s);
                m.append(")");
                m
            },
            ParamsDefect::BasketCountZero => {
                let basket = self.neuron_basket_construction_parameters.unwrap();
                let mut m = "neuron_basket_construction_parameters.count (".to_owned();
                push_decimal(&mut m, basket.count);
                m.append(") must be > 0");
                m
            },
            ParamsDefect::BasketIntervalZero => {
                let basket = self.neuron_basket_construction_parameters.unwrap();
                let mut m =
                    "neuron_basket_construction_parameters.dissolve_delay_interval_seconds (".to_owned();
                push_decimal(&mut m, basket.dissolve_delay_interval_seconds);
                m.append(") must be > 0");
                m
            },
            ParamsDefect::BasketDelayOverflow => "Chosen neuron_basket_construction_parameters will result in u64 overflow".to_owned(),
        }
    }

    /// Checks the terms against the set-up of the swap.
    pub fn validate(&self, init: &Init) -> (result: Result<(), String>)
        requires
            self.checkable(init),
        ensures
            match self.defect(init) {
                None => result is Ok,
                Some(defect) => result is Err && result->Err_0@ == self.defect_text(init, defect),
            },
    {
        match self.find_defect(init) {
            None => Ok(()),
            Some(defect) => Err(self.describe(init, defect)),
        }
    }

    /// Tells whether the swap is due no sooner than one day and no later
    /// than ninety days after `now_seconds`.
    pub fn is_valid_at(&self, now_seconds: u64) -> (valid: bool)
        ensures
            valid == self.valid_at(now_seconds),
    {
        saturating_add(now_seconds, SECONDS_PER_DAY) <= self.swap_due_timestamp_seconds
            && self.swap_due_timestamp_seconds <= saturating_add(
            now_seconds,
            90 * SECONDS_PER_DAY,
        )
    }
}

} // verus!
