use ic_backup::principal::{
    accepts_principal, canister_of, canister_verdict, is_valid_principal, parse_canister_id,
    parse_principal, principal_verdict, validate_canister_id, validate_principal, CanisterId,
    PrincipalId,
};
use ic_backup::swap_params::{
    Init, InitChecks, NeuronBasketConstructionParameters, Params, ParamsDefect,
};
use ic_backup::swap_types::{
    BuyerState, CfInvestment, CfNeuron, CfParticipant, DirectInvestment, Investor, Lifecycle,
    OpenRequest, SnsNeuronRecipe, TransferOrder, TransferResult, TransferableAmount,
};
use ic_principal::Principal;

const E8: u64 = 100_000_000;
const SECONDS_PER_DAY: u64 = 24 * 60 * 60;
const START_OF_2022_TIMESTAMP_SECONDS: u64 = 1641016800;
const OPEN_SNS_TOKEN_SWAP_PROPOSAL_ID: u64 = 489102;

fn params() -> Params {
    Params {
        max_icp_e8s: 1_000 * E8,
        max_participant_icp_e8s: 1_000 * E8,
        min_icp_e8s: 10 * E8,
        min_participant_icp_e8s: 5 * E8,
        sns_token_e8s: 5_000 * E8,
        min_participants: 10,
        swap_due_timestamp_seconds: START_OF_2022_TIMESTAMP_SECONDS + 14 * SECONDS_PER_DAY,
        neuron_basket_construction_parameters: Some(NeuronBasketConstructionParameters {
            count: 3,
            dissolve_delay_interval_seconds: 7890000, // 3 months
        }),
    }
}

fn user_test_id(n: u64) -> String {
    let mut bytes = n.to_le_bytes().to_vec();
    bytes.push(0xfe);
    bytes.push(0x01);
    Principal::from_slice(&bytes).to_text()
}

fn open_request() -> OpenRequest {
    OpenRequest {
        params: Some(params()),
        cf_participants: vec![CfParticipant {
            hotkey_principal: user_test_id(423939),
            cf_neurons: vec![CfNeuron {
                nns_neuron_id: 42,
                amount_icp_e8s: 99,
            }],
        }],
        open_sns_token_swap_proposal_id: Some(OPEN_SNS_TOKEN_SWAP_PROPOSAL_ID),
    }
}

// Fill out Init just enough to test Params validation. These values are
// similar to, but not the same analogous values in NNS.
fn init() -> Init {
    Init {
        transaction_fee_e8s: Some(12_345),
        neuron_minimum_stake_e8s: Some(123_456_789),
        ..Default::default()
    }
}

#[test]
fn accept_iff_can_form_sns_neuron_in_the_worst_case() {
    let mut init = init();
    let params = params();

    let sns_token_e8s = params.min_participant_icp_e8s as u128 * params.sns_token_e8s as u128
        / params.max_icp_e8s as u128;
    let neuron_basket_count = params
        .neuron_basket_construction_parameters
        .as_ref()
        .expect("participant_neuron_basket not populated.")
        .count as u128;
    let available_sns_token_e8s_per_neuron =
        sns_token_e8s / neuron_basket_count as u128 - init.transaction_fee_e8s.unwrap() as u128;
    assert!(available_sns_token_e8s_per_neuron < u64::MAX as u128);
    let available_sns_token_e8s_per_neuron = available_sns_token_e8s_per_neuron as u64;
    assert!(init.neuron_minimum_stake_e8s.unwrap() <= available_sns_token_e8s_per_neuron);

    // Set the bar as high as min_participant_icp_e8s can "jump".
    init.neuron_minimum_stake_e8s = Some(available_sns_token_e8s_per_neuron);
    assert!(params.validate(&init).is_ok());

    // The bar can still be cleared if lowered.
    init.neuron_minimum_stake_e8s = Some(available_sns_token_e8s_per_neuron - 1);
    assert!(params.validate(&init).is_ok());

    // Raise the bar so that it can no longer be cleared.
    init.neuron_minimum_stake_e8s = Some(available_sns_token_e8s_per_neuron + 1);
    assert!(params.validate(&init).is_err());
}

#[test]
fn open_request_validate_ok() {
    assert!(open_request()
        .validate(START_OF_2022_TIMESTAMP_SECONDS, &init())
        .is_ok());
}

#[test]
fn open_request_validate_invalid_params() {
    let request = OpenRequest {
        params: Some(Params {
            swap_due_timestamp_seconds: 42,
            ..params()
        }),
        ..open_request()
    };

    assert!(request
        .validate(START_OF_2022_TIMESTAMP_SECONDS, &init())
        .is_err());
}

#[test]
fn open_request_validate_no_proposal_id() {
    let request = OpenRequest {
        open_sns_token_swap_proposal_id: None,
        ..open_request()
    };

    assert!(request
        .validate(START_OF_2022_TIMESTAMP_SECONDS, &init())
        .is_err());
}

#[test]
fn participant_total_icp_e8s_no_overflow() {
    let participant = CfParticipant {
        hotkey_principal: "".to_string(),
        cf_neurons: vec![
            CfNeuron {
                nns_neuron_id: 0,
                amount_icp_e8s: u64::MAX,
            },
            CfNeuron {
                nns_neuron_id: 0,
                amount_icp_e8s: u64::MAX,
            },
        ],
    };
    let total = participant.participant_total_icp_e8s();
    assert_eq!(total, u64::MAX);
}

#[test]
fn participant_total_is_the_sum_below_the_limit() {
    let participant = CfParticipant {
        hotkey_principal: user_test_id(7),
        cf_neurons: vec![
            CfNeuron {
                nns_neuron_id: 1,
                amount_icp_e8s: 5 * E8,
            },
            CfNeuron {
                nns_neuron_id: 2,
                amount_icp_e8s: 7 * E8,
            },
            CfNeuron {
                nns_neuron_id: 3,
                amount_icp_e8s: 1,
            },
        ],
    };
    assert_eq!(participant.participant_total_icp_e8s(), 12 * E8 + 1);
    let nobody = CfParticipant {
        hotkey_principal: user_test_id(7),
        cf_neurons: vec![],
    };
    assert_eq!(nobody.participant_total_icp_e8s(), 0);
}

#[test]
fn principal_texts_are_judged_by_the_outside_parser() {
    // The management canister and a well-formed user id are principals.
    assert!(validate_principal("aaaaa-aa").is_ok());
    assert!(validate_canister_id("aaaaa-aa").is_ok());
    assert!(is_valid_principal(&user_test_id(423939)));
    assert!(validate_principal("2chl6-4hpzw-vqaaa-aaaaa-c").is_ok());
    // A text that is no principal is reported with the parser's own words.
    assert!(!is_valid_principal(""));
    assert!(!is_valid_principal("not a principal"));
    let expected = Principal::from_text("2chl6-4hpzw-vqaaa-aaaaa-d")
        .unwrap_err()
        .to_string();
    assert_eq!(
        validate_principal("2chl6-4hpzw-vqaaa-aaaaa-d"),
        Err(format!(
            "Couldn't validate PrincipalId. String \"2chl6-4hpzw-vqaaa-aaaaa-d\" could not be converted to PrincipalId: {}",
            expected
        ))
    );
    let short = Principal::from_text("").unwrap_err().to_string();
    assert_eq!(
        validate_canister_id(""),
        Err(format!(
            "Couldn't validate CanisterId. String \"\" could not be converted to PrincipalId: {}",
            short
        ))
    );
}

fn full_init() -> Init {
    Init {
        nns_governance_canister_id: user_test_id(1),
        sns_governance_canister_id: user_test_id(2),
        sns_ledger_canister_id: user_test_id(3),
        icp_ledger_canister_id: user_test_id(4),
        sns_root_canister_id: user_test_id(5),
        fallback_controller_principal_ids: vec![user_test_id(6)],
        transaction_fee_e8s: Some(10_000),
        neuron_minimum_stake_e8s: Some(E8),
    }
}

#[test]
fn init_validate_reports_the_first_defect() {
    assert_eq!(full_init().validate(), Ok(()));

    let no_controllers = Init {
        fallback_controller_principal_ids: vec![],
        ..full_init()
    };
    assert_eq!(
        no_controllers.validate(),
        Err("at least one fallback controller required".to_string())
    );

    let no_fee = Init {
        transaction_fee_e8s: None,
        neuron_minimum_stake_e8s: None,
        ..full_init()
    };
    assert_eq!(
        no_fee.validate(),
        Err("transaction_fee_e8s is required.".to_string())
    );

    let no_stake = Init {
        neuron_minimum_stake_e8s: None,
        ..full_init()
    };
    assert_eq!(
        no_stake.validate(),
        Err("neuron_minimum_stake_e8s is required.".to_string())
    );

    let bad_ledger = Init {
        sns_ledger_canister_id: "ledger".to_string(),
        fallback_controller_principal_ids: vec![],
        ..full_init()
    };
    let message = bad_ledger.validate().unwrap_err();
    assert!(message.starts_with(
        "Couldn't validate CanisterId. String \"ledger\" could not be converted to PrincipalId: "
    ));

    let bad_controller = Init {
        fallback_controller_principal_ids: vec![user_test_id(6), "x".to_string()],
        transaction_fee_e8s: None,
        ..full_init()
    };
    let message = bad_controller.validate().unwrap_err();
    assert!(message.starts_with(
        "Couldn't validate PrincipalId. String \"x\" could not be converted to PrincipalId: "
    ));
}

#[test]
fn init_names_its_canisters() {
    let init = full_init();
    let expected = Principal::from_text(user_test_id(1)).unwrap();
    assert_eq!(
        init.nns_governance().unwrap().principal.bytes,
        expected.as_slice().to_vec()
    );
    assert_eq!(
        init.nns_governance_or_panic().principal.bytes,
        expected.as_slice().to_vec()
    );
    assert_eq!(
        init.sns_governance().unwrap().principal.bytes,
        Principal::from_text(user_test_id(2)).unwrap().as_slice().to_vec()
    );
    let all = init.canisters().unwrap();
    let bytes_of = |n: u64| Principal::from_text(user_test_id(n)).unwrap().as_slice().to_vec();
    assert_eq!(all.nns_governance.principal.bytes, bytes_of(1));
    assert_eq!(all.sns_governance.principal.bytes, bytes_of(2));
    assert_eq!(all.sns_ledger.principal.bytes, bytes_of(3));
    assert_eq!(all.icp_ledger.principal.bytes, bytes_of(4));
    assert_eq!(all.sns_root.principal.bytes, bytes_of(5));
    assert_eq!(all.sns_root, init.sns_root_or_panic());
    assert_eq!(all.sns_governance, init.sns_governance_or_panic());
    assert_eq!(all.sns_ledger, init.sns_ledger_or_panic());
    assert_eq!(all.icp_ledger, init.icp_ledger_or_panic());

    let broken = Init {
        sns_root_canister_id: String::new(),
        ..full_init()
    };
    assert_eq!(broken.canisters(), None);
    assert!(Init::default().nns_governance().is_err());
}

#[test]
fn params_validate_names_each_broken_rule() {
    let init = init();
    let p = params();
    assert_eq!(p.find_defect(&init), None);

    let q = Params { min_icp_e8s: 0, ..p };
    assert_eq!(q.validate(&init), Err("min_icp_e8s must be > 0".to_string()));

    let q = Params {
        min_participants: 0,
        ..p
    };
    assert_eq!(
        q.validate(&init),
        Err("min_participants must be > 0".to_string())
    );

    let q = Params {
        min_participant_icp_e8s: 1,
        ..p
    };
    assert_eq!(
        q.find_defect(&init),
        Some(ParamsDefect::MinParticipantIcpTooSmall)
    );
    assert_eq!(
        q.validate(&init),
        Err("min_participant_icp_e8s=1 is too small. It needs to be large enough to ensure that participants will end up with enough SNS tokens to form 3 SNS neurons, each of which require at least 123456789 SNS e8s, plus 12345 e8s in transaction fees. More precisely, the following inequality must hold: min_participant_icp_e8s >= neuron_basket_count * (neuron_minimum_stake_e8s + transaction_fee_e8s) * max_icp_e8s / sns_token_e8s (where / denotes floor division).".to_string())
    );

    let q = Params {
        max_participant_icp_e8s: 4 * E8,
        ..p
    };
    assert_eq!(
        q.validate(&init),
        Err("max_participant_icp_e8s (400000000) must be >= min_participant_icp_e8s (500000000)".to_string())
    );

    let q = Params {
        min_icp_e8s: 1_001 * E8,
        ..p
    };
    assert_eq!(
        q.validate(&init),
        Err("min_icp_e8s (100100000000) must be <= max_icp_e8s (100000000000)".to_string())
    );

    let q = Params {
        max_participant_icp_e8s: 1_001 * E8,
        ..p
    };
    assert_eq!(
        q.validate(&init),
        Err("max_participant_icp_e8s (100100000000) must be <= max_icp_e8s (100000000000)".to_string())
    );

    let q = Params {
        max_icp_e8s: 1_000_000_001 * E8,
        sns_token_e8s: u64::MAX,
        ..p
    };
    assert_eq!(
        q.validate(&init),
        Err("max_icp_e8s (100000000100000000) can be at most 1B ICP".to_string())
    );

    let q = Params {
        min_participants: 101,
        ..p
    };
    assert_eq!(
        q.validate(&init),
        Err("min_participants (101) can be at most 100".to_string())
    );

    let q = Params {
        min_participants: 100,
        min_participant_icp_e8s: 11 * E8,
        ..p
    };
    assert_eq!(
        q.validate(&init),
        Err("max_icp_e8s (100000000000) must be >= min_participants (100) * min_participant_icp_e8s (1100000000)".to_string())
    );

    let q = Params {
        neuron_basket_construction_parameters: Some(NeuronBasketConstructionParameters {
            count: 0,
            dissolve_delay_interval_seconds: 7890000,
        }),
        ..p
    };
    assert_eq!(
        q.validate(&init),
        Err("neuron_basket_construction_parameters.count (0) must be > 0".to_string())
    );

    let q = Params {
        neuron_basket_construction_parameters: Some(NeuronBasketConstructionParameters {
            count: 3,
            dissolve_delay_interval_seconds: 0,
        }),
        ..p
    };
    assert_eq!(
        q.validate(&init),
        Err("neuron_basket_construction_parameters.dissolve_delay_interval_seconds (0) must be > 0".to_string())
    );

    let q = Params {
        neuron_basket_construction_parameters: Some(NeuronBasketConstructionParameters {
            count: 3,
            dissolve_delay_interval_seconds: u64::MAX / 2,
        }),
        ..p
    };
    assert_eq!(
        q.validate(&init),
        Err("Chosen neuron_basket_construction_parameters will result in u64 overflow".to_string())
    );
}

#[test]
fn params_sns_tokens_must_not_be_zero() {
    let init = Init {
        transaction_fee_e8s: Some(0),
        neuron_minimum_stake_e8s: Some(0),
        ..Default::default()
    };
    let q = Params {
        sns_token_e8s: 0,
        ..params()
    };
    assert_eq!(q.validate(&init), Err("sns_token_e8s must be > 0".to_string()));
}

#[test]
fn params_validity_window() {
    let p = params();
    let due = p.swap_due_timestamp_seconds;
    assert!(p.is_valid_at(due - SECONDS_PER_DAY));
    assert!(!p.is_valid_at(due - SECONDS_PER_DAY + 1));
    assert!(p.is_valid_at(due - 90 * SECONDS_PER_DAY));
    assert!(!p.is_valid_at(due - 90 * SECONDS_PER_DAY - 1));
    let late = Params {
        swap_due_timestamp_seconds: u64::MAX,
        ..p
    };
    assert!(late.is_valid_at(u64::MAX));
    assert!(late.is_valid_at(u64::MAX - 90 * SECONDS_PER_DAY));
    assert!(!late.is_valid_at(u64::MAX - 90 * SECONDS_PER_DAY - 1));
}

#[test]
fn open_request_lists_every_defect() {
    let request = OpenRequest {
        params: None,
        open_sns_token_swap_proposal_id: None,
        ..open_request()
    };
    assert_eq!(
        request.validate(START_OF_2022_TIMESTAMP_SECONDS, &init()),
        Err("The parameters of the swap are missing.\nThe open_sns_token_swap_proposal_id field has no value.".to_string())
    );
    let request = OpenRequest {
        params: Some(Params {
            swap_due_timestamp_seconds: 42,
            ..params()
        }),
        ..open_request()
    };
    assert_eq!(
        request.validate(START_OF_2022_TIMESTAMP_SECONDS, &init()),
        Err("The parameters of the swap are invalid.".to_string())
    );
    let request = OpenRequest {
        params: Some(Params {
            min_participants: 0,
            ..params()
        }),
        open_sns_token_swap_proposal_id: None,
        ..open_request()
    };
    assert_eq!(
        request.validate(START_OF_2022_TIMESTAMP_SECONDS, &init()),
        Err("min_participants must be > 0\nThe open_sns_token_swap_proposal_id field has no value.".to_string())
    );
    let request = OpenRequest::default();
    assert_eq!(request.params, None);
    assert!(request.cf_participants.is_empty());
    assert_eq!(request.open_sns_token_swap_proposal_id, None);
}

#[test]
fn buyer_state_amounts() {
    let mut state = BuyerState::new(17);
    assert_eq!(
        state.icp,
        Some(TransferableAmount {
            amount_e8s: 17,
            transfer_start_timestamp_seconds: 0,
            transfer_success_timestamp_seconds: 0,
        })
    );
    assert_eq!(state.amount_icp_e8s(), 17);
    assert_eq!(state.validate(), Ok(()));
    state.icp = Some(TransferableAmount {
        amount_e8s: 17,
        transfer_start_timestamp_seconds: 5,
        transfer_success_timestamp_seconds: 9,
    });
    state.set_amount_icp_e8s(23);
    assert_eq!(
        state.icp,
        Some(TransferableAmount {
            amount_e8s: 23,
            transfer_start_timestamp_seconds: 5,
            transfer_success_timestamp_seconds: 9,
        })
    );
    let mut empty = BuyerState { icp: None };
    assert_eq!(empty.amount_icp_e8s(), 0);
    assert_eq!(
        empty.validate(),
        Err("Field 'icp' is missing but required".to_string())
    );
    empty.set_amount_icp_e8s(4);
    assert_eq!(empty, BuyerState::new(4));
}

#[test]
fn transferable_amount_time_stamps() {
    let ok = TransferableAmount {
        amount_e8s: 1,
        transfer_start_timestamp_seconds: 10,
        transfer_success_timestamp_seconds: 10,
    };
    assert_eq!(ok.validate(), Ok(()));
    let started = TransferableAmount {
        amount_e8s: 1,
        transfer_start_timestamp_seconds: 10,
        transfer_success_timestamp_seconds: 0,
    };
    assert_eq!(started.validate(), Ok(()));
    let no_start = TransferableAmount {
        amount_e8s: 1,
        transfer_start_timestamp_seconds: 0,
        transfer_success_timestamp_seconds: 7,
    };
    assert_eq!(
        no_start.validate(),
        Err("Invariant violation: transfer_start_timestamp_seconds is zero but transfer_success_timestamp_seconds (7) is non-zero".to_string())
    );
    let backwards = TransferableAmount {
        amount_e8s: 1,
        transfer_start_timestamp_seconds: 12,
        transfer_success_timestamp_seconds: 7,
    };
    assert_eq!(
        backwards.validate(),
        Err("Invariant violation: transfer_start_timestamp_seconds (12) > transfer_success_timestamp_seconds (7) > 0".to_string())
    );
    assert_eq!(
        BuyerState {
            icp: Some(backwards)
        }
        .validate(),
        backwards.validate()
    );
}

#[test]
fn transfer_in_two_halves() {
    let fresh = TransferableAmount {
        amount_e8s: 1_000,
        transfer_start_timestamp_seconds: 0,
        transfer_success_timestamp_seconds: 0,
    };

    assert!(matches!(
        fresh.transfer_obstacle(1_000),
        Some(TransferResult::AmountTooSmall)
    ));
    assert!(matches!(fresh.transfer_obstacle(999), None));
    assert!(matches!(
        TransferableAmount {
            transfer_start_timestamp_seconds: 1,
            ..fresh
        }
        .transfer_obstacle(999),
        Some(TransferResult::AlreadyStarted)
    ));

    let mut small = fresh;
    assert!(matches!(
        small.begin_transfer(50, 1_000),
        Err(TransferResult::AmountTooSmall)
    ));
    assert_eq!(small, fresh);

    let mut busy = TransferableAmount {
        transfer_start_timestamp_seconds: 3,
        ..fresh
    };
    assert!(matches!(
        busy.begin_transfer(50, 10),
        Err(TransferResult::AlreadyStarted)
    ));

    let mut amount = fresh;
    match amount.begin_transfer(50, 10) {
        Ok(order) => assert_eq!(
            order,
            TransferOrder {
                amount_e8s: 990,
                fee_e8s: 10
            }
        ),
        Err(_) => panic!("the transfer should start"),
    }
    assert_eq!(amount.transfer_start_timestamp_seconds, 50);
    assert_eq!(amount.transfer_success_timestamp_seconds, 0);

    let mut done = amount;
    assert!(matches!(
        done.finish_transfer(Ok(77), 60),
        TransferResult::Success(77)
    ));
    assert_eq!(done.transfer_start_timestamp_seconds, 50);
    assert_eq!(done.transfer_success_timestamp_seconds, 60);
    assert_eq!(done.validate(), Ok(()));

    let mut failed = amount;
    match failed.finish_transfer(Err("ledger away".to_string()), 60) {
        TransferResult::Failure(reason) => assert_eq!(reason, "ledger away"),
        _ => panic!("the transfer should have failed"),
    }
    assert_eq!(failed, fresh);
}

#[test]
fn cf_participant_and_neurons() {
    let neuron = CfNeuron {
        nns_neuron_id: 42,
        amount_icp_e8s: 99,
    };
    assert_eq!(neuron.validate(), Ok(()));
    assert_eq!(
        CfNeuron {
            nns_neuron_id: 0,
            amount_icp_e8s: 0
        }
        .validate(),
        Err("nns_neuron_id must be specified".to_string())
    );
    assert_eq!(
        CfNeuron {
            nns_neuron_id: 1,
            amount_icp_e8s: 0
        }
        .validate(),
        Err("amount_icp_e8s must be specified".to_string())
    );

    let hotkey = user_test_id(423939);
    let good = CfParticipant {
        hotkey_principal: hotkey.clone(),
        cf_neurons: vec![neuron],
    };
    assert_eq!(good.validate(), Ok(()));
    let nameless = CfParticipant {
        hotkey_principal: "".to_string(),
        cf_neurons: vec![neuron],
    };
    assert_eq!(
        nameless.validate(),
        Err("Invalid hotkey principal ".to_string())
    );
    let lonely = CfParticipant {
        hotkey_principal: hotkey.clone(),
        cf_neurons: vec![],
    };
    assert_eq!(
        lonely.validate(),
        Err(format!(
            "A CF participant ({}) must have at least one neuron",
            hotkey
        ))
    );
    let second_bad = CfParticipant {
        hotkey_principal: hotkey,
        cf_neurons: vec![
            neuron,
            CfNeuron {
                nns_neuron_id: 5,
                amount_icp_e8s: 0,
            },
            CfNeuron {
                nns_neuron_id: 0,
                amount_icp_e8s: 1,
            },
        ],
    };
    assert_eq!(
        second_bad.validate(),
        Err("amount_icp_e8s must be specified".to_string())
    );
}

#[test]
fn investments_and_recipes() {
    let buyer = user_test_id(8);
    let direct = DirectInvestment {
        buyer_principal: buyer.clone(),
    };
    assert_eq!(direct.validate(), Ok(()));
    assert_eq!(
        DirectInvestment {
            buyer_principal: "me".to_string()
        }
        .validate(),
        Err("Invalid principal me".to_string())
    );
    let fund = CfInvestment {
        hotkey_principal: buyer.clone(),
        nns_neuron_id: 3,
    };
    assert_eq!(fund.validate(), Ok(()));
    assert_eq!(
        CfInvestment {
            hotkey_principal: buyer.clone(),
            nns_neuron_id: 0
        }
        .validate(),
        Err("Missing nns_neuron_id".to_string())
    );
    assert_eq!(
        CfInvestment {
            hotkey_principal: "?".to_string(),
            nns_neuron_id: 0
        }
        .validate(),
        Err("Invalid hotkey principal ?".to_string())
    );

    let amount = TransferableAmount {
        amount_e8s: 64,
        transfer_start_timestamp_seconds: 0,
        transfer_success_timestamp_seconds: 0,
    };
    let recipe = SnsNeuronRecipe {
        sns: Some(amount),
        investor: Some(Investor::Direct(direct)),
    };
    assert_eq!(recipe.amount_e8s(), 64);
    assert_eq!(recipe.validate(), Ok(()));
    let recipe = SnsNeuronRecipe {
        sns: Some(amount),
        investor: Some(Investor::CommunityFund(CfInvestment {
            hotkey_principal: buyer,
            nns_neuron_id: 0,
        })),
    };
    assert_eq!(recipe.validate(), Err("Missing nns_neuron_id".to_string()));
    let recipe = SnsNeuronRecipe {
        sns: None,
        investor: None,
    };
    assert_eq!(recipe.amount_e8s(), 0);
    assert_eq!(
        recipe.validate(),
        Err("Missing required field 'sns'".to_string())
    );
    let recipe = SnsNeuronRecipe {
        sns: Some(amount),
        investor: None,
    };
    assert_eq!(
        recipe.validate(),
        Err("Missing required field 'investor'".to_string())
    );
    let recipe = SnsNeuronRecipe {
        sns: Some(TransferableAmount {
            amount_e8s: 64,
            transfer_start_timestamp_seconds: 0,
            transfer_success_timestamp_seconds: 2,
        }),
        investor: None,
    };
    assert_eq!(
        recipe.validate(),
        Err("Invariant violation: transfer_start_timestamp_seconds is zero but transfer_success_timestamp_seconds (2) is non-zero".to_string())
    );
}

#[test]
fn lifecycle_terminal_stages() {
    assert!(Lifecycle::Committed.is_terminal());
    assert!(Lifecycle::Aborted.is_terminal());
    assert!(!Lifecycle::Pending.is_terminal());
    assert!(!Lifecycle::Open.is_terminal());
    assert!(!Lifecycle::Unspecified.is_terminal());
}

#[test]
fn verdicts_on_what_the_parser_returned() {
    let principal = PrincipalId {
        bytes: vec![1, 2, 3],
    };
    assert_eq!(principal_verdict("any text", Ok(principal.clone())), Ok(()));
    assert_eq!(
        principal_verdict("any text", Err("no good".to_string())),
        Err("Couldn't validate PrincipalId. String \"any text\" could not be converted to PrincipalId: no good".to_string())
    );
    assert_eq!(
        canister_verdict("any text", Ok(principal.clone())),
        Ok(CanisterId {
            principal: principal.clone()
        })
    );
    assert_eq!(
        canister_verdict("any text", Err("no good".to_string())),
        Err("Couldn't validate CanisterId. String \"any text\" could not be converted to PrincipalId: no good".to_string())
    );
    assert_eq!(
        canister_of(principal.clone()),
        CanisterId {
            principal: principal.clone()
        }
    );
    assert!(accepts_principal("x", &Ok(principal.clone())));
    assert!(!accepts_principal("", &Ok(principal)));
    assert!(!accepts_principal("x", &Err("no good".to_string())));
    assert_eq!(parse_principal("aaaaa-aa"), Ok(PrincipalId { bytes: vec![] }));
    assert_eq!(
        parse_canister_id("2chl6-4hpzw-vqaaa-aaaaa-c"),
        Ok(CanisterId {
            principal: PrincipalId {
                bytes: vec![0xef, 0xcd, 0xab, 0, 0, 0, 0, 0, 1]
            }
        })
    );
    // Upper case is read like lower case.
    assert_eq!(parse_principal("AAAAA-AA"), Ok(PrincipalId { bytes: vec![] }));
    for bad in ["aaaaa-a", "aaaaaaa", "2chl6-4hpzw-vqaaa-aaaaa-d", "!", "aaaaa-aa-"] {
        assert_eq!(
            parse_principal(bad).unwrap_err(),
            Principal::from_text(bad).unwrap_err().to_string(),
            "{:?}",
            bad
        );
    }
}

#[test]
fn init_is_judged_by_the_outcomes_of_its_names() {
    let init = full_init();
    let good = || InitChecks {
        nns_governance: Ok(()),
        sns_governance: Ok(()),
        sns_ledger: Ok(()),
        icp_ledger: Ok(()),
        sns_root: Ok(()),
        fallback_controllers: vec![Ok(())],
    };
    assert_eq!(init.check_names(), good());
    assert_eq!(init.judge(&good()), Ok(()));
    // The canisters are judged in their order, before the controllers.
    let checks = InitChecks {
        sns_ledger: Err("ledger".to_string()),
        sns_root: Err("root".to_string()),
        fallback_controllers: vec![Err("controller".to_string())],
        ..good()
    };
    assert_eq!(init.judge(&checks), Err("ledger".to_string()));
    let checks = InitChecks {
        sns_governance: Err("governance".to_string()),
        nns_governance: Err("nns".to_string()),
        ..good()
    };
    assert_eq!(init.judge(&checks), Err("nns".to_string()));
    let checks = InitChecks {
        icp_ledger: Err("icp".to_string()),
        sns_root: Err("root".to_string()),
        ..good()
    };
    assert_eq!(init.judge(&checks), Err("icp".to_string()));
    let checks = InitChecks {
        sns_root: Err("root".to_string()),
        ..good()
    };
    assert_eq!(init.judge(&checks), Err("root".to_string()));
    // The first controller that failed is reported.
    let checks = InitChecks {
        fallback_controllers: vec![Ok(()), Err("second".to_string()), Err("third".to_string())],
        ..good()
    };
    assert_eq!(init.judge(&checks), Err("second".to_string()));
    let no_fee = Init {
        transaction_fee_e8s: None,
        ..full_init()
    };
    assert_eq!(
        no_fee.judge(&good()),
        Err("transaction_fee_e8s is required.".to_string())
    );
    assert_eq!(no_fee.judge(&checks), Err("second".to_string()));
    let broken = Init {
        sns_ledger_canister_id: "ledger".to_string(),
        fallback_controller_principal_ids: vec![user_test_id(6), "x".to_string()],
        ..full_init()
    };
    let checks = broken.check_names();
    assert_eq!(checks.nns_governance, Ok(()));
    assert_eq!(checks.sns_ledger, validate_canister_id("ledger"));
    assert_eq!(
        checks.fallback_controllers,
        vec![Ok(()), validate_principal("x")]
    );
    assert_eq!(broken.judge(&checks), broken.validate());
}

#[test]
fn records_are_judged_by_the_outcome_of_their_principal() {
    let direct = DirectInvestment {
        buyer_principal: "buyer".to_string(),
    };
    assert_eq!(direct.judge(true), Ok(()));
    assert_eq!(direct.judge(false), Err("Invalid principal buyer".to_string()));
    let fund = CfInvestment {
        hotkey_principal: "key".to_string(),
        nns_neuron_id: 0,
    };
    assert_eq!(fund.judge(false), Err("Invalid hotkey principal key".to_string()));
    assert_eq!(fund.judge(true), Err("Missing nns_neuron_id".to_string()));
    let participant = CfParticipant {
        hotkey_principal: "key".to_string(),
        cf_neurons: vec![],
    };
    assert_eq!(
        participant.judge(false),
        Err("Invalid hotkey principal key".to_string())
    );
    assert_eq!(
        participant.judge(true),
        Err("A CF participant (key) must have at least one neuron".to_string())
    );
    let recipe = SnsNeuronRecipe {
        sns: Some(TransferableAmount {
            amount_e8s: 1,
            transfer_start_timestamp_seconds: 0,
            transfer_success_timestamp_seconds: 0,
        }),
        investor: Some(Investor::Direct(direct)),
    };
    assert_eq!(recipe.judge(true), Ok(()));
    assert_eq!(recipe.judge(false), Err("Invalid principal buyer".to_string()));
}
