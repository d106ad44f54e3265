use ethabi::{Function, Param, ParamType, StateMutability, Token};
use pusd_manager_cw::abi::{
    address_from_text, encode_input, encode_withdraw, function_of, AbiArg, RemoteFunction,
};
use pusd_manager_cw::bridge::Bridge;
use pusd_manager_cw::error::ContractError;
use pusd_manager_cw::msg::{Effect, InstantiateMsg, PalomaMsg};
use pusd_manager_cw::state::{ChainSetting, Coin};

const ALL: [RemoteFunction; 5] = [
    RemoteFunction::Withdraw,
    RemoteFunction::SetPaloma,
    RemoteFunction::UpdateCompass,
    RemoteFunction::UpdateRefundWallet,
    RemoteFunction::UpdateRedemptionFee,
];

fn reference_function(name: &str, inputs: Vec<ParamType>) -> Function {
    #[allow(deprecated)]
    Function {
        name: name.to_string(),
        inputs: inputs
            .into_iter()
            .map(|kind| Param { name: String::new(), kind, internal_type: None })
            .collect(),
        outputs: Vec::new(),
        constant: None,
        state_mutability: StateMutability::NonPayable,
    }
}

fn sample_args(f: RemoteFunction) -> Vec<AbiArg> {
    match f {
        RemoteFunction::Withdraw => vec![
            AbiArg::FixedBytes(vec![9; 20]),
            AbiArg::Address([0x11; 20]),
            AbiArg::Uint(150),
            AbiArg::Uint(1),
        ],
        RemoteFunction::SetPaloma => vec![],
        RemoteFunction::UpdateCompass | RemoteFunction::UpdateRefundWallet => {
            vec![AbiArg::Address([0x22; 20])]
        }
        RemoteFunction::UpdateRedemptionFee => vec![AbiArg::Uint(7)],
    }
}

#[test]
fn withdraw_payload_matches_the_remote_interface() {
    let sender = vec![0xaau8; 20];
    let recipient = [0x11u8; 20];
    let ours = encode_withdraw(&sender, recipient, 150, 1).unwrap();
    let f = reference_function(
        "withdraw",
        vec![ParamType::FixedBytes(32), ParamType::Address, ParamType::Uint(256), ParamType::Uint(256)],
    );
    let theirs = f
        .encode_input(&[
            Token::FixedBytes(sender.clone()),
            Token::Address(recipient.into()),
            Token::Uint(150u128.into()),
            Token::Uint(1u64.into()),
        ])
        .unwrap();
    assert_eq!(ours, theirs);
    assert_eq!(&ours[..4], &f.short_signature()[..]);
    assert_eq!(&ours[4..24], &sender[..]);
    assert!(ours[24..36].iter().all(|b| *b == 0));
    assert!(ours[36..48].iter().all(|b| *b == 0));
    assert_eq!(&ours[48..68], &recipient[..]);
    assert_eq!(ours[99], 150);
    assert_eq!(ours[131], 1);
    assert_eq!(ours.len(), 132);
}

#[test]
fn uint_words_are_big_endian() {
    let n: u128 = 0x0102_0304_0506_0708_090a_0b0c_0d0e_0f10;
    let ours = encode_input(RemoteFunction::UpdateRedemptionFee, &vec![AbiArg::Uint(n)]).unwrap();
    assert_eq!(ours.len(), 36);
    assert!(ours[4..20].iter().all(|b| *b == 0));
    assert_eq!(&ours[20..36], &n.to_be_bytes()[..]);
    let f = reference_function("update_redemption_fee", vec![ParamType::Uint(256)]);
    assert_eq!(ours, f.encode_input(&[Token::Uint(n.into())]).unwrap());
}

#[test]
fn address_calls_match_the_remote_interface() {
    let a = [0x5au8; 20];
    for (rf, name) in [
        (RemoteFunction::UpdateCompass, "update_compass"),
        (RemoteFunction::UpdateRefundWallet, "update_refund_wallet"),
    ] {
        let ours = encode_input(rf, &vec![AbiArg::Address(a)]).unwrap();
        let f = reference_function(name, vec![ParamType::Address]);
        assert_eq!(ours, f.encode_input(&[Token::Address(a.into())]).unwrap());
    }
    let ours = encode_input(RemoteFunction::SetPaloma, &vec![]).unwrap();
    assert_eq!(ours, reference_function("set_paloma", vec![]).encode_input(&[]).unwrap());
}

#[test]
fn short_fixed_bytes_are_padded_on_the_right() {
    let ours = encode_input(
        RemoteFunction::Withdraw,
        &vec![AbiArg::FixedBytes(vec![1, 2, 3]), AbiArg::Address([0; 20]), AbiArg::Uint(0), AbiArg::Uint(0)],
    )
    .unwrap();
    assert_eq!(&ours[4..7], &[1, 2, 3]);
    assert!(ours[7..36].iter().all(|b| *b == 0));
}

#[test]
fn arguments_must_fit_the_parameters() {
    let bad = [
        (RemoteFunction::SetPaloma, vec![AbiArg::Uint(1)]),
        (RemoteFunction::UpdateCompass, vec![AbiArg::Uint(1)]),
        (RemoteFunction::UpdateRedemptionFee, vec![]),
        (
            RemoteFunction::Withdraw,
            vec![AbiArg::FixedBytes(vec![0; 33]), AbiArg::Address([0; 20]), AbiArg::Uint(0), AbiArg::Uint(0)],
        ),
        (
            RemoteFunction::Withdraw,
            vec![AbiArg::Address([0; 20]), AbiArg::Address([0; 20]), AbiArg::Uint(0), AbiArg::Uint(0)],
        ),
    ];
    for (f, args) in bad {
        assert_eq!(encode_input(f, &args), Err(ContractError::EncodingMismatch));
    }
}

#[test]
fn encoding_is_deterministic() {
    for f in ALL {
        let a = encode_input(f, &sample_args(f)).unwrap();
        let b = encode_input(f, &sample_args(f)).unwrap();
        assert_eq!(a, b);
    }
}

#[test]
fn selector_recovers_the_function() {
    for f in ALL {
        let payload = encode_input(f, &sample_args(f)).unwrap();
        assert_eq!(function_of(&payload), Some(f));
    }
    let mut selectors: Vec<Vec<u8>> =
        ALL.iter().map(|f| encode_input(*f, &sample_args(*f)).unwrap()[..4].to_vec()).collect();
    selectors.sort();
    selectors.dedup();
    assert_eq!(selectors.len(), 5);
    assert_eq!(function_of(&vec![0, 0, 0]), None);
    assert_eq!(function_of(&vec![0, 0, 0, 0, 1]), None);
}

#[test]
fn address_text_is_forty_hex_digits() {
    let expected: [u8; 20] = [
        0x00, 0x11, 0x22, 0x33, 0x44, 0x55, 0x66, 0x77, 0x88, 0x99, 0xaa, 0xbb, 0xcc, 0xdd, 0xee,
        0xff, 0x01, 0x23, 0x45, 0x67,
    ];
    let text = "00112233445566778899aabbccddeeff01234567";
    assert_eq!(address_from_text(&format!("0x{}", text)), Ok(expected));
    assert_eq!(address_from_text(&text.to_string()), Ok(expected));
    assert_eq!(address_from_text(&text.to_uppercase()), Ok(expected));
    assert_eq!(address_from_text(&format!(" 0011 {}\n", &text[4..])), Ok(expected));
    let bad = [
        "0xabc".to_string(),
        format!("0x{}0", text),
        format!("0X{}", text),
        format!("0x{}g", &text[1..]),
        String::new(),
    ];
    for t in bad {
        assert_eq!(address_from_text(&t), Err(ContractError::InvalidAddress), "{}", t);
    }
}

#[test]
fn withdraw_dispatches_the_encoded_call() {
    let mut b = Bridge::instantiate(
        &"owner".to_string(),
        &vec![Coin { denom: "upusd".to_string(), amount: 1 }],
        InstantiateMsg { retry_delay: 1, minter: "m".to_string(), denom: "upusd".to_string() },
    )
    .unwrap();
    b.register_chain(
        &"owner".to_string(),
        "eth".to_string(),
        ChainSetting { job_id: "job-1".to_string(), minimum_amount: 0 },
    )
    .unwrap();
    let recipient = "0x1111111111111111111111111111111111111111".to_string();
    let sender = vec![0xaau8; 20];
    let out = b
        .withdraw(
            &"alice".to_string(),
            &sender,
            &vec![Coin { denom: "upusd".to_string(), amount: 150 }],
            0,
            &"eth".to_string(),
            &recipient,
        )
        .unwrap();
    let expected = encode_withdraw(&sender, [0x11; 20], 150, 1).unwrap();
    match &out[..] {
        [Effect::Custom(PalomaMsg::SchedulerMsg { execute_job })] => {
            assert_eq!(execute_job.job_id, "job-1");
            assert_eq!(execute_job.payload, expected);
        }
        other => panic!("unexpected effects: {:?}", other),
    }
}
