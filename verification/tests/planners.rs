use headless_cli::commands::{
    curl_echo, plan_address, plan_balance, plan_create_token, plan_decode,
    plan_fireblocks_start, plan_hsm_start, plan_melt_tokens, plan_mint_tokens,
    plan_multisig_pubkey, plan_p2sh_txproposal_build, plan_p2sh_txproposal_build_simple_send_tokens,
    plan_p2sh_txproposal_create_token, plan_p2sh_txproposal_get_my_signatures,
    plan_p2sh_txproposal_mint_tokens, plan_p2sh_txproposal_sign, plan_p2sh_txproposal_sign_and_push,
    plan_send, plan_simple_send, plan_start, plan_status, plan_stop, plan_tx_history,
    plan_utxo_consolidation, plan_utxo_filter, plan_create_nft, plan_configuration_string,
    plan_address_info, plan_address_index, plan_addresses, plan_transaction, plan_tx_confirmation,
};
use headless_cli::json::to_json;
use headless_cli::params::{
    CliConfig, ParamsConfigString, ParamsCustomCurl, ParamsFireblocksStart, ParamsHsmStart,
    ParamsMultisigPubkey, ParamsP2shTxProposalBuild, ParamsP2shTxProposalBuildSimpleSendTokens,
    ParamsP2shTxProposalGetMySignatures, ParamsP2shTxProposalSign, ParamsStart,
    ParamsWalletAddress, ParamsWalletAddressIndex, ParamsWalletAddressInfo, ParamsWalletAddresses,
    ParamsWalletBalance, ParamsWalletCreateNft, ParamsWalletCreateToken, ParamsWalletDecode,
    ParamsWalletMeltTokens, ParamsWalletMintTokens, ParamsWalletP2shTxProposalCreateToken,
    ParamsWalletP2shTxProposalMintTokens, ParamsWalletSend, ParamsWalletSimpleSend,
    ParamsWalletStop, ParamsWalletTransaction, ParamsWalletTxConfirmation, ParamsWalletTxHistory,
    ParamsWalletUtxoConsolidation, ParamsWalletUtxoFilter,
};
use headless_cli::request::{Body, HttpRequest, Method};

const HOST: &str = "http://localhost:8000";

fn config() -> CliConfig {
    CliConfig {
        host: String::from(HOST),
        debug: false,
    }
}

fn body_json(req: &HttpRequest) -> String {
    match &req.body {
        Body::Json(v) => to_json(v),
        Body::Raw(s) => s.clone(),
        Body::Empty => String::new(),
    }
}

#[test]
fn start_includes_only_supplied_fields() {
    let req = plan_start(&ParamsStart {
        config: config(),
        wallet_id: String::from("w1"),
        seed_key: String::from("default"),
        passphrase: None,
        scan_policy: None,
        gap_limit: None,
        policy_start_index: None,
        policy_end_index: None,
        history_sync_mode: None,
        multisig: false,
        multisig_key: None,
    })
    .unwrap();
    assert_eq!(req.method, Method::Post);
    assert_eq!(req.url, "http://localhost:8000/start");
    assert!(req.wallet_id.is_none());
    assert!(req.query.is_empty());
    assert_eq!(
        body_json(&req),
        "{\"seedKey\":\"default\",\"wallet-id\":\"w1\"}"
    );
}

#[test]
fn start_with_every_option_present() {
    let req = plan_start(&ParamsStart {
        config: config(),
        wallet_id: String::from("w1"),
        seed_key: String::from("k"),
        passphrase: Some(String::from("pp")),
        scan_policy: Some(String::from("index-limit")),
        gap_limit: Some(20),
        policy_start_index: Some(0),
        policy_end_index: Some(9),
        history_sync_mode: Some(String::from("manual_stream_ws")),
        multisig: true,
        multisig_key: Some(String::from("mk")),
    })
    .unwrap();
    assert_eq!(
        body_json(&req),
        "{\"seedKey\":\"k\",\"wallet-id\":\"w1\",\"passphrase\":\"pp\",\
         \"scanPolicy\":\"index-limit\",\"gapLimit\":20,\"policyStartIndex\":0,\
         \"policyEndIndex\":9,\"history_sync_mode\":\"manual_stream_ws\",\
         \"multisig\":true,\"multisigKey\":\"mk\"}"
    );
}

#[test]
fn multisig_key_is_dropped_without_multisig() {
    let req = plan_start(&ParamsStart {
        config: config(),
        wallet_id: String::from("w1"),
        seed_key: String::from("k"),
        passphrase: None,
        scan_policy: None,
        gap_limit: None,
        policy_start_index: None,
        policy_end_index: None,
        history_sync_mode: None,
        multisig: false,
        multisig_key: Some(String::from("mk")),
    })
    .unwrap();
    assert_eq!(body_json(&req), "{\"seedKey\":\"k\",\"wallet-id\":\"w1\"}");
}

#[test]
fn invalid_host_fails_every_planner() {
    let bad = CliConfig {
        host: String::from("not-a-url"),
        debug: false,
    };
    assert!(plan_status(&bad, &String::from("w")).is_err());
    assert!(plan_stop(&ParamsWalletStop {
        config: bad.clone(),
        wallet_id: String::from("w"),
    })
    .is_err());
}

#[test]
fn hsm_and_fireblocks_start_bodies() {
    let req = plan_hsm_start(&ParamsHsmStart {
        config: config(),
        wallet_id: String::from("w1"),
        hsm_key: String::from("hk"),
    })
    .unwrap();
    assert_eq!(req.url, "http://localhost:8000/hsm/start");
    assert_eq!(body_json(&req), "{\"hsm-key\":\"hk\",\"wallet-id\":\"w1\"}");

    let req = plan_fireblocks_start(&ParamsFireblocksStart {
        config: config(),
        wallet_id: String::from("w1"),
        xpub: String::from("xp"),
    })
    .unwrap();
    assert_eq!(req.url, "http://localhost:8000/fireblocks/start");
    assert_eq!(body_json(&req), "{\"xpub\":\"xp\",\"wallet-id\":\"w1\"}");
}

#[test]
fn multisig_pubkey_omits_absent_passphrase() {
    let req = plan_multisig_pubkey(&ParamsMultisigPubkey {
        config: config(),
        seed_key: String::from("sk"),
        passphrase: None,
    })
    .unwrap();
    assert_eq!(body_json(&req), "{\"seedKey\":\"sk\"}");
}

#[test]
fn configuration_string_sends_token_in_query() {
    let req = plan_configuration_string(&ParamsConfigString {
        config: config(),
        token: String::from("00abc"),
    })
    .unwrap();
    assert_eq!(req.method, Method::Get);
    assert!(req.wallet_id.is_none());
    assert_eq!(
        req.query,
        vec![(String::from("token"), String::from("00abc"))]
    );
}

#[test]
fn wallet_header_carries_the_wallet_id() {
    let req = plan_status(&config(), &String::from("main")).unwrap();
    assert_eq!(req.method, Method::Get);
    assert_eq!(req.url, "http://localhost:8000/wallet/status");
    assert_eq!(req.wallet_id, Some(String::from("main")));
    assert!(req.query.is_empty());
    assert!(matches!(req.body, Body::Empty));
}

#[test]
fn balance_token_only_when_supplied() {
    let mut p = ParamsWalletBalance {
        config: config(),
        wallet_id: String::from("w"),
        token: None,
    };
    assert!(plan_balance(&p).unwrap().query.is_empty());
    p.token = Some(String::from("00"));
    assert_eq!(
        plan_balance(&p).unwrap().query,
        vec![(String::from("token"), String::from("00"))]
    );
}

#[test]
fn address_query_renders_numbers_and_flags() {
    let req = plan_address(&ParamsWalletAddress {
        config: config(),
        wallet_id: String::from("w"),
        index: Some(42),
        mark_as_used: Some(true),
    })
    .unwrap();
    assert_eq!(
        req.query,
        vec![
            (String::from("index"), String::from("42")),
            (String::from("mark_as_used"), String::from("true")),
        ]
    );
}

#[test]
fn address_info_and_index_and_addresses() {
    let req = plan_address_info(&ParamsWalletAddressInfo {
        config: config(),
        wallet_id: String::from("w"),
        address: String::from("H1"),
        token: None,
    })
    .unwrap();
    assert_eq!(req.url, "http://localhost:8000/wallet/address-info");
    assert_eq!(req.query, vec![(String::from("address"), String::from("H1"))]);

    let req = plan_address_index(&ParamsWalletAddressIndex {
        config: config(),
        wallet_id: String::from("w"),
        address: String::from("H1"),
    })
    .unwrap();
    assert_eq!(req.url, "http://localhost:8000/wallet/address-index");

    let req = plan_addresses(&ParamsWalletAddresses {
        config: config(),
        wallet_id: String::from("w"),
    })
    .unwrap();
    assert_eq!(req.url, "http://localhost:8000/wallet/addresses");
    assert!(req.query.is_empty());
}

#[test]
fn tx_history_limit_is_decimal() {
    let req = plan_tx_history(&ParamsWalletTxHistory {
        config: config(),
        wallet_id: String::from("w"),
        limit: Some(4294967295),
    })
    .unwrap();
    assert_eq!(
        req.query,
        vec![(String::from("limit"), String::from("4294967295"))]
    );
}

#[test]
fn transaction_and_confirmation_send_the_id() {
    let req = plan_transaction(&ParamsWalletTransaction {
        config: config(),
        wallet_id: String::from("w"),
        id: String::from("cafe"),
    })
    .unwrap();
    assert_eq!(req.url, "http://localhost:8000/wallet/transaction");
    assert_eq!(req.query, vec![(String::from("id"), String::from("cafe"))]);

    let req = plan_tx_confirmation(&ParamsWalletTxConfirmation {
        config: config(),
        wallet_id: String::from("w"),
        id: String::from("cafe"),
    })
    .unwrap();
    assert_eq!(req.url, "http://localhost:8000/wallet/tx-confirmation-blocks");
}

#[test]
fn decode_takes_whatever_was_supplied() {
    let req = plan_decode(&ParamsWalletDecode {
        config: config(),
        wallet_id: String::from("w"),
        tx_hex: Some(String::from("00ff")),
        partial_tx: None,
    })
    .unwrap();
    assert_eq!(body_json(&req), "{\"txHex\":\"00ff\"}");

    let req = plan_decode(&ParamsWalletDecode {
        config: config(),
        wallet_id: String::from("w"),
        tx_hex: None,
        partial_tx: Some(String::from("pt")),
    })
    .unwrap();
    assert_eq!(body_json(&req), "{\"partial_tx\":\"pt\"}");
}

#[test]
fn simple_send_body() {
    let req = plan_simple_send(&ParamsWalletSimpleSend {
        config: config(),
        wallet_id: String::from("w"),
        address: String::from("H1"),
        value: 10,
        change_address: None,
        token: Some(String::from("00")),
    })
    .unwrap();
    assert_eq!(req.url, "http://localhost:8000/wallet/simple-send-tx");
    assert_eq!(
        body_json(&req),
        "{\"address\":\"H1\",\"value\":10,\"token\":\"00\"}"
    );
}

#[test]
fn send_passes_the_body_through() {
    let raw = String::from("{\"outputs\":[{\"address\":\"H1\",\"value\":1}]}");
    let req = plan_send(&ParamsWalletSend {
        config: config(),
        wallet_id: String::from("w"),
        body: raw.clone(),
    })
    .unwrap();
    assert_eq!(req.url, "http://localhost:8000/wallet/send-tx");
    assert_eq!(body_json(&req), raw);
}

#[test]
fn create_token_full_and_minimal() {
    let minimal = plan_create_token(&ParamsWalletCreateToken {
        config: config(),
        wallet_id: String::from("w"),
        name: String::from("MyToken"),
        symbol: String::from("MTK"),
        amount: 100,
        address: None,
        change_address: None,
        create_mint: None,
        mint_authority_address: None,
        allow_external_mint_authority_address: None,
        create_melt: None,
        melt_authority_address: None,
        allow_external_melt_authority_address: None,
        data: None,
    })
    .unwrap();
    assert_eq!(
        body_json(&minimal),
        "{\"name\":\"MyToken\",\"symbol\":\"MTK\",\"amount\":100}"
    );

    let full = plan_create_token(&ParamsWalletCreateToken {
        config: config(),
        wallet_id: String::from("w"),
        name: String::from("T"),
        symbol: String::from("T"),
        amount: 1,
        address: Some(String::from("H1")),
        change_address: Some(String::from("H2")),
        create_mint: Some(false),
        mint_authority_address: Some(String::from("H3")),
        allow_external_mint_authority_address: Some(true),
        create_melt: Some(false),
        melt_authority_address: Some(String::from("H4")),
        allow_external_melt_authority_address: Some(false),
        data: Some(vec![String::from("d1"), String::from("d2")]),
    })
    .unwrap();
    assert_eq!(
        body_json(&full),
        "{\"name\":\"T\",\"symbol\":\"T\",\"amount\":1,\"address\":\"H1\",\
         \"change_address\":\"H2\",\"create_mint\":false,\
         \"mint_authority_address\":\"H3\",\
         \"allow_external_mint_authority_address\":true,\"create_melt\":false,\
         \"melt_authority_address\":\"H4\",\
         \"allow_external_melt_authority_address\":false,\"data\":[\"d1\",\"d2\"]}"
    );
}

#[test]
fn mint_uses_snake_case_unshift_key() {
    let req = plan_mint_tokens(&ParamsWalletMintTokens {
        config: config(),
        wallet_id: String::from("w"),
        token: String::from("00"),
        amount: 5,
        address: None,
        change_address: None,
        mint_authority_address: None,
        allow_external_mint_authority_address: None,
        unshift_data: Some(true),
        data: None,
    })
    .unwrap();
    assert_eq!(
        body_json(&req),
        "{\"token\":\"00\",\"amount\":5,\"unshift_data\":true}"
    );
}

#[test]
fn melt_uses_camel_case_unshift_key() {
    let req = plan_melt_tokens(&ParamsWalletMeltTokens {
        config: config(),
        wallet_id: String::from("w"),
        token: String::from("00"),
        amount: 5,
        address: None,
        deposit_address: Some(String::from("HDep")),
        change_address: None,
        melt_authority_address: None,
        allow_external_melt_authority_address: None,
        unshift_data: Some(false),
        data: None,
    })
    .unwrap();
    // The deposit address is not part of the wire contract; the unshift
    // flag travels under the camel-case key for the melt call only.
    assert_eq!(
        body_json(&req),
        "{\"token\":\"00\",\"amount\":5,\"unshiftData\":false}"
    );
}

#[test]
fn utxo_filter_and_consolidation_bodies() {
    let req = plan_utxo_filter(&ParamsWalletUtxoFilter {
        config: config(),
        wallet_id: String::from("w"),
        max_utxos: Some(3),
        token: None,
        filter_address: None,
        amount_smaller_than: None,
        amount_bigger_than: Some(10),
        maximum_amount: None,
        only_available_utxos: Some(true),
    })
    .unwrap();
    assert_eq!(req.url, "http://localhost:8000/wallet/utxo-filter");
    assert_eq!(
        body_json(&req),
        "{\"max_utxos\":3,\"amount_bigger_than\":10,\"only_available_utxos\":true}"
    );

    let req = plan_utxo_consolidation(&ParamsWalletUtxoConsolidation {
        config: config(),
        wallet_id: String::from("w"),
        max_utxos: None,
        token: Some(String::from("00")),
        filter_address: None,
        amount_smaller_than: None,
        amount_bigger_than: None,
        maximum_amount: None,
    })
    .unwrap();
    assert_eq!(req.url, "http://localhost:8000/wallet/utxo-consolidation");
    assert_eq!(body_json(&req), "{\"token\":\"00\"}");
}

#[test]
fn create_nft_requires_the_data_output() {
    let req = plan_create_nft(&ParamsWalletCreateNft {
        config: config(),
        wallet_id: String::from("w"),
        name: String::from("N"),
        symbol: String::from("NF"),
        amount: 1,
        data: String::from("ipfs://x"),
        address: None,
        change_address: None,
        create_mint: None,
        mint_authority_address: None,
        allow_external_mint_authority_address: None,
        create_melt: None,
        melt_authority_address: None,
        allow_external_melt_authority_address: None,
    })
    .unwrap();
    assert_eq!(req.url, "http://localhost:8000/wallet/create-nft");
    assert_eq!(
        body_json(&req),
        "{\"name\":\"N\",\"symbol\":\"NF\",\"data\":\"ipfs://x\",\"amount\":1}"
    );
}

#[test]
fn p2sh_proposal_planners() {
    let req = plan_p2sh_txproposal_build(&ParamsP2shTxProposalBuild {
        config: config(),
        wallet_id: String::from("w"),
        body: String::from("{\"x\":1}"),
    })
    .unwrap();
    assert_eq!(req.url, "http://localhost:8000/wallet/p2sh/tx-proposal");
    assert_eq!(body_json(&req), "{\"x\":1}");

    let req = plan_p2sh_txproposal_get_my_signatures(&ParamsP2shTxProposalGetMySignatures {
        config: config(),
        wallet_id: String::from("w"),
        tx_hex: String::from("00aa"),
    })
    .unwrap();
    assert_eq!(
        req.url,
        "http://localhost:8000/wallet/p2sh/tx-proposal/get-my-signatures"
    );
    assert_eq!(body_json(&req), "{\"txHex\":\"00aa\"}");

    let sign_params = ParamsP2shTxProposalSign {
        config: config(),
        wallet_id: String::from("w"),
        tx_hex: String::from("00aa"),
        signatures: vec![String::from("s1"), String::from("s2")],
    };
    let req = plan_p2sh_txproposal_sign(&sign_params).unwrap();
    assert_eq!(req.url, "http://localhost:8000/wallet/p2sh/tx-proposal/sign");
    assert_eq!(
        body_json(&req),
        "{\"txHex\":\"00aa\",\"signatures\":[\"s1\",\"s2\"]}"
    );
    let req = plan_p2sh_txproposal_sign_and_push(&sign_params).unwrap();
    assert_eq!(
        req.url,
        "http://localhost:8000/wallet/p2sh/tx-proposal/sign-and-push"
    );
    assert_eq!(
        body_json(&req),
        "{\"txHex\":\"00aa\",\"signatures\":[\"s1\",\"s2\"]}"
    );
}

#[test]
fn p2sh_simple_send_wraps_the_single_output() {
    let req = plan_p2sh_txproposal_build_simple_send_tokens(
        &ParamsP2shTxProposalBuildSimpleSendTokens {
            config: config(),
            wallet_id: String::from("w"),
            address: String::from("H1"),
            value: 7,
            token: Some(String::from("00")),
            change_address: Some(String::from("H2")),
            mark_inputs_as_used: None,
        },
    )
    .unwrap();
    assert_eq!(req.url, "http://localhost:8000/wallet/p2sh/tx-proposal");
    assert_eq!(
        body_json(&req),
        "{\"outputs\":[{\"address\":\"H1\",\"value\":7,\"token\":\"00\"}],\
         \"change_address\":\"H2\"}"
    );
}

#[test]
fn p2sh_create_token_and_mint_bodies() {
    let req = plan_p2sh_txproposal_create_token(&ParamsWalletP2shTxProposalCreateToken {
        config: config(),
        wallet_id: String::from("w"),
        name: String::from("T"),
        symbol: String::from("TT"),
        amount: 2,
        address: None,
        change_address: None,
        create_mint: Some(true),
        mint_authority_address: None,
        allow_external_mint_authority_address: None,
        create_melt: None,
        melt_authority_address: None,
        allow_external_melt_authority_address: None,
        mark_inputs_as_used: Some(true),
    })
    .unwrap();
    assert_eq!(
        req.url,
        "http://localhost:8000/wallet/p2sh/tx-proposal/create-token"
    );
    assert_eq!(
        body_json(&req),
        "{\"name\":\"T\",\"symbol\":\"TT\",\"amount\":2,\"create_mint\":true,\
         \"mark_inputs_as_used\":true}"
    );

    let req = plan_p2sh_txproposal_mint_tokens(&ParamsWalletP2shTxProposalMintTokens {
        config: config(),
        wallet_id: String::from("w"),
        token: String::from("00"),
        amount: 3,
        address: None,
        change_address: None,
        create_mint: None,
        mint_authority_address: None,
        allow_external_mint_authority_address: None,
        mark_inputs_as_used: None,
    })
    .unwrap();
    assert_eq!(
        req.url,
        "http://localhost:8000/wallet/p2sh/tx-proposal/mint-tokens"
    );
    assert_eq!(body_json(&req), "{\"token\":\"00\",\"amount\":3}");
}

#[test]
fn curl_echo_is_deterministic_and_offline() {
    let p = ParamsCustomCurl {
        config: config(),
        wallet_id: String::from("default"),
        post: false,
        data: false,
        path: String::from("/wallet/balance"),
    };
    let first = curl_echo(&p).unwrap();
    let second = curl_echo(&p).unwrap();
    assert_eq!(first, second);
    assert_eq!(
        first,
        "curl -H \"X-Wallet-Id: default\" http://localhost:8000/wallet/balance"
    );
}

#[test]
fn curl_echo_post_with_data() {
    let p = ParamsCustomCurl {
        config: config(),
        wallet_id: String::from("w"),
        post: true,
        data: true,
        path: String::from("/start"),
    };
    assert_eq!(
        curl_echo(&p).unwrap(),
        "curl -X POST -d '{}' -H \"X-Wallet-Id: w\" -H \"Content-Type: application/json\" \
         http://localhost:8000/start"
    );
}

#[test]
fn curl_echo_post_without_data() {
    let p = ParamsCustomCurl {
        config: config(),
        wallet_id: String::from("w"),
        post: true,
        data: false,
        path: String::from("/wallet/stop"),
    };
    assert_eq!(
        curl_echo(&p).unwrap(),
        "curl -X POST -H \"X-Wallet-Id: w\" http://localhost:8000/wallet/stop"
    );
}

#[test]
fn curl_echo_rejects_a_bad_host() {
    let p = ParamsCustomCurl {
        config: CliConfig {
            host: String::from("not-a-url"),
            debug: false,
        },
        wallet_id: String::from("w"),
        post: false,
        data: false,
        path: String::from("/x"),
    };
    assert!(curl_echo(&p).is_err());
}
