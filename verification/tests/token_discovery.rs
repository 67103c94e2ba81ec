use headless_cli::data::{DecodedOutput, HistoryInput, HistoryOutput, HistoryTx};
use headless_cli::tokens::{discover_tokens, tokens_json};

fn decoded(address: Option<&str>) -> DecodedOutput {
    DecodedOutput {
        address: address.map(String::from),
        timelock: None,
        data: None,
    }
}

fn output(address: Option<&str>, token: &str) -> HistoryOutput {
    HistoryOutput {
        value: 100,
        token_data: 0,
        script: String::from("dqkU"),
        decoded: decoded(address),
        token: String::from(token),
        spent_by: None,
    }
}

fn input(address: Option<&str>, token: &str) -> HistoryInput {
    HistoryInput {
        value: 100,
        token_data: 0,
        script: String::from("dqkU"),
        decoded: decoded(address),
        token: String::from(token),
        tx_id: String::from("tx0"),
        index: 0,
    }
}

fn tx(id: &str, inputs: Vec<HistoryInput>, outputs: Vec<HistoryOutput>) -> HistoryTx {
    HistoryTx {
        tx_id: String::from(id),
        version: 1,
        timestamp: 1_700_000_000,
        is_voided: false,
        inputs,
        outputs,
        parents: vec![],
        token_name: None,
        token_symbol: None,
        tokens: None,
    }
}

#[test]
fn owned_output_counts_non_owned_input_does_not() {
    let history = vec![
        tx("t1", vec![], vec![output(Some("HOwned"), "T1")]),
        tx("t2", vec![input(Some("HNotMine"), "T2")], vec![]),
    ];
    let addresses = vec![String::from("HOwned")];
    let tokens = discover_tokens(&history, &addresses);
    assert_eq!(tokens, vec![String::from("T1")]);
}

#[test]
fn empty_address_set_discovers_nothing() {
    let history = vec![
        tx("t1", vec![input(Some("HA"), "T1")], vec![output(Some("HB"), "T2")]),
        tx("t2", vec![], vec![output(Some("HC"), "T3")]),
    ];
    let addresses: Vec<String> = vec![];
    let tokens = discover_tokens(&history, &addresses);
    assert!(tokens.is_empty());
}

#[test]
fn undecoded_output_is_not_owned() {
    let history = vec![tx(
        "t1",
        vec![input(None, "T9")],
        vec![output(None, "T8")],
    )];
    let addresses = vec![String::from("HOwned")];
    let tokens = discover_tokens(&history, &addresses);
    assert!(tokens.is_empty());
}

#[test]
fn owned_input_counts_too() {
    let history = vec![tx("t1", vec![input(Some("HMine"), "TIn")], vec![])];
    let addresses = vec![String::from("HMine")];
    let tokens = discover_tokens(&history, &addresses);
    assert_eq!(tokens, vec![String::from("TIn")]);
}

#[test]
fn duplicate_tokens_collapse() {
    let history = vec![
        tx(
            "t1",
            vec![input(Some("HMine"), "T1")],
            vec![output(Some("HMine"), "T1"), output(Some("HMine"), "T2")],
        ),
        tx("t2", vec![], vec![output(Some("HMine"), "T1")]),
    ];
    let addresses = vec![String::from("HMine")];
    let mut tokens = discover_tokens(&history, &addresses);
    tokens.sort();
    assert_eq!(tokens, vec![String::from("T1"), String::from("T2")]);
}

#[test]
fn transaction_without_entries_contributes_nothing() {
    let history = vec![tx("t1", vec![], vec![])];
    let addresses = vec![String::from("HMine")];
    let tokens = discover_tokens(&history, &addresses);
    assert!(tokens.is_empty());
}

#[test]
fn discovered_tokens_render_as_json_array() {
    let history = vec![tx("t1", vec![], vec![output(Some("HMine"), "T1")])];
    let addresses = vec![String::from("HMine")];
    let tokens = discover_tokens(&history, &addresses);
    assert_eq!(tokens_json(&tokens), "[\"T1\"]");
    let none: Vec<String> = vec![];
    assert_eq!(tokens_json(&none), "[]");
}
