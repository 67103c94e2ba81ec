//! One planner per remote operation: each takes its parameter bundle and
//! produces the fully planned request — method, resolved URL, wallet-id
//! header, query string and body — or a URL error.  The wallet identifier,
//! where applicable, always travels as the `X-Wallet-Id` header, never in
//! the body or query; optional parameters appear only when supplied.

use vstd::prelude::*;

use crate::params::{
    CliConfig, ParamsConfigString, ParamsCustomCurl, ParamsFireblocksStart, ParamsHsmStart, ParamsMultisigPubkey, ParamsP2shTxProposalBuild,
    ParamsP2shTxProposalBuildSimpleSendTokens, ParamsP2shTxProposalGetMySignatures,
    ParamsP2shTxProposalSign, ParamsStart, ParamsWalletAddress, ParamsWalletAddressIndex,
    ParamsWalletAddressInfo, ParamsWalletAddresses, ParamsWalletBalance, ParamsWalletCreateNft,
    ParamsWalletCreateToken, ParamsWalletDecode, ParamsWalletMeltTokens, ParamsWalletMintTokens,
    ParamsWalletP2shTxProposalCreateToken, ParamsWalletP2shTxProposalMintTokens,
    ParamsWalletSend, ParamsWalletSimpleSend, ParamsWalletStop, ParamsWalletTransaction,
    ParamsWalletTxConfirmation, ParamsWalletTxHistory, ParamsWalletUtxoConsolidation,
    ParamsWalletUtxoFilter,
};
use crate::request::{
    assemble, assemble_body, assemble_query, body_fields_view, distinct_keys, key_count,
    key_value, lemma_field_presence, query_fields_view, Body, BodyData, FieldSeq, HttpRequest,
    Method,
};
use crate::text::{dec_rep, u32_to_string};
use crate::url::{build_headless_url, resolved_url, UrlError};
use crate::value::{json_data_of, list_value, text_list, HashMapValue, JsonData};

verus! {

/// Body value of an optional text parameter.
pub open spec fn opt_text(o: Option<String>) -> Option<JsonData> {
    match o {
        Option::None => Option::None,
        Option::Some(s) => Option::Some(JsonData::Text(s@)),
    }
}

/// Body value of an optional integer parameter.
pub open spec fn opt_int(o: Option<u32>) -> Option<JsonData> {
    match o {
        Option::None => Option::None,
        Option::Some(i) => Option::Some(JsonData::Int(i)),
    }
}

/// Body value of an optional boolean parameter.
pub open spec fn opt_bool(o: Option<bool>) -> Option<JsonData> {
    match o {
        Option::None => Option::None,
        Option::Some(b) => Option::Some(JsonData::Bool(b)),
    }
}

/// Body value of an optional list of text parameters.
pub open spec fn opt_text_list(o: Option<Vec<String>>) -> Option<JsonData> {
    match o {
        Option::None => Option::None,
        Option::Some(v) => Option::Some(text_list(v@)),
    }
}

/// Query value of an optional string parameter.
pub open spec fn opt_str(o: Option<String>) -> Option<Seq<char>> {
    match o {
        Option::None => Option::None,
        Option::Some(s) => Option::Some(s@),
    }
}

/// Query rendering of a boolean.
pub open spec fn bool_str(b: bool) -> Seq<char> {
    if b {
        "true"@
    } else {
        "false"@
    }
}

/// Query value of an optional integer parameter, rendered in decimal.
pub open spec fn opt_dec(o: Option<u32>) -> Option<Seq<char>> {
    match o {
        Option::None => Option::None,
        Option::Some(i) => Option::Some(dec_rep(i as nat)),
    }
}

/// Query value of an optional boolean parameter.
pub open spec fn opt_flag(o: Option<bool>) -> Option<Seq<char>> {
    match o {
        Option::None => Option::None,
        Option::Some(b) => Option::Some(bool_str(b)),
    }
}

/// Clones an optional text parameter into an optional body value.
fn text_field(o: &Option<String>) -> (r: Option<HashMapValue>)
    ensures
        (match r {
            Option::None => Option::None,
            Option::Some(v) => Option::Some(json_data_of(v)),
        }) == opt_text(*o),
{
    match o {
        Option::None => Option::None,
        Option::Some(s) => Option::Some(HashMapValue::String(s.clone())),
    }
}

/// Turns an optional integer parameter into an optional body value.
fn int_field(o: &Option<u32>) -> (r: Option<HashMapValue>)
    ensures
        (match r {
            Option::None => Option::None,
            Option::Some(v) => Option::Some(json_data_of(v)),
        }) == opt_int(*o),
{
    match o {
        Option::None => Option::None,
        Option::Some(i) => Option::Some(HashMapValue::Int(*i)),
    }
}

/// Turns an optional boolean parameter into an optional body value.
fn bool_field(o: &Option<bool>) -> (r: Option<HashMapValue>)
    ensures
        (match r {
            Option::None => Option::None,
            Option::Some(v) => Option::Some(json_data_of(v)),
        }) == opt_bool(*o),
{
    match o {
        Option::None => Option::None,
        Option::Some(b) => Option::Some(HashMapValue::Bool(*b)),
    }
}

/// Clones an optional list of text parameters into an optional body value.
fn list_field(o: &Option<Vec<String>>) -> (r: Option<HashMapValue>)
    ensures
        (match r {
            Option::None => Option::None,
            Option::Some(v) => Option::Some(json_data_of(v)),
        }) == opt_text_list(*o),
{
    match o {
        Option::None => Option::None,
        Option::Some(xs) => Option::Some(list_value(xs)),
    }
}

/// Clones an optional string parameter into an optional query value.
fn str_field(o: &Option<String>) -> (r: Option<String>)
    ensures
        (match r {
            Option::None => Option::None,
            Option::Some(v) => Option::Some(v@),
        }) == opt_str(*o),
{
    match o {
        Option::None => Option::None,
        Option::Some(s) => Option::Some(s.clone()),
    }
}

/// Renders an optional integer parameter as an optional query value.
fn dec_field(o: &Option<u32>) -> (r: Option<String>)
    ensures
        (match r {
            Option::None => Option::None,
            Option::Some(v) => Option::Some(v@),
        }) == opt_dec(*o),
{
    match o {
        Option::None => Option::None,
        Option::Some(i) => Option::Some(u32_to_string(*i)),
    }
}

/// Renders an optional boolean parameter as an optional query value.
fn flag_field(o: &Option<bool>) -> (r: Option<String>)
    ensures
        (match r {
            Option::None => Option::None,
            Option::Some(v) => Option::Some(v@),
        }) == opt_flag(*o),
{
    match o {
        Option::None => Option::None,
        Option::Some(b) => if *b {
            Option::Some(String::from_str("true"))
        } else {
            Option::Some(String::from_str("false"))
        },
    }
}

/// What every planner promises about the parts that do not vary: the
/// request is `Ok` exactly when the URL resolves, and then carries the
/// given method, the resolved URL, and the given wallet-id header.
pub open spec fn plan_frame(
    r: Result<HttpRequest, UrlError>,
    host: Seq<char>,
    path: Seq<char>,
    method: Method,
    wallet: Option<Seq<char>>,
) -> bool {
    &&& r is Ok <==> resolved_url(host, path) is Some
    &&& r is Ok ==> r->Ok_0.method == method
    &&& r is Ok ==> r->Ok_0.url@ == resolved_url(host, path)->Some_0
    &&& r is Ok ==> r->Ok_0.wallet_view() == wallet
}

/// The body of the start command.
pub open spec fn start_body(p: ParamsStart) -> FieldSeq<JsonData> {
    seq![
        ("seedKey"@, Option::Some(JsonData::Text(p.seed_key@))),
        ("wallet-id"@, Option::Some(JsonData::Text(p.wallet_id@))),
        ("passphrase"@, opt_text(p.passphrase)),
        ("scanPolicy"@, opt_text(p.scan_policy)),
        ("gapLimit"@, opt_int(p.gap_limit)),
        ("policyStartIndex"@, opt_int(p.policy_start_index)),
        ("policyEndIndex"@, opt_int(p.policy_end_index)),
        ("history_sync_mode"@, opt_text(p.history_sync_mode)),
        (
            "multisig"@,
            if p.multisig {
                Option::Some(JsonData::Bool(true))
            } else {
                Option::None
            },
        ),
        (
            "multisigKey"@,
            if p.multisig {
                opt_text(p.multisig_key)
            } else {
                Option::None
            },
        ),
    ]
}

/// Start a wallet: `POST /start`, JSON body per `start_body`.  The
/// multisig key travels only for a multisig wallet.
pub fn plan_start(p: &ParamsStart) -> (r: Result<HttpRequest, UrlError>)
    ensures
        plan_frame(r, p.config.host@, "/start"@, Method::Post, Option::None),
        r is Ok ==> r->Ok_0.query_view() == Seq::<(Seq<char>, Seq<char>)>::empty(),
        r is Ok ==> r->Ok_0.body@ == BodyData::Json(JsonData::Obj(assemble(start_body(*p)))),
{
    let url = match build_headless_url(&p.config.host, "/start") {
        Ok(u) => u,
        Err(e) => {
            return Err(e);
        },
    };
    let mut fields: Vec<(String, Option<HashMapValue>)> = Vec::new();
    fields.push(
        (String::from_str("seedKey"), Option::Some(HashMapValue::String(p.seed_key.clone()))),
    );
    fields.push(
        (String::from_str("wallet-id"), Option::Some(HashMapValue::String(p.wallet_id.clone()))),
    );
    fields.push((String::from_str("passphrase"), text_field(&p.passphrase)));
    fields.push((String::from_str("scanPolicy"), text_field(&p.scan_policy)));
    fields.push((String::from_str("gapLimit"), int_field(&p.gap_limit)));
    fields.push((String::from_str("policyStartIndex"), int_field(&p.policy_start_index)));
    fields.push((String::from_str("policyEndIndex"), int_field(&p.policy_end_index)));
    fields.push((String::from_str("history_sync_mode"), text_field(&p.history_sync_mode)));
    if p.multisig {
        fields.push((String::from_str("multisig"), Option::Some(HashMapValue::Bool(true))));
        fields.push((String::from_str("multisigKey"), text_field(&p.multisig_key)));
    } else {
        fields.push((String::from_str("multisig"), Option::None));
        fields.push((String::from_str("multisigKey"), Option::None));
    }
    proof {
        assert(body_fields_view(fields@) =~~= start_body(*p));
    }
    let entries = assemble_body(fields);
    let req = HttpRequest {
        method: Method::Post,
        url,
        wallet_id: Option::None,
        query: Vec::new(),
        body: Body::Json(HashMapValue::Dict(entries)),
    };
    proof {
        assert(req.query_view() =~= Seq::<(Seq<char>, Seq<char>)>::empty());
    }
    Ok(req)
}

/// The body of the HSM start command.
pub open spec fn hsm_start_body(p: ParamsHsmStart) -> FieldSeq<JsonData> {
    seq![
        ("hsm-key"@, Option::Some(JsonData::Text(p.hsm_key@))),
        ("wallet-id"@, Option::Some(JsonData::Text(p.wallet_id@))),
    ]
}

/// Start an HSM wallet: `POST /hsm/start`.
pub fn plan_hsm_start(p: &ParamsHsmStart) -> (r: Result<HttpRequest, UrlError>)
    ensures
        plan_frame(r, p.config.host@, "/hsm/start"@, Method::Post, Option::None),
        r is Ok ==> r->Ok_0.query_view() == Seq::<(Seq<char>, Seq<char>)>::empty(),
        r is Ok ==> r->Ok_0.body@ == BodyData::Json(JsonData::Obj(assemble(hsm_start_body(*p)))),
{
    let url = match build_headless_url(&p.config.host, "/hsm/start") {
        Ok(u) => u,
        Err(e) => {
            return Err(e);
        },
    };
    let mut fields: Vec<(String, Option<HashMapValue>)> = Vec::new();
    fields.push(
        (String::from_str("hsm-key"), Option::Some(HashMapValue::String(p.hsm_key.clone()))),
    );
    fields.push(
        (String::from_str("wallet-id"), Option::Some(HashMapValue::String(p.wallet_id.clone()))),
    );
    proof {
        assert(body_fields_view(fields@) =~~= hsm_start_body(*p));
    }
    let entries = assemble_body(fields);
    let req = HttpRequest {
        method: Method::Post,
        url,
        wallet_id: Option::None,
        query: Vec::new(),
        body: Body::Json(HashMapValue::Dict(entries)),
    };
    proof {
        assert(req.query_view() =~= Seq::<(Seq<char>, Seq<char>)>::empty());
    }
    Ok(req)
}

/// The body of the Fireblocks start command.
pub open spec fn fireblocks_start_body(p: ParamsFireblocksStart) -> FieldSeq<JsonData> {
    seq![
        ("xpub"@, Option::Some(JsonData::Text(p.xpub@))),
        ("wallet-id"@, Option::Some(JsonData::Text(p.wallet_id@))),
    ]
}

/// Start a Fireblocks wallet: `POST /fireblocks/start`.
pub fn plan_fireblocks_start(p: &ParamsFireblocksStart) -> (r: Result<HttpRequest, UrlError>)
    ensures
        plan_frame(r, p.config.host@, "/fireblocks/start"@, Method::Post, Option::None),
        r is Ok ==> r->Ok_0.query_view() == Seq::<(Seq<char>, Seq<char>)>::empty(),
        r is Ok ==> r->Ok_0.body@ == BodyData::Json(
            JsonData::Obj(assemble(fireblocks_start_body(*p))),
        ),
{
    let url = match build_headless_url(&p.config.host, "/fireblocks/start") {
        Ok(u) => u,
        Err(e) => {
            return Err(e);
        },
    };
    let mut fields: Vec<(String, Option<HashMapValue>)> = Vec::new();
    fields.push((String::from_str("xpub"), Option::Some(HashMapValue::String(p.xpub.clone()))));
    fields.push(
        (String::from_str("wallet-id"), Option::Some(HashMapValue::String(p.wallet_id.clone()))),
    );
    proof {
        assert(body_fields_view(fields@) =~~= fireblocks_start_body(*p));
    }
    let entries = assemble_body(fields);
    let req = HttpRequest {
        method: Method::Post,
        url,
        wallet_id: Option::None,
        query: Vec::new(),
        body: Body::Json(HashMapValue::Dict(entries)),
    };
    proof {
        assert(req.query_view() =~= Seq::<(Seq<char>, Seq<char>)>::empty());
    }
    Ok(req)
}

/// The body of the multisig-pubkey command.
pub open spec fn multisig_pubkey_body(p: ParamsMultisigPubkey) -> FieldSeq<JsonData> {
    seq![
        ("seedKey"@, Option::Some(JsonData::Text(p.seed_key@))),
        ("passphrase"@, opt_text(p.passphrase)),
    ]
}

/// Get the multisig xpubkey of a configured seed: `POST /multisig-pubkey`.
pub fn plan_multisig_pubkey(p: &ParamsMultisigPubkey) -> (r: Result<HttpRequest, UrlError>)
    ensures
        plan_frame(r, p.config.host@, "/multisig-pubkey"@, Method::Post, Option::None),
        r is Ok ==> r->Ok_0.query_view() == Seq::<(Seq<char>, Seq<char>)>::empty(),
        r is Ok ==> r->Ok_0.body@ == BodyData::Json(
            JsonData::Obj(assemble(multisig_pubkey_body(*p))),
        ),
{
    let url = match build_headless_url(&p.config.host, "/multisig-pubkey") {
        Ok(u) => u,
        Err(e) => {
            return Err(e);
        },
    };
    let mut fields: Vec<(String, Option<HashMapValue>)> = Vec::new();
    fields.push(
        (String::from_str("seedKey"), Option::Some(HashMapValue::String(p.seed_key.clone()))),
    );
    fields.push((String::from_str("passphrase"), text_field(&p.passphrase)));
    proof {
        assert(body_fields_view(fields@) =~~= multisig_pubkey_body(*p));
    }
    let entries = assemble_body(fields);
    let req = HttpRequest {
        method: Method::Post,
        url,
        wallet_id: Option::None,
        query: Vec::new(),
        body: Body::Json(HashMapValue::Dict(entries)),
    };
    proof {
        assert(req.query_view() =~= Seq::<(Seq<char>, Seq<char>)>::empty());
    }
    Ok(req)
}

/// The query of the configuration-string command.
pub open spec fn configuration_string_query(p: ParamsConfigString) -> FieldSeq<Seq<char>> {
    seq![("token"@, Option::Some(p.token@))]
}

/// Get the configuration string of a token: `GET /configuration-string`.
pub fn plan_configuration_string(p: &ParamsConfigString) -> (r: Result<HttpRequest, UrlError>)
    ensures
        plan_frame(r, p.config.host@, "/configuration-string"@, Method::Get, Option::None),
        r is Ok ==> r->Ok_0.query_view() == assemble(configuration_string_query(*p)),
        r is Ok ==> r->Ok_0.body@ == BodyData::Empty,
{
    let url = match build_headless_url(&p.config.host, "/configuration-string") {
        Ok(u) => u,
        Err(e) => {
            return Err(e);
        },
    };
    let mut qfields: Vec<(String, Option<String>)> = Vec::new();
    qfields.push((String::from_str("token"), Option::Some(p.token.clone())));
    proof {
        assert(query_fields_view(qfields@) =~~= configuration_string_query(*p));
    }
    let query = assemble_query(qfields);
    Ok(
        HttpRequest {
            method: Method::Get,
            url,
            wallet_id: Option::None,
            query,
            body: Body::Empty,
        },
    )
}

/// Get the status of a wallet: `GET /wallet/status` under its wallet id.
pub fn plan_status(config: &CliConfig, wallet_id: &String) -> (r: Result<HttpRequest, UrlError>)
    ensures
        plan_frame(r, config.host@, "/wallet/status"@, Method::Get, Option::Some(wallet_id@)),
        r is Ok ==> r->Ok_0.query_view() == Seq::<(Seq<char>, Seq<char>)>::empty(),
        r is Ok ==> r->Ok_0.body@ == BodyData::Empty,
{
    let url = match build_headless_url(&config.host, "/wallet/status") {
        Ok(u) => u,
        Err(e) => {
            return Err(e);
        },
    };
    let req = HttpRequest {
        method: Method::Get,
        url,
        wallet_id: Option::Some(wallet_id.clone()),
        query: Vec::new(),
        body: Body::Empty,
    };
    proof {
        assert(req.query_view() =~= Seq::<(Seq<char>, Seq<char>)>::empty());
    }
    Ok(req)
}

/// The query of the balance command.
pub open spec fn balance_query(p: ParamsWalletBalance) -> FieldSeq<Seq<char>> {
    seq![("token"@, opt_str(p.token))]
}

/// Get the balance of a token: `GET /wallet/balance`.
pub fn plan_balance(p: &ParamsWalletBalance) -> (r: Result<HttpRequest, UrlError>)
    ensures
        plan_frame(r, p.config.host@, "/wallet/balance"@, Method::Get, Option::Some(p.wallet_id@)),
        r is Ok ==> r->Ok_0.query_view() == assemble(balance_query(*p)),
        r is Ok ==> r->Ok_0.body@ == BodyData::Empty,
{
    let url = match build_headless_url(&p.config.host, "/wallet/balance") {
        Ok(u) => u,
        Err(e) => {
            return Err(e);
        },
    };
    let mut qfields: Vec<(String, Option<String>)> = Vec::new();
    qfields.push((String::from_str("token"), str_field(&p.token)));
    proof {
        assert(query_fields_view(qfields@) =~~= balance_query(*p));
    }
    let query = assemble_query(qfields);
    Ok(
        HttpRequest {
            method: Method::Get,
            url,
            wallet_id: Option::Some(p.wallet_id.clone()),
            query,
            body: Body::Empty,
        },
    )
}

/// The query of the address command.
pub open spec fn address_query(p: ParamsWalletAddress) -> FieldSeq<Seq<char>> {
    seq![("index"@, opt_dec(p.index)), ("mark_as_used"@, opt_flag(p.mark_as_used))]
}

/// Get the current address of the wallet: `GET /wallet/address`.
pub fn plan_address(p: &ParamsWalletAddress) -> (r: Result<HttpRequest, UrlError>)
    ensures
        plan_frame(r, p.config.host@, "/wallet/address"@, Method::Get, Option::Some(p.wallet_id@)),
        r is Ok ==> r->Ok_0.query_view() == assemble(address_query(*p)),
        r is Ok ==> r->Ok_0.body@ == BodyData::Empty,
{
    let url = match build_headless_url(&p.config.host, "/wallet/address") {
        Ok(u) => u,
        Err(e) => {
            return Err(e);
        },
    };
    let mut qfields: Vec<(String, Option<String>)> = Vec::new();
    qfields.push((String::from_str("index"), dec_field(&p.index)));
    qfields.push((String::from_str("mark_as_used"), flag_field(&p.mark_as_used)));
    proof {
        assert(query_fields_view(qfields@) =~~= address_query(*p));
    }
    let query = assemble_query(qfields);
    Ok(
        HttpRequest {
            method: Method::Get,
            url,
            wallet_id: Option::Some(p.wallet_id.clone()),
            query,
            body: Body::Empty,
        },
    )
}

/// The query of the address-info command.
pub open spec fn address_info_query(p: ParamsWalletAddressInfo) -> FieldSeq<Seq<char>> {
    seq![("address"@, Option::Some(p.address@)), ("token"@, opt_str(p.token))]
}

/// Get the info of an owned address: `GET /wallet/address-info`.
pub fn plan_address_info(p: &ParamsWalletAddressInfo) -> (r: Result<HttpRequest, UrlError>)
    ensures
        plan_frame(
            r,
            p.config.host@,
            "/wallet/address-info"@,
            Method::Get,
            Option::Some(p.wallet_id@),
        ),
        r is Ok ==> r->Ok_0.query_view() == assemble(address_info_query(*p)),
        r is Ok ==> r->Ok_0.body@ == BodyData::Empty,
{
    let url = match build_headless_url(&p.config.host, "/wallet/address-info") {
        Ok(u) => u,
        Err(e) => {
            return Err(e);
        },
    };
    let mut qfields: Vec<(String, Option<String>)> = Vec::new();
    qfields.push((String::from_str("address"), Option::Some(p.address.clone())));
    qfields.push((String::from_str("token"), str_field(&p.token)));
    proof {
        assert(query_fields_view(qfields@) =~~= address_info_query(*p));
    }
    let query = assemble_query(qfields);
    Ok(
        HttpRequest {
            method: Method::Get,
            url,
            wallet_id: Option::Some(p.wallet_id.clone()),
            query,
            body: Body::Empty,
        },
    )
}

/// The query of the address-index command.
pub open spec fn address_index_query(p: ParamsWalletAddressIndex) -> FieldSeq<Seq<char>> {
    seq![("address"@, Option::Some(p.address@))]
}

/// Get the derivation index of an address: `GET /wallet/address-index`.
pub fn plan_address_index(p: &ParamsWalletAddressIndex) -> (r: Result<HttpRequest, UrlError>)
    ensures
        plan_frame(
            r,
            p.config.host@,
            "/wallet/address-index"@,
            Method::Get,
            Option::Some(p.wallet_id@),
        ),
        r is Ok ==> r->Ok_0.query_view() == assemble(address_index_query(*p)),
        r is Ok ==> r->Ok_0.body@ == BodyData::Empty,
{
    let url = match build_headless_url(&p.config.host, "/wallet/address-index") {
        Ok(u) => u,
        Err(e) => {
            return Err(e);
        },
    };
    let mut qfields: Vec<(String, Option<String>)> = Vec::new();
    qfields.push((String::from_str("address"), Option::Some(p.address.clone())));
    proof {
        assert(query_fields_view(qfields@) =~~= address_index_query(*p));
    }
    let query = assemble_query(qfields);
    Ok(
        HttpRequest {
            method: Method::Get,
            url,
            wallet_id: Option::Some(p.wallet_id.clone()),
            query,
            body: Body::Empty,
        },
    )
}

/// Get all addresses of the wallet: `GET /wallet/addresses`.
pub fn plan_addresses(p: &ParamsWalletAddresses) -> (r: Result<HttpRequest, UrlError>)
    ensures
        plan_frame(
            r,
            p.config.host@,
            "/wallet/addresses"@,
            Method::Get,
            Option::Some(p.wallet_id@),
        ),
        r is Ok ==> r->Ok_0.query_view() == Seq::<(Seq<char>, Seq<char>)>::empty(),
        r is Ok ==> r->Ok_0.body@ == BodyData::Empty,
{
    let url = match build_headless_url(&p.config.host, "/wallet/addresses") {
        Ok(u) => u,
        Err(e) => {
            return Err(e);
        },
    };
    let req = HttpRequest {
        method: Method::Get,
        url,
        wallet_id: Option::Some(p.wallet_id.clone()),
        query: Vec::new(),
        body: Body::Empty,
    };
    proof {
        assert(req.query_view() =~= Seq::<(Seq<char>, Seq<char>)>::empty());
    }
    Ok(req)
}

/// The query of the tx-history command.
pub open spec fn tx_history_query(p: ParamsWalletTxHistory) -> FieldSeq<Seq<char>> {
    seq![("limit"@, opt_dec(p.limit))]
}

/// Get the transaction history: `GET /wallet/tx-history`.
pub fn plan_tx_history(p: &ParamsWalletTxHistory) -> (r: Result<HttpRequest, UrlError>)
    ensures
        plan_frame(
            r,
            p.config.host@,
            "/wallet/tx-history"@,
            Method::Get,
            Option::Some(p.wallet_id@),
        ),
        r is Ok ==> r->Ok_0.query_view() == assemble(tx_history_query(*p)),
        r is Ok ==> r->Ok_0.body@ == BodyData::Empty,
{
    let url = match build_headless_url(&p.config.host, "/wallet/tx-history") {
        Ok(u) => u,
        Err(e) => {
            return Err(e);
        },
    };
    let mut qfields: Vec<(String, Option<String>)> = Vec::new();
    qfields.push((String::from_str("limit"), dec_field(&p.limit)));
    proof {
        assert(query_fields_view(qfields@) =~~= tx_history_query(*p));
    }
    let query = assemble_query(qfields);
    Ok(
        HttpRequest {
            method: Method::Get,
            url,
            wallet_id: Option::Some(p.wallet_id.clone()),
            query,
            body: Body::Empty,
        },
    )
}

/// The query of the transaction command.
pub open spec fn transaction_query(p: ParamsWalletTransaction) -> FieldSeq<Seq<char>> {
    seq![("id"@, Option::Some(p.id@))]
}

/// Get a transaction of the wallet's history: `GET /wallet/transaction`.
pub fn plan_transaction(p: &ParamsWalletTransaction) -> (r: Result<HttpRequest, UrlError>)
    ensures
        plan_frame(
            r,
            p.config.host@,
            "/wallet/transaction"@,
            Method::Get,
            Option::Some(p.wallet_id@),
        ),
        r is Ok ==> r->Ok_0.query_view() == assemble(transaction_query(*p)),
        r is Ok ==> r->Ok_0.body@ == BodyData::Empty,
{
    let url = match build_headless_url(&p.config.host, "/wallet/transaction") {
        Ok(u) => u,
        Err(e) => {
            return Err(e);
        },
    };
    let mut qfields: Vec<(String, Option<String>)> = Vec::new();
    qfields.push((String::from_str("id"), Option::Some(p.id.clone())));
    proof {
        assert(query_fields_view(qfields@) =~~= transaction_query(*p));
    }
    let query = assemble_query(qfields);
    Ok(
        HttpRequest {
            method: Method::Get,
            url,
            wallet_id: Option::Some(p.wallet_id.clone()),
            query,
            body: Body::Empty,
        },
    )
}

/// The body of the decode command.
pub open spec fn decode_body(p: ParamsWalletDecode) -> FieldSeq<JsonData> {
    seq![("txHex"@, opt_text(p.tx_hex)), ("partial_tx"@, opt_text(p.partial_tx))]
}

/// Decode a transaction: `POST /wallet/decode`.
pub fn plan_decode(p: &ParamsWalletDecode) -> (r: Result<HttpRequest, UrlError>)
    ensures
        plan_frame(r, p.config.host@, "/wallet/decode"@, Method::Post, Option::Some(p.wallet_id@)),
        r is Ok ==> r->Ok_0.query_view() == Seq::<(Seq<char>, Seq<char>)>::empty(),
        r is Ok ==> r->Ok_0.body@ == BodyData::Json(JsonData::Obj(assemble(decode_body(*p)))),
{
    let url = match build_headless_url(&p.config.host, "/wallet/decode") {
        Ok(u) => u,
        Err(e) => {
            return Err(e);
        },
    };
    let mut fields: Vec<(String, Option<HashMapValue>)> = Vec::new();
    fields.push((String::from_str("txHex"), text_field(&p.tx_hex)));
    fields.push((String::from_str("partial_tx"), text_field(&p.partial_tx)));
    proof {
        assert(body_fields_view(fields@) =~~= decode_body(*p));
    }
    let entries = assemble_body(fields);
    let req = HttpRequest {
        method: Method::Post,
        url,
        wallet_id: Option::Some(p.wallet_id.clone()),
        query: Vec::new(),
        body: Body::Json(HashMapValue::Dict(entries)),
    };
    proof {
        assert(req.query_view() =~= Seq::<(Seq<char>, Seq<char>)>::empty());
    }
    Ok(req)
}

/// The query of the tx-confirmation command.
pub open spec fn tx_confirmation_query(p: ParamsWalletTxConfirmation) -> FieldSeq<Seq<char>> {
    seq![("id"@, Option::Some(p.id@))]
}

/// Get the number of blocks confirming a transaction:
/// `GET /wallet/tx-confirmation-blocks`.
pub fn plan_tx_confirmation(p: &ParamsWalletTxConfirmation) -> (r: Result<HttpRequest, UrlError>)
    ensures
        plan_frame(
            r,
            p.config.host@,
            "/wallet/tx-confirmation-blocks"@,
            Method::Get,
            Option::Some(p.wallet_id@),
        ),
        r is Ok ==> r->Ok_0.query_view() == assemble(tx_confirmation_query(*p)),
        r is Ok ==> r->Ok_0.body@ == BodyData::Empty,
{
    let url = match build_headless_url(&p.config.host, "/wallet/tx-confirmation-blocks") {
        Ok(u) => u,
        Err(e) => {
            return Err(e);
        },
    };
    let mut qfields: Vec<(String, Option<String>)> = Vec::new();
    qfields.push((String::from_str("id"), Option::Some(p.id.clone())));
    proof {
        assert(query_fields_view(qfields@) =~~= tx_confirmation_query(*p));
    }
    let query = assemble_query(qfields);
    Ok(
        HttpRequest {
            method: Method::Get,
            url,
            wallet_id: Option::Some(p.wallet_id.clone()),
            query,
            body: Body::Empty,
        },
    )
}

/// Send a pre-serialized transaction body: `POST /wallet/send-tx`, the
/// given JSON text passed through unmodified.
pub fn plan_send(p: &ParamsWalletSend) -> (r: Result<HttpRequest, UrlError>)
    ensures
        plan_frame(r, p.config.host@, "/wallet/send-tx"@, Method::Post, Option::Some(p.wallet_id@)),
        r is Ok ==> r->Ok_0.query_view() == Seq::<(Seq<char>, Seq<char>)>::empty(),
        r is Ok ==> r->Ok_0.body@ == BodyData::Raw(p.body@),
{
    let url = match build_headless_url(&p.config.host, "/wallet/send-tx") {
        Ok(u) => u,
        Err(e) => {
            return Err(e);
        },
    };
    let req = HttpRequest {
        method: Method::Post,
        url,
        wallet_id: Option::Some(p.wallet_id.clone()),
        query: Vec::new(),
        body: Body::Raw(p.body.clone()),
    };
    proof {
        assert(req.query_view() =~= Seq::<(Seq<char>, Seq<char>)>::empty());
    }
    Ok(req)
}

/// Stop a wallet: `POST /wallet/stop`, no body.
pub fn plan_stop(p: &ParamsWalletStop) -> (r: Result<HttpRequest, UrlError>)
    ensures
        plan_frame(r, p.config.host@, "/wallet/stop"@, Method::Post, Option::Some(p.wallet_id@)),
        r is Ok ==> r->Ok_0.query_view() == Seq::<(Seq<char>, Seq<char>)>::empty(),
        r is Ok ==> r->Ok_0.body@ == BodyData::Empty,
{
    let url = match build_headless_url(&p.config.host, "/wallet/stop") {
        Ok(u) => u,
        Err(e) => {
            return Err(e);
        },
    };
    let req = HttpRequest {
        method: Method::Post,
        url,
        wallet_id: Option::Some(p.wallet_id.clone()),
        query: Vec::new(),
        body: Body::Empty,
    };
    proof {
        assert(req.query_view() =~= Seq::<(Seq<char>, Seq<char>)>::empty());
    }
    Ok(req)
}

/// Build a p2sh transaction proposal from a pre-serialized body:
/// `POST /wallet/p2sh/tx-proposal`, the JSON text passed through unmodified.
pub fn plan_p2sh_txproposal_build(p: &ParamsP2shTxProposalBuild) -> (r: Result<
    HttpRequest,
    UrlError,
>)
    ensures
        plan_frame(
            r,
            p.config.host@,
            "/wallet/p2sh/tx-proposal"@,
            Method::Post,
            Option::Some(p.wallet_id@),
        ),
        r is Ok ==> r->Ok_0.query_view() == Seq::<(Seq<char>, Seq<char>)>::empty(),
        r is Ok ==> r->Ok_0.body@ == BodyData::Raw(p.body@),
{
    let url = match build_headless_url(&p.config.host, "/wallet/p2sh/tx-proposal") {
        Ok(u) => u,
        Err(e) => {
            return Err(e);
        },
    };
    let req = HttpRequest {
        method: Method::Post,
        url,
        wallet_id: Option::Some(p.wallet_id.clone()),
        query: Vec::new(),
        body: Body::Raw(p.body.clone()),
    };
    proof {
        assert(req.query_view() =~= Seq::<(Seq<char>, Seq<char>)>::empty());
    }
    Ok(req)
}

/// The body of the simple send command.
pub open spec fn simple_send_body(p: ParamsWalletSimpleSend) -> FieldSeq<JsonData> {
    seq![
        ("address"@, Option::Some(JsonData::Text(p.address@))),
        ("value"@, Option::Some(JsonData::Int(p.value))),
        ("change_address"@, opt_text(p.change_address)),
        ("token"@, opt_text(p.token)),
    ]
}

/// Send a simple transaction: `POST /wallet/simple-send-tx`.
pub fn plan_simple_send(p: &ParamsWalletSimpleSend) -> (r: Result<HttpRequest, UrlError>)
    ensures
        plan_frame(
            r,
            p.config.host@,
            "/wallet/simple-send-tx"@,
            Method::Post,
            Option::Some(p.wallet_id@),
        ),
        r is Ok ==> r->Ok_0.query_view() == Seq::<(Seq<char>, Seq<char>)>::empty(),
        r is Ok ==> r->Ok_0.body@ == BodyData::Json(JsonData::Obj(assemble(simple_send_body(*p)))),
{
    let url = match build_headless_url(&p.config.host, "/wallet/simple-send-tx") {
        Ok(u) => u,
        Err(e) => {
            return Err(e);
        },
    };
    let mut fields: Vec<(String, Option<HashMapValue>)> = Vec::new();
    fields.push(
        (String::from_str("address"), Option::Some(HashMapValue::String(p.address.clone()))),
    );
    fields.push((String::from_str("value"), Option::Some(HashMapValue::Int(p.value))));
    fields.push((String::from_str("change_address"), text_field(&p.change_address)));
    fields.push((String::from_str("token"), text_field(&p.token)));
    proof {
        assert(body_fields_view(fields@) =~~= simple_send_body(*p));
    }
    let entries = assemble_body(fields);
    let req = HttpRequest {
        method: Method::Post,
        url,
        wallet_id: Option::Some(p.wallet_id.clone()),
        query: Vec::new(),
        body: Body::Json(HashMapValue::Dict(entries)),
    };
    proof {
        assert(req.query_view() =~= Seq::<(Seq<char>, Seq<char>)>::empty());
    }
    Ok(req)
}

/// The body of the create token command.
pub open spec fn create_token_body(p: ParamsWalletCreateToken) -> FieldSeq<JsonData> {
    seq![
        ("name"@, Option::Some(JsonData::Text(p.name@))),
        ("symbol"@, Option::Some(JsonData::Text(p.symbol@))),
        ("amount"@, Option::Some(JsonData::Int(p.amount))),
        ("address"@, opt_text(p.address)),
        ("change_address"@, opt_text(p.change_address)),
        ("create_mint"@, opt_bool(p.create_mint)),
        ("mint_authority_address"@, opt_text(p.mint_authority_address)),
        (
            "allow_external_mint_authority_address"@,
            opt_bool(p.allow_external_mint_authority_address),
        ),
        ("create_melt"@, opt_bool(p.create_melt)),
        ("melt_authority_address"@, opt_text(p.melt_authority_address)),
        (
            "allow_external_melt_authority_address"@,
            opt_bool(p.allow_external_melt_authority_address),
        ),
        ("data"@, opt_text_list(p.data)),
    ]
}

/// Create a custom token: `POST /wallet/create-token`.
pub fn plan_create_token(p: &ParamsWalletCreateToken) -> (r: Result<HttpRequest, UrlError>)
    ensures
        plan_frame(
            r,
            p.config.host@,
            "/wallet/create-token"@,
            Method::Post,
            Option::Some(p.wallet_id@),
        ),
        r is Ok ==> r->Ok_0.query_view() == Seq::<(Seq<char>, Seq<char>)>::empty(),
        r is Ok ==> r->Ok_0.body@ == BodyData::Json(JsonData::Obj(assemble(create_token_body(*p)))),
{
    let url = match build_headless_url(&p.config.host, "/wallet/create-token") {
        Ok(u) => u,
        Err(e) => {
            return Err(e);
        },
    };
    let mut fields: Vec<(String, Option<HashMapValue>)> = Vec::new();
    fields.push((String::from_str("name"), Option::Some(HashMapValue::String(p.name.clone()))));
    fields.push((String::from_str("symbol"), Option::Some(HashMapValue::String(p.symbol.clone()))));
    fields.push((String::from_str("amount"), Option::Some(HashMapValue::Int(p.amount))));
    fields.push((String::from_str("address"), text_field(&p.address)));
    fields.push((String::from_str("change_address"), text_field(&p.change_address)));
    fields.push((String::from_str("create_mint"), bool_field(&p.create_mint)));
    fields.push((String::from_str("mint_authority_address"), text_field(&p.mint_authority_address)));
    fields.push(
        (
            String::from_str("allow_external_mint_authority_address"),
            bool_field(&p.allow_external_mint_authority_address),
        ),
    );
    fields.push((String::from_str("create_melt"), bool_field(&p.create_melt)));
    fields.push((String::from_str("melt_authority_address"), text_field(&p.melt_authority_address)));
    fields.push(
        (
            String::from_str("allow_external_melt_authority_address"),
            bool_field(&p.allow_external_melt_authority_address),
        ),
    );
    fields.push((String::from_str("data"), list_field(&p.data)));
    proof {
        assert(body_fields_view(fields@) =~~= create_token_body(*p));
    }
    let entries = assemble_body(fields);
    let req = HttpRequest {
        method: Method::Post,
        url,
        wallet_id: Option::Some(p.wallet_id.clone()),
        query: Vec::new(),
        body: Body::Json(HashMapValue::Dict(entries)),
    };
    proof {
        assert(req.query_view() =~= Seq::<(Seq<char>, Seq<char>)>::empty());
    }
    Ok(req)
}

/// The body of the mint tokens command.
pub open spec fn mint_tokens_body(p: ParamsWalletMintTokens) -> FieldSeq<JsonData> {
    seq![
        ("token"@, Option::Some(JsonData::Text(p.token@))),
        ("amount"@, Option::Some(JsonData::Int(p.amount))),
        ("address"@, opt_text(p.address)),
        ("change_address"@, opt_text(p.change_address)),
        ("mint_authority_address"@, opt_text(p.mint_authority_address)),
        (
            "allow_external_mint_authority_address"@,
            opt_bool(p.allow_external_mint_authority_address),
        ),
        ("unshift_data"@, opt_bool(p.unshift_data)),
        ("data"@, opt_text_list(p.data)),
    ]
}

/// Mint tokens: `POST /wallet/mint-tokens`.
pub fn plan_mint_tokens(p: &ParamsWalletMintTokens) -> (r: Result<HttpRequest, UrlError>)
    ensures
        plan_frame(
            r,
            p.config.host@,
            "/wallet/mint-tokens"@,
            Method::Post,
            Option::Some(p.wallet_id@),
        ),
        r is Ok ==> r->Ok_0.query_view() == Seq::<(Seq<char>, Seq<char>)>::empty(),
        r is Ok ==> r->Ok_0.body@ == BodyData::Json(JsonData::Obj(assemble(mint_tokens_body(*p)))),
{
    let url = match build_headless_url(&p.config.host, "/wallet/mint-tokens") {
        Ok(u) => u,
        Err(e) => {
            return Err(e);
        },
    };
    let mut fields: Vec<(String, Option<HashMapValue>)> = Vec::new();
    fields.push((String::from_str("token"), Option::Some(HashMapValue::String(p.token.clone()))));
    fields.push((String::from_str("amount"), Option::Some(HashMapValue::Int(p.amount))));
    fields.push((String::from_str("address"), text_field(&p.address)));
    fields.push((String::from_str("change_address"), text_field(&p.change_address)));
    fields.push((String::from_str("mint_authority_address"), text_field(&p.mint_authority_address)));
    fields.push(
        (
            String::from_str("allow_external_mint_authority_address"),
            bool_field(&p.allow_external_mint_authority_address),
        ),
    );
    fields.push((String::from_str("unshift_data"), bool_field(&p.unshift_data)));
    fields.push((String::from_str("data"), list_field(&p.data)));
    proof {
        assert(body_fields_view(fields@) =~~= mint_tokens_body(*p));
    }
    let entries = assemble_body(fields);
    let req = HttpRequest {
        method: Method::Post,
        url,
        wallet_id: Option::Some(p.wallet_id.clone()),
        query: Vec::new(),
        body: Body::Json(HashMapValue::Dict(entries)),
    };
    proof {
        assert(req.query_view() =~= Seq::<(Seq<char>, Seq<char>)>::empty());
    }
    Ok(req)
}

/// The body of the melt tokens command.  The deposit address, though part
/// of the parameter bundle, is not part of the wire contract; and the
/// unshift flag travels under `unshiftData`, unlike the snake-case key the
/// mint call uses — a quirk of the external service, kept as observed.
pub open spec fn melt_tokens_body(p: ParamsWalletMeltTokens) -> FieldSeq<JsonData> {
    seq![
        ("token"@, Option::Some(JsonData::Text(p.token@))),
        ("amount"@, Option::Some(JsonData::Int(p.amount))),
        ("address"@, opt_text(p.address)),
        ("change_address"@, opt_text(p.change_address)),
        ("melt_authority_address"@, opt_text(p.melt_authority_address)),
        (
            "allow_external_melt_authority_address"@,
            opt_bool(p.allow_external_melt_authority_address),
        ),
        ("unshiftData"@, opt_bool(p.unshift_data)),
        ("data"@, opt_text_list(p.data)),
    ]
}

/// Melt tokens: `POST /wallet/melt-tokens`.
pub fn plan_melt_tokens(p: &ParamsWalletMeltTokens) -> (r: Result<HttpRequest, UrlError>)
    ensures
        plan_frame(
            r,
            p.config.host@,
            "/wallet/melt-tokens"@,
            Method::Post,
            Option::Some(p.wallet_id@),
        ),
        r is Ok ==> r->Ok_0.query_view() == Seq::<(Seq<char>, Seq<char>)>::empty(),
        r is Ok ==> r->Ok_0.body@ == BodyData::Json(JsonData::Obj(assemble(melt_tokens_body(*p)))),
{
    let url = match build_headless_url(&p.config.host, "/wallet/melt-tokens") {
        Ok(u) => u,
        Err(e) => {
            return Err(e);
        },
    };
    let mut fields: Vec<(String, Option<HashMapValue>)> = Vec::new();
    fields.push((String::from_str("token"), Option::Some(HashMapValue::String(p.token.clone()))));
    fields.push((String::from_str("amount"), Option::Some(HashMapValue::Int(p.amount))));
    fields.push((String::from_str("address"), text_field(&p.address)));
    fields.push((String::from_str("change_address"), text_field(&p.change_address)));
    fields.push((String::from_str("melt_authority_address"), text_field(&p.melt_authority_address)));
    fields.push(
        (
            String::from_str("allow_external_melt_authority_address"),
            bool_field(&p.allow_external_melt_authority_address),
        ),
    );
    fields.push((String::from_str("unshiftData"), bool_field(&p.unshift_data)));
    fields.push((String::from_str("data"), list_field(&p.data)));
    proof {
        assert(body_fields_view(fields@) =~~= melt_tokens_body(*p));
    }
    let entries = assemble_body(fields);
    let req = HttpRequest {
        method: Method::Post,
        url,
        wallet_id: Option::Some(p.wallet_id.clone()),
        query: Vec::new(),
        body: Body::Json(HashMapValue::Dict(entries)),
    };
    proof {
        assert(req.query_view() =~= Seq::<(Seq<char>, Seq<char>)>::empty());
    }
    Ok(req)
}

/// The body of the utxo filter command.
pub open spec fn utxo_filter_body(p: ParamsWalletUtxoFilter) -> FieldSeq<JsonData> {
    seq![
        ("max_utxos"@, opt_int(p.max_utxos)),
        ("token"@, opt_text(p.token)),
        ("filter_address"@, opt_text(p.filter_address)),
        ("amount_smaller_than"@, opt_int(p.amount_smaller_than)),
        ("amount_bigger_than"@, opt_int(p.amount_bigger_than)),
        ("maximum_amount"@, opt_int(p.maximum_amount)),
        ("only_available_utxos"@, opt_bool(p.only_available_utxos)),
    ]
}

/// Get utxos matching the given filters: `POST /wallet/utxo-filter`.
pub fn plan_utxo_filter(p: &ParamsWalletUtxoFilter) -> (r: Result<HttpRequest, UrlError>)
    ensures
        plan_frame(
            r,
            p.config.host@,
            "/wallet/utxo-filter"@,
            Method::Post,
            Option::Some(p.wallet_id@),
        ),
        r is Ok ==> r->Ok_0.query_view() == Seq::<(Seq<char>, Seq<char>)>::empty(),
        r is Ok ==> r->Ok_0.body@ == BodyData::Json(JsonData::Obj(assemble(utxo_filter_body(*p)))),
{
    let url = match build_headless_url(&p.config.host, "/wallet/utxo-filter") {
        Ok(u) => u,
        Err(e) => {
            return Err(e);
        },
    };
    let mut fields: Vec<(String, Option<HashMapValue>)> = Vec::new();
    fields.push((String::from_str("max_utxos"), int_field(&p.max_utxos)));
    fields.push((String::from_str("token"), text_field(&p.token)));
    fields.push((String::from_str("filter_address"), text_field(&p.filter_address)));
    fields.push((String::from_str("amount_smaller_than"), int_field(&p.amount_smaller_than)));
    fields.push((String::from_str("amount_bigger_than"), int_field(&p.amount_bigger_than)));
    fields.push((String::from_str("maximum_amount"), int_field(&p.maximum_amount)));
    fields.push((String::from_str("only_available_utxos"), bool_field(&p.only_available_utxos)));
    proof {
        assert(body_fields_view(fields@) =~~= utxo_filter_body(*p));
    }
    let entries = assemble_body(fields);
    let req = HttpRequest {
        method: Method::Post,
        url,
        wallet_id: Option::Some(p.wallet_id.clone()),
        query: Vec::new(),
        body: Body::Json(HashMapValue::Dict(entries)),
    };
    proof {
        assert(req.query_view() =~= Seq::<(Seq<char>, Seq<char>)>::empty());
    }
    Ok(req)
}

/// The body of the utxo consolidation command.
pub open spec fn utxo_consolidation_body(p: ParamsWalletUtxoConsolidation) -> FieldSeq<JsonData> {
    seq![
        ("max_utxos"@, opt_int(p.max_utxos)),
        ("token"@, opt_text(p.token)),
        ("filter_address"@, opt_text(p.filter_address)),
        ("amount_smaller_than"@, opt_int(p.amount_smaller_than)),
        ("amount_bigger_than"@, opt_int(p.amount_bigger_than)),
        ("maximum_amount"@, opt_int(p.maximum_amount)),
    ]
}

/// Consolidate utxos matching the given filters:
/// `POST /wallet/utxo-consolidation`.
pub fn plan_utxo_consolidation(p: &ParamsWalletUtxoConsolidation) -> (r: Result<
    HttpRequest,
    UrlError,
>)
    ensures
        plan_frame(
            r,
            p.config.host@,
            "/wallet/utxo-consolidation"@,
            Method::Post,
            Option::Some(p.wallet_id@),
        ),
        r is Ok ==> r->Ok_0.query_view() == Seq::<(Seq<char>, Seq<char>)>::empty(),
        r is Ok ==> r->Ok_0.body@ == BodyData::Json(
            JsonData::Obj(assemble(utxo_consolidation_body(*p))),
        ),
{
    let url = match build_headless_url(&p.config.host, "/wallet/utxo-consolidation") {
        Ok(u) => u,
        Err(e) => {
            return Err(e);
        },
    };
    let mut fields: Vec<(String, Option<HashMapValue>)> = Vec::new();
    fields.push((String::from_str("max_utxos"), int_field(&p.max_utxos)));
    fields.push((String::from_str("token"), text_field(&p.token)));
    fields.push((String::from_str("filter_address"), text_field(&p.filter_address)));
    fields.push((String::from_str("amount_smaller_than"), int_field(&p.amount_smaller_than)));
    fields.push((String::from_str("amount_bigger_than"), int_field(&p.amount_bigger_than)));
    fields.push((String::from_str("maximum_amount"), int_field(&p.maximum_amount)));
    proof {
        assert(body_fields_view(fields@) =~~= utxo_consolidation_body(*p));
    }
    let entries = assemble_body(fields);
    let req = HttpRequest {
        method: Method::Post,
        url,
        wallet_id: Option::Some(p.wallet_id.clone()),
        query: Vec::new(),
        body: Body::Json(HashMapValue::Dict(entries)),
    };
    proof {
        assert(req.query_view() =~= Seq::<(Seq<char>, Seq<char>)>::empty());
    }
    Ok(req)
}

/// The body of the create nft command.
pub open spec fn create_nft_body(p: ParamsWalletCreateNft) -> FieldSeq<JsonData> {
    seq![
        ("name"@, Option::Some(JsonData::Text(p.name@))),
        ("symbol"@, Option::Some(JsonData::Text(p.symbol@))),
        ("data"@, Option::Some(JsonData::Text(p.data@))),
        ("amount"@, Option::Some(JsonData::Int(p.amount))),
        ("address"@, opt_text(p.address)),
        ("change_address"@, opt_text(p.change_address)),
        ("create_mint"@, opt_bool(p.create_mint)),
        ("mint_authority_address"@, opt_text(p.mint_authority_address)),
        (
            "allow_external_mint_authority_address"@,
            opt_bool(p.allow_external_mint_authority_address),
        ),
        ("create_melt"@, opt_bool(p.create_melt)),
        ("melt_authority_address"@, opt_text(p.melt_authority_address)),
        (
            "allow_external_melt_authority_address"@,
            opt_bool(p.allow_external_melt_authority_address),
        ),
    ]
}

/// Create an NFT: `POST /wallet/create-nft`.
pub fn plan_create_nft(p: &ParamsWalletCreateNft) -> (r: Result<HttpRequest, UrlError>)
    ensures
        plan_frame(
            r,
            p.config.host@,
            "/wallet/create-nft"@,
            Method::Post,
            Option::Some(p.wallet_id@),
        ),
        r is Ok ==> r->Ok_0.query_view() == Seq::<(Seq<char>, Seq<char>)>::empty(),
        r is Ok ==> r->Ok_0.body@ == BodyData::Json(JsonData::Obj(assemble(create_nft_body(*p)))),
{
    let url = match build_headless_url(&p.config.host, "/wallet/create-nft") {
        Ok(u) => u,
        Err(e) => {
            return Err(e);
        },
    };
    let mut fields: Vec<(String, Option<HashMapValue>)> = Vec::new();
    fields.push((String::from_str("name"), Option::Some(HashMapValue::String(p.name.clone()))));
    fields.push((String::from_str("symbol"), Option::Some(HashMapValue::String(p.symbol.clone()))));
    fields.push((String::from_str("data"), Option::Some(HashMapValue::String(p.data.clone()))));
    fields.push((String::from_str("amount"), Option::Some(HashMapValue::Int(p.amount))));
    fields.push((String::from_str("address"), text_field(&p.address)));
    fields.push((String::from_str("change_address"), text_field(&p.change_address)));
    fields.push((String::from_str("create_mint"), bool_field(&p.create_mint)));
    fields.push((String::from_str("mint_authority_address"), text_field(&p.mint_authority_address)));
    fields.push(
        (
            String::from_str("allow_external_mint_authority_address"),
            bool_field(&p.allow_external_mint_authority_address),
        ),
    );
    fields.push((String::from_str("create_melt"), bool_field(&p.create_melt)));
    fields.push((String::from_str("melt_authority_address"), text_field(&p.melt_authority_address)));
    fields.push(
        (
            String::from_str("allow_external_melt_authority_address"),
            bool_field(&p.allow_external_melt_authority_address),
        ),
    );
    proof {
        assert(body_fields_view(fields@) =~~= create_nft_body(*p));
    }
    let entries = assemble_body(fields);
    let req = HttpRequest {
        method: Method::Post,
        url,
        wallet_id: Option::Some(p.wallet_id.clone()),
        query: Vec::new(),
        body: Body::Json(HashMapValue::Dict(entries)),
    };
    proof {
        assert(req.query_view() =~= Seq::<(Seq<char>, Seq<char>)>::empty());
    }
    Ok(req)
}

/// The body of the p2sh get-my-signatures command.
pub open spec fn p2sh_get_my_signatures_body(p: ParamsP2shTxProposalGetMySignatures) -> FieldSeq<
    JsonData,
> {
    seq![("txHex"@, Option::Some(JsonData::Text(p.tx_hex@)))]
}

/// Collect this wallet's signatures for a proposal:
/// `POST /wallet/p2sh/tx-proposal/get-my-signatures`.
pub fn plan_p2sh_txproposal_get_my_signatures(p: &ParamsP2shTxProposalGetMySignatures) -> (r:
    Result<HttpRequest, UrlError>)
    ensures
        plan_frame(
            r,
            p.config.host@,
            "/wallet/p2sh/tx-proposal/get-my-signatures"@,
            Method::Post,
            Option::Some(p.wallet_id@),
        ),
        r is Ok ==> r->Ok_0.query_view() == Seq::<(Seq<char>, Seq<char>)>::empty(),
        r is Ok ==> r->Ok_0.body@ == BodyData::Json(
            JsonData::Obj(assemble(p2sh_get_my_signatures_body(*p))),
        ),
{
    let url = match build_headless_url(&p.config.host, "/wallet/p2sh/tx-proposal/get-my-signatures")
        {
        Ok(u) => u,
        Err(e) => {
            return Err(e);
        },
    };
    let mut fields: Vec<(String, Option<HashMapValue>)> = Vec::new();
    fields.push((String::from_str("txHex"), Option::Some(HashMapValue::String(p.tx_hex.clone()))));
    proof {
        assert(body_fields_view(fields@) =~~= p2sh_get_my_signatures_body(*p));
    }
    let entries = assemble_body(fields);
    let req = HttpRequest {
        method: Method::Post,
        url,
        wallet_id: Option::Some(p.wallet_id.clone()),
        query: Vec::new(),
        body: Body::Json(HashMapValue::Dict(entries)),
    };
    proof {
        assert(req.query_view() =~= Seq::<(Seq<char>, Seq<char>)>::empty());
    }
    Ok(req)
}

/// The body of the p2sh sign and sign-and-push commands.
pub open spec fn p2sh_sign_body(p: ParamsP2shTxProposalSign) -> FieldSeq<JsonData> {
    seq![
        ("txHex"@, Option::Some(JsonData::Text(p.tx_hex@))),
        ("signatures"@, Option::Some(text_list(p.signatures@))),
    ]
}

/// Sign a proposal with the given signatures:
/// `POST /wallet/p2sh/tx-proposal/sign`.
pub fn plan_p2sh_txproposal_sign(p: &ParamsP2shTxProposalSign) -> (r: Result<
    HttpRequest,
    UrlError,
>)
    ensures
        plan_frame(
            r,
            p.config.host@,
            "/wallet/p2sh/tx-proposal/sign"@,
            Method::Post,
            Option::Some(p.wallet_id@),
        ),
        r is Ok ==> r->Ok_0.query_view() == Seq::<(Seq<char>, Seq<char>)>::empty(),
        r is Ok ==> r->Ok_0.body@ == BodyData::Json(JsonData::Obj(assemble(p2sh_sign_body(*p)))),
{
    let url = match build_headless_url(&p.config.host, "/wallet/p2sh/tx-proposal/sign") {
        Ok(u) => u,
        Err(e) => {
            return Err(e);
        },
    };
    let mut fields: Vec<(String, Option<HashMapValue>)> = Vec::new();
    fields.push((String::from_str("txHex"), Option::Some(HashMapValue::String(p.tx_hex.clone()))));
    fields.push((String::from_str("signatures"), Option::Some(list_value(&p.signatures))));
    proof {
        assert(body_fields_view(fields@) =~~= p2sh_sign_body(*p));
    }
    let entries = assemble_body(fields);
    let req = HttpRequest {
        method: Method::Post,
        url,
        wallet_id: Option::Some(p.wallet_id.clone()),
        query: Vec::new(),
        body: Body::Json(HashMapValue::Dict(entries)),
    };
    proof {
        assert(req.query_view() =~= Seq::<(Seq<char>, Seq<char>)>::empty());
    }
    Ok(req)
}

/// Sign a proposal and push the result:
/// `POST /wallet/p2sh/tx-proposal/sign-and-push`, same body as sign.
pub fn plan_p2sh_txproposal_sign_and_push(p: &ParamsP2shTxProposalSign) -> (r: Result<
    HttpRequest,
    UrlError,
>)
    ensures
        plan_frame(
            r,
            p.config.host@,
            "/wallet/p2sh/tx-proposal/sign-and-push"@,
            Method::Post,
            Option::Some(p.wallet_id@),
        ),
        r is Ok ==> r->Ok_0.query_view() == Seq::<(Seq<char>, Seq<char>)>::empty(),
        r is Ok ==> r->Ok_0.body@ == BodyData::Json(JsonData::Obj(assemble(p2sh_sign_body(*p)))),
{
    let url = match build_headless_url(&p.config.host, "/wallet/p2sh/tx-proposal/sign-and-push") {
        Ok(u) => u,
        Err(e) => {
            return Err(e);
        },
    };
    let mut fields: Vec<(String, Option<HashMapValue>)> = Vec::new();
    fields.push((String::from_str("txHex"), Option::Some(HashMapValue::String(p.tx_hex.clone()))));
    fields.push((String::from_str("signatures"), Option::Some(list_value(&p.signatures))));
    proof {
        assert(body_fields_view(fields@) =~~= p2sh_sign_body(*p));
    }
    let entries = assemble_body(fields);
    let req = HttpRequest {
        method: Method::Post,
        url,
        wallet_id: Option::Some(p.wallet_id.clone()),
        query: Vec::new(),
        body: Body::Json(HashMapValue::Dict(entries)),
    };
    proof {
        assert(req.query_view() =~= Seq::<(Seq<char>, Seq<char>)>::empty());
    }
    Ok(req)
}

/// The body of the p2sh create token command.
pub open spec fn p2sh_create_token_body(p: ParamsWalletP2shTxProposalCreateToken) -> FieldSeq<
    JsonData,
> {
    seq![
        ("name"@, Option::Some(JsonData::Text(p.name@))),
        ("symbol"@, Option::Some(JsonData::Text(p.symbol@))),
        ("amount"@, Option::Some(JsonData::Int(p.amount))),
        ("address"@, opt_text(p.address)),
        ("change_address"@, opt_text(p.change_address)),
        ("create_mint"@, opt_bool(p.create_mint)),
        ("mint_authority_address"@, opt_text(p.mint_authority_address)),
        (
            "allow_external_mint_authority_address"@,
            opt_bool(p.allow_external_mint_authority_address),
        ),
        ("create_melt"@, opt_bool(p.create_melt)),
        ("melt_authority_address"@, opt_text(p.melt_authority_address)),
        (
            "allow_external_melt_authority_address"@,
            opt_bool(p.allow_external_melt_authority_address),
        ),
        ("mark_inputs_as_used"@, opt_bool(p.mark_inputs_as_used)),
    ]
}

/// Create a custom token through a p2sh proposal:
/// `POST /wallet/p2sh/tx-proposal/create-token`.
pub fn plan_p2sh_txproposal_create_token(p: &ParamsWalletP2shTxProposalCreateToken) -> (r: Result<
    HttpRequest,
    UrlError,
>)
    ensures
        plan_frame(
            r,
            p.config.host@,
            "/wallet/p2sh/tx-proposal/create-token"@,
            Method::Post,
            Option::Some(p.wallet_id@),
        ),
        r is Ok ==> r->Ok_0.query_view() == Seq::<(Seq<char>, Seq<char>)>::empty(),
        r is Ok ==> r->Ok_0.body@ == BodyData::Json(
            JsonData::Obj(assemble(p2sh_create_token_body(*p))),
        ),
{
    let url = match build_headless_url(&p.config.host, "/wallet/p2sh/tx-proposal/create-token") {
        Ok(u) => u,
        Err(e) => {
            return Err(e);
        },
    };
    let mut fields: Vec<(String, Option<HashMapValue>)> = Vec::new();
    fields.push((String::from_str("name"), Option::Some(HashMapValue::String(p.name.clone()))));
    fields.push((String::from_str("symbol"), Option::Some(HashMapValue::String(p.symbol.clone()))));
    fields.push((String::from_str("amount"), Option::Some(HashMapValue::Int(p.amount))));
    fields.push((String::from_str("address"), text_field(&p.address)));
    fields.push((String::from_str("change_address"), text_field(&p.change_address)));
    fields.push((String::from_str("create_mint"), bool_field(&p.create_mint)));
    fields.push((String::from_str("mint_authority_address"), text_field(&p.mint_authority_address)));
    fields.push(
        (
            String::from_str("allow_external_mint_authority_address"),
            bool_field(&p.allow_external_mint_authority_address),
        ),
    );
    fields.push((String::from_str("create_melt"), bool_field(&p.create_melt)));
    fields.push((String::from_str("melt_authority_address"), text_field(&p.melt_authority_address)));
    fields.push(
        (
            String::from_str("allow_external_melt_authority_address"),
            bool_field(&p.allow_external_melt_authority_address),
        ),
    );
    fields.push((String::from_str("mark_inputs_as_used"), bool_field(&p.mark_inputs_as_used)));
    proof {
        assert(body_fields_view(fields@) =~~= p2sh_create_token_body(*p));
    }
    let entries = assemble_body(fields);
    let req = HttpRequest {
        method: Method::Post,
        url,
        wallet_id: Option::Some(p.wallet_id.clone()),
        query: Vec::new(),
        body: Body::Json(HashMapValue::Dict(entries)),
    };
    proof {
        assert(req.query_view() =~= Seq::<(Seq<char>, Seq<char>)>::empty());
    }
    Ok(req)
}

/// The body of the p2sh mint tokens command.
pub open spec fn p2sh_mint_tokens_body(p: ParamsWalletP2shTxProposalMintTokens) -> FieldSeq<
    JsonData,
> {
    seq![
        ("token"@, Option::Some(JsonData::Text(p.token@))),
        ("amount"@, Option::Some(JsonData::Int(p.amount))),
        ("address"@, opt_text(p.address)),
        ("change_address"@, opt_text(p.change_address)),
        ("create_mint"@, opt_bool(p.create_mint)),
        ("mint_authority_address"@, opt_text(p.mint_authority_address)),
        (
            "allow_external_mint_authority_address"@,
            opt_bool(p.allow_external_mint_authority_address),
        ),
        ("mark_inputs_as_used"@, opt_bool(p.mark_inputs_as_used)),
    ]
}

/// Mint tokens through a p2sh proposal:
/// `POST /wallet/p2sh/tx-proposal/mint-tokens`.
pub fn plan_p2sh_txproposal_mint_tokens(p: &ParamsWalletP2shTxProposalMintTokens) -> (r: Result<
    HttpRequest,
    UrlError,
>)
    ensures
        plan_frame(
            r,
            p.config.host@,
            "/wallet/p2sh/tx-proposal/mint-tokens"@,
            Method::Post,
            Option::Some(p.wallet_id@),
        ),
        r is Ok ==> r->Ok_0.query_view() == Seq::<(Seq<char>, Seq<char>)>::empty(),
        r is Ok ==> r->Ok_0.body@ == BodyData::Json(
            JsonData::Obj(assemble(p2sh_mint_tokens_body(*p))),
        ),
{
    let url = match build_headless_url(&p.config.host, "/wallet/p2sh/tx-proposal/mint-tokens") {
        Ok(u) => u,
        Err(e) => {
            return Err(e);
        },
    };
    let mut fields: Vec<(String, Option<HashMapValue>)> = Vec::new();
    fields.push((String::from_str("token"), Option::Some(HashMapValue::String(p.token.clone()))));
    fields.push((String::from_str("amount"), Option::Some(HashMapValue::Int(p.amount))));
    fields.push((String::from_str("address"), text_field(&p.address)));
    fields.push((String::from_str("change_address"), text_field(&p.change_address)));
    fields.push((String::from_str("create_mint"), bool_field(&p.create_mint)));
    fields.push((String::from_str("mint_authority_address"), text_field(&p.mint_authority_address)));
    fields.push(
        (
            String::from_str("allow_external_mint_authority_address"),
            bool_field(&p.allow_external_mint_authority_address),
        ),
    );
    fields.push((String::from_str("mark_inputs_as_used"), bool_field(&p.mark_inputs_as_used)));
    proof {
        assert(body_fields_view(fields@) =~~= p2sh_mint_tokens_body(*p));
    }
    let entries = assemble_body(fields);
    let req = HttpRequest {
        method: Method::Post,
        url,
        wallet_id: Option::Some(p.wallet_id.clone()),
        query: Vec::new(),
        body: Body::Json(HashMapValue::Dict(entries)),
    };
    proof {
        assert(req.query_view() =~= Seq::<(Seq<char>, Seq<char>)>::empty());
    }
    Ok(req)
}

/// The single output of the p2sh simple send proposal.
pub open spec fn p2sh_simple_send_output(p: ParamsP2shTxProposalBuildSimpleSendTokens) -> FieldSeq<
    JsonData,
> {
    seq![
        ("address"@, Option::Some(JsonData::Text(p.address@))),
        ("value"@, Option::Some(JsonData::Int(p.value))),
        ("token"@, opt_text(p.token)),
    ]
}

/// The body of the p2sh simple send proposal: a single-output transaction.
pub open spec fn p2sh_simple_send_body(p: ParamsP2shTxProposalBuildSimpleSendTokens) -> FieldSeq<
    JsonData,
> {
    seq![
        (
            "outputs"@,
            Option::Some(JsonData::Arr(seq![JsonData::Obj(assemble(p2sh_simple_send_output(p)))])),
        ),
        ("change_address"@, opt_text(p.change_address)),
        ("mark_inputs_as_used"@, opt_bool(p.mark_inputs_as_used)),
    ]
}

/// Build a p2sh proposal sending tokens to one address:
/// `POST /wallet/p2sh/tx-proposal`.
pub fn plan_p2sh_txproposal_build_simple_send_tokens(
    p: &ParamsP2shTxProposalBuildSimpleSendTokens,
) -> (r: Result<HttpRequest, UrlError>)
    ensures
        plan_frame(
            r,
            p.config.host@,
            "/wallet/p2sh/tx-proposal"@,
            Method::Post,
            Option::Some(p.wallet_id@),
        ),
        r is Ok ==> r->Ok_0.query_view() == Seq::<(Seq<char>, Seq<char>)>::empty(),
        r is Ok ==> r->Ok_0.body@ == BodyData::Json(
            JsonData::Obj(assemble(p2sh_simple_send_body(*p))),
        ),
{
    let url = match build_headless_url(&p.config.host, "/wallet/p2sh/tx-proposal") {
        Ok(u) => u,
        Err(e) => {
            return Err(e);
        },
    };
    let mut out_fields: Vec<(String, Option<HashMapValue>)> = Vec::new();
    out_fields.push(
        (String::from_str("address"), Option::Some(HashMapValue::String(p.address.clone()))),
    );
    out_fields.push((String::from_str("value"), Option::Some(HashMapValue::Int(p.value))));
    out_fields.push((String::from_str("token"), text_field(&p.token)));
    proof {
        assert(body_fields_view(out_fields@) =~~= p2sh_simple_send_output(*p));
    }
    let output_entries = assemble_body(out_fields);
    let mut outputs: Vec<HashMapValue> = Vec::new();
    outputs.push(HashMapValue::Dict(output_entries));
    proof {
        reveal_with_fuel(crate::value::json_data_of_list, 2);
        assert(crate::value::json_data_of_list(outputs@) =~~= seq![
            JsonData::Obj(assemble(p2sh_simple_send_output(*p))),
        ]);
    }
    let mut fields: Vec<(String, Option<HashMapValue>)> = Vec::new();
    fields.push((String::from_str("outputs"), Option::Some(HashMapValue::List(outputs))));
    fields.push((String::from_str("change_address"), text_field(&p.change_address)));
    fields.push((String::from_str("mark_inputs_as_used"), bool_field(&p.mark_inputs_as_used)));
    proof {
        assert(body_fields_view(fields@) =~~= p2sh_simple_send_body(*p));
    }
    let entries = assemble_body(fields);
    let req = HttpRequest {
        method: Method::Post,
        url,
        wallet_id: Option::Some(p.wallet_id.clone()),
        query: Vec::new(),
        body: Body::Json(HashMapValue::Dict(entries)),
    };
    proof {
        assert(req.query_view() =~= Seq::<(Seq<char>, Seq<char>)>::empty());
    }
    Ok(req)
}

/// The text the curl command prints: the equivalent command-line
/// invocation for the planned request, with the wallet-id header first and,
/// for a POST with data, the JSON content-type header after it.
pub open spec fn curl_text(p: ParamsCustomCurl, url: Seq<char>) -> Seq<char> {
    let method = if p.post {
        if p.data {
            " -X POST -d '{}'"@
        } else {
            " -X POST"@
        }
    } else {
        Seq::<char>::empty()
    };
    let headers = "-H \"X-Wallet-Id: "@ + p.wallet_id@ + "\""@ + (if p.post && p.data {
        " -H \"Content-Type: application/json\""@
    } else {
        Seq::<char>::empty()
    });
    "curl"@ + method + " "@ + headers + " "@ + url
}

/// Formats the curl invocation equivalent to a request against the given
/// path, without performing any network call.  The same parameters always
/// produce the same text.
pub fn curl_echo(p: &ParamsCustomCurl) -> (r: Result<String, UrlError>)
    ensures
        r is Ok <==> resolved_url(p.config.host@, p.path@) is Some,
        r is Ok ==> r->Ok_0@ == curl_text(*p, resolved_url(p.config.host@, p.path@)->Some_0),
{
    let url = match build_headless_url(&p.config.host, p.path.as_str()) {
        Ok(u) => u,
        Err(e) => {
            return Err(e);
        },
    };
    let mut line = String::new();
    line.append("curl");
    if p.post {
        if p.data {
            line.append(" -X POST -d '{}'");
        } else {
            line.append(" -X POST");
        }
    }
    line.append(" ");
    line.append("-H \"X-Wallet-Id: ");
    line.append(p.wallet_id.as_str());
    line.append("\"");
    if p.post && p.data {
        line.append(" -H \"Content-Type: application/json\"");
    }
    line.append(" ");
    line.append(url.as_str());
    proof {
        assert(line@ =~= curl_text(*p, resolved_url(p.config.host@, p.path@)->Some_0));
    }
    Ok(line)
}

/// No two parameters of the start body share a key.
pub proof fn lemma_start_body_distinct(p: ParamsStart)
    ensures
        distinct_keys(start_body(p)),
{
    reveal_strlit("seedKey");
    reveal_strlit("wallet-id");
    reveal_strlit("passphrase");
    reveal_strlit("scanPolicy");
    reveal_strlit("gapLimit");
    reveal_strlit("policyStartIndex");
    reveal_strlit("policyEndIndex");
    reveal_strlit("history_sync_mode");
    reveal_strlit("multisig");
    reveal_strlit("multisigKey");
    assert(("seedKey"@).len() == 7);
    assert(("wallet-id"@).len() == 9);
    assert(("passphrase"@).len() == 10);
    assert(("scanPolicy"@).len() == 10);
    assert(("gapLimit"@).len() == 8);
    assert(("policyStartIndex"@).len() == 16);
    assert(("policyEndIndex"@).len() == 14);
    assert(("history_sync_mode"@).len() == 17);
    assert(("multisig"@).len() == 8);
    assert(("multisigKey"@).len() == 11);
    assert(("passphrase"@)[0] != ("scanPolicy"@)[0]);
    assert(("gapLimit"@)[0] != ("multisig"@)[0]);
}

/// An optional parameter of the start command that was not supplied never
/// appears as a key of the JSON body; a supplied one appears exactly once,
/// bound to exactly the supplied value.  The multisig key travels only for
/// a multisig wallet.
pub proof fn lemma_start_body_optional_fields(p: ParamsStart)
    ensures
        p.passphrase is None ==> key_count(assemble(start_body(p)), "passphrase"@) == 0,
        p.passphrase is Some ==> key_count(assemble(start_body(p)), "passphrase"@) == 1
            && key_value(assemble(start_body(p)), "passphrase"@) == Option::Some(
            JsonData::Text(p.passphrase->Some_0@),
        ),
        p.scan_policy is None ==> key_count(assemble(start_body(p)), "scanPolicy"@) == 0,
        p.scan_policy is Some ==> key_count(assemble(start_body(p)), "scanPolicy"@) == 1
            && key_value(assemble(start_body(p)), "scanPolicy"@) == Option::Some(
            JsonData::Text(p.scan_policy->Some_0@),
        ),
        p.gap_limit is None ==> key_count(assemble(start_body(p)), "gapLimit"@) == 0,
        p.gap_limit is Some ==> key_count(assemble(start_body(p)), "gapLimit"@) == 1 && key_value(
            assemble(start_body(p)),
            "gapLimit"@,
        ) == Option::Some(JsonData::Int(p.gap_limit->Some_0)),
        p.policy_start_index is None ==> key_count(
            assemble(start_body(p)),
            "policyStartIndex"@,
        ) == 0,
        p.policy_start_index is Some ==> key_count(assemble(start_body(p)), "policyStartIndex"@)
            == 1 && key_value(assemble(start_body(p)), "policyStartIndex"@) == Option::Some(
            JsonData::Int(p.policy_start_index->Some_0),
        ),
        p.policy_end_index is None ==> key_count(assemble(start_body(p)), "policyEndIndex"@) == 0,
        p.policy_end_index is Some ==> key_count(assemble(start_body(p)), "policyEndIndex"@) == 1
            && key_value(assemble(start_body(p)), "policyEndIndex"@) == Option::Some(
            JsonData::Int(p.policy_end_index->Some_0),
        ),
        p.history_sync_mode is None ==> key_count(
            assemble(start_body(p)),
            "history_sync_mode"@,
        ) == 0,
        p.history_sync_mode is Some ==> key_count(assemble(start_body(p)), "history_sync_mode"@)
            == 1 && key_value(assemble(start_body(p)), "history_sync_mode"@) == Option::Some(
            JsonData::Text(p.history_sync_mode->Some_0@),
        ),
        !p.multisig ==> key_count(assemble(start_body(p)), "multisig"@) == 0 && key_count(
            assemble(start_body(p)),
            "multisigKey"@,
        ) == 0,
        p.multisig ==> key_count(assemble(start_body(p)), "multisig"@) == 1 && key_value(
            assemble(start_body(p)),
            "multisig"@,
        ) == Option::Some(JsonData::Bool(true)),
        p.multisig && p.multisig_key is None ==> key_count(
            assemble(start_body(p)),
            "multisigKey"@,
        ) == 0,
        p.multisig && p.multisig_key is Some ==> key_count(assemble(start_body(p)), "multisigKey"@)
            == 1 && key_value(assemble(start_body(p)), "multisigKey"@) == Option::Some(
            JsonData::Text(p.multisig_key->Some_0@),
        ),
{
    lemma_start_body_distinct(p);
    let fields = start_body(p);
    lemma_field_presence(fields, 2);
    lemma_field_presence(fields, 3);
    lemma_field_presence(fields, 4);
    lemma_field_presence(fields, 5);
    lemma_field_presence(fields, 6);
    lemma_field_presence(fields, 7);
    lemma_field_presence(fields, 8);
    lemma_field_presence(fields, 9);
}

/// No two parameters of the create-token body share a key.
pub proof fn lemma_create_token_body_distinct(p: ParamsWalletCreateToken)
    ensures
        distinct_keys(create_token_body(p)),
{
    reveal_strlit("name");
    reveal_strlit("symbol");
    reveal_strlit("amount");
    reveal_strlit("address");
    reveal_strlit("change_address");
    reveal_strlit("create_mint");
    reveal_strlit("mint_authority_address");
    reveal_strlit("allow_external_mint_authority_address");
    reveal_strlit("create_melt");
    reveal_strlit("melt_authority_address");
    reveal_strlit("allow_external_melt_authority_address");
    reveal_strlit("data");
    assert(("name"@).len() == 4);
    assert(("symbol"@).len() == 6);
    assert(("amount"@).len() == 6);
    assert(("address"@).len() == 7);
    assert(("change_address"@).len() == 14);
    assert(("create_mint"@).len() == 11);
    assert(("mint_authority_address"@).len() == 22);
    assert(("allow_external_mint_authority_address"@).len() == 37);
    assert(("create_melt"@).len() == 11);
    assert(("melt_authority_address"@).len() == 22);
    assert(("allow_external_melt_authority_address"@).len() == 37);
    assert(("data"@).len() == 4);
    assert(("name"@)[0] != ("data"@)[0]);
    assert(("symbol"@)[0] != ("amount"@)[0]);
    assert(("create_mint"@)[8] != ("create_melt"@)[8]);
    assert(("mint_authority_address"@)[1] != ("melt_authority_address"@)[1]);
    assert(("allow_external_mint_authority_address"@)[16] != (
    "allow_external_melt_authority_address"@)[16]);
}

/// An optional parameter of the create-token command that was not supplied
/// never appears as a key of the JSON body; a supplied one appears exactly
/// once, bound to exactly the supplied value.
pub proof fn lemma_create_token_body_optional_fields(p: ParamsWalletCreateToken)
    ensures
        p.address is None ==> key_count(assemble(create_token_body(p)), "address"@) == 0,
        p.address is Some ==> key_count(assemble(create_token_body(p)), "address"@) == 1
            && key_value(assemble(create_token_body(p)), "address"@) == Option::Some(
            JsonData::Text(p.address->Some_0@),
        ),
        p.change_address is None ==> key_count(
            assemble(create_token_body(p)),
            "change_address"@,
        ) == 0,
        p.change_address is Some ==> key_count(assemble(create_token_body(p)), "change_address"@)
            == 1 && key_value(assemble(create_token_body(p)), "change_address"@) == Option::Some(
            JsonData::Text(p.change_address->Some_0@),
        ),
        p.create_mint is None ==> key_count(assemble(create_token_body(p)), "create_mint"@) == 0,
        p.create_mint is Some ==> key_count(assemble(create_token_body(p)), "create_mint"@) == 1
            && key_value(assemble(create_token_body(p)), "create_mint"@) == Option::Some(
            JsonData::Bool(p.create_mint->Some_0),
        ),
        p.mint_authority_address is None ==> key_count(
            assemble(create_token_body(p)),
            "mint_authority_address"@,
        ) == 0,
        p.mint_authority_address is Some ==> key_count(
            assemble(create_token_body(p)),
            "mint_authority_address"@,
        ) == 1 && key_value(assemble(create_token_body(p)), "mint_authority_address"@)
            == Option::Some(JsonData::Text(p.mint_authority_address->Some_0@)),
        p.allow_external_mint_authority_address is None ==> key_count(
            assemble(create_token_body(p)),
            "allow_external_mint_authority_address"@,
        ) == 0,
        p.allow_external_mint_authority_address is Some ==> key_count(
            assemble(create_token_body(p)),
            "allow_external_mint_authority_address"@,
        ) == 1 && key_value(assemble(create_token_body(p)), "allow_external_mint_authority_address"@)
            == Option::Some(JsonData::Bool(p.allow_external_mint_authority_address->Some_0)),
        p.create_melt is None ==> key_count(assemble(create_token_body(p)), "create_melt"@) == 0,
        p.create_melt is Some ==> key_count(assemble(create_token_body(p)), "create_melt"@) == 1
            && key_value(assemble(create_token_body(p)), "create_melt"@) == Option::Some(
            JsonData::Bool(p.create_melt->Some_0),
        ),
        p.melt_authority_address is None ==> key_count(
            assemble(create_token_body(p)),
            "melt_authority_address"@,
        ) == 0,
        p.melt_authority_address is Some ==> key_count(
            assemble(create_token_body(p)),
            "melt_authority_address"@,
        ) == 1 && key_value(assemble(create_token_body(p)), "melt_authority_address"@)
            == Option::Some(JsonData::Text(p.melt_authority_address->Some_0@)),
        p.allow_external_melt_authority_address is None ==> key_count(
            assemble(create_token_body(p)),
            "allow_external_melt_authority_address"@,
        ) == 0,
        p.allow_external_melt_authority_address is Some ==> key_count(
            assemble(create_token_body(p)),
            "allow_external_melt_authority_address"@,
        ) == 1 && key_value(assemble(create_token_body(p)), "allow_external_melt_authority_address"@)
            == Option::Some(JsonData::Bool(p.allow_external_melt_authority_address->Some_0)),
        p.data is None ==> key_count(assemble(create_token_body(p)), "data"@) == 0,
        p.data is Some ==> key_count(assemble(create_token_body(p)), "data"@) == 1 && key_value(
            assemble(create_token_body(p)),
            "data"@,
        ) == Option::Some(text_list(p.data->Some_0@)),
{
    lemma_create_token_body_distinct(p);
    let fields = create_token_body(p);
    lemma_field_presence(fields, 3);
    lemma_field_presence(fields, 4);
    lemma_field_presence(fields, 5);
    lemma_field_presence(fields, 6);
    lemma_field_presence(fields, 7);
    lemma_field_presence(fields, 8);
    lemma_field_presence(fields, 9);
    lemma_field_presence(fields, 10);
    lemma_field_presence(fields, 11);
}

/// An optional parameter of the address command that was not supplied never
/// appears in the query string; a supplied one appears exactly once, with
/// its rendered value.
pub proof fn lemma_address_query_optional_fields(p: ParamsWalletAddress)
    ensures
        distinct_keys(address_query(p)),
        p.index is None ==> key_count(assemble(address_query(p)), "index"@) == 0,
        p.index is Some ==> key_count(assemble(address_query(p)), "index"@) == 1 && key_value(
            assemble(address_query(p)),
            "index"@,
        ) == Option::Some(dec_rep(p.index->Some_0 as nat)),
        p.mark_as_used is None ==> key_count(assemble(address_query(p)), "mark_as_used"@) == 0,
        p.mark_as_used is Some ==> key_count(assemble(address_query(p)), "mark_as_used"@) == 1
            && key_value(assemble(address_query(p)), "mark_as_used"@) == Option::Some(
            bool_str(p.mark_as_used->Some_0),
        ),
{
    reveal_strlit("index");
    reveal_strlit("mark_as_used");
    assert(("index"@).len() == 5);
    assert(("mark_as_used"@).len() == 12);
    let fields = address_query(p);
    lemma_field_presence(fields, 0);
    lemma_field_presence(fields, 1);
}

} // verus!
