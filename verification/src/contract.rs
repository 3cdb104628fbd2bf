//! The hub's decisions: from its stored state, the caller and what outside
//! calls answered, to its next state and its response.
//!
//! Loading and saving the state, and validating addresses against the
//! chain, are done by the caller; the functions here take the answers of
//! `addr_validate` as arguments and say what they do for each of them.
use vstd::prelude::*;
use vstd::utf8::encode_utf8;
use cosmwasm_std::StdError;
use crate::chain::{
    balances_view, bytes_to_array32, cw20_instantiate_binary, MarketingInfo, cw20_mint_binary, cw721_instantiate_binary,
    execute_reply_data, instantiate_reply_address, json_cw20_instantiate, json_cw20_mint,
    json_cw721_instantiate, json_u32, opt_bytes, parse_reply_execute_data,
    parse_reply_instantiate_data, u32_from_binary, ParseReplyError, ParseReplyErrorView,
};
use crate::error::ContractError;
use crate::msg::{GetStateResponse, InstantiateMsg};
use crate::randomness::{
    first_sub_randomness, json_randomness_request, max_job_id_len, nois_first_sub_randomness,
    randomness_request_binary,
};
use crate::response::{
    coin, coins_view, has_coins, plain_message, reply_on_success, spec_has_coins, Coin, CoinView,
    Reply, ReplyOn, Response, ResponseView, SubMsg, SubMsgView, WasmMsg, WasmMsgView,
};
use crate::state::{opt_addr, Configuration, ConfigurationView, HubState, HubStateView};
use crate::text::{decimal, json_string, lemma_concat_regroup, push_json_string, u32_to_decimal};
use crate::utils::{make_mint_submsgs, spec_mint_submsgs};

verus! {

/// Whether `sender` is the hub's admin.
pub open spec fn is_admin(s: HubStateView, sender: Seq<char>) -> bool {
    s.config.admin == sender
}

/// Whether `r` is the standard error `e`.
pub open spec fn is_std_err<T>(r: Result<T, ContractError>, e: StdError) -> bool {
    r matches Err(ContractError::Std(x)) && x == e
}

/// A response that only reports the given attributes.
pub open spec fn attributes_only(attributes: Seq<(Seq<char>, Seq<char>)>) -> ResponseView {
    ResponseView { messages: Seq::empty(), attributes }
}

/// The admin an instantiation asks for: the one named, or else the sender.
pub open spec fn spec_admin_candidate(sender: Seq<char>, admin: Option<String>) -> Seq<char> {
    match admin {
        Some(a) => a@,
        None => sender,
    }
}

/// The state right after instantiation: no faucet yet, both NFT counters
/// and the job number at 1.
pub open spec fn spec_initial_state(admin: Seq<char>, nois_beacon: Seq<char>) -> HubStateView {
    HubStateView {
        config: ConfigurationView {
            admin,
            neon_peepz_addy: None,
            shitty_kittyz_addy: None,
            cw20_one_faucet_addy: None,
            cw20_two_faucet_addy: None,
            cw20_tre_faucet_addy: None,
            nois_beacon,
        },
        np_count: 1,
        sk_count: 1,
        job_increment: 1,
    }
}

/// The admin an instantiation asks for; the caller validates it and hands
/// the answer to [`instantiate`].
pub fn instantiate_admin(sender: &String, msg: &InstantiateMsg) -> (a: String)
    ensures
        a@ == spec_admin_candidate(sender@, msg.admin),
        msg.admin matches Some(named) ==> a@ == named@,
        msg.admin is None ==> a@ == sender@,
{
    match &msg.admin {
        Some(a) => a.clone(),
        None => sender.clone(),
    }
}

/// Instantiates the hub. `admin_check` is what `addr_validate` answered for
/// [`instantiate_admin`], `nois_proxy_check` what it answered for
/// `msg.nois_proxy`.
pub fn instantiate(
    sender: &String,
    msg: &InstantiateMsg,
    admin_check: Result<String, StdError>,
    nois_proxy_check: Result<String, StdError>,
) -> (r: Result<(HubState, Response), ContractError>)
    ensures
        admin_check matches Err(e) ==> is_std_err(r, e),
        admin_check is Ok && nois_proxy_check is Err ==> r == Err::<(HubState, Response), ContractError>(
            ContractError::InvalidProxyAddress,
        ),
        match (admin_check, nois_proxy_check) {
            (Ok(a), Ok(p)) => r matches Ok((s, resp)) && s@ == spec_initial_state(a@, p@) && resp@
                == attributes_only(
                seq![("method"@, "instantiate"@), ("admin"@, spec_admin_candidate(sender@, msg.admin))],
            ),
            _ => true,
        },
{
    let admin = instantiate_admin(sender, msg);
    let validated = match admin_check {
        Ok(a) => a,
        Err(e) => return Err(ContractError::Std(e)),
    };
    let nois_proxy_addr = match nois_proxy_check {
        Ok(p) => p,
        Err(_) => return Err(ContractError::InvalidProxyAddress),
    };
    let state = HubState {
        config: Configuration {
            admin: validated,
            neon_peepz_addy: None,
            shitty_kittyz_addy: None,
            cw20_one_faucet_addy: None,
            cw20_two_faucet_addy: None,
            cw20_tre_faucet_addy: None,
            nois_beacon: nois_proxy_addr,
        },
        np_count: 1,
        sk_count: 1,
        job_increment: 1,
    };
    let resp = Response::new().add_attribute("method".to_owned(), "instantiate".to_owned()).add_attribute(
        "admin".to_owned(),
        admin,
    );
    assert(resp@.attributes =~= seq![("method"@, "instantiate"@), ("admin"@, spec_admin_candidate(sender@, msg.admin))]);
    Ok((state, resp))
}

/// The state with another admin.
pub open spec fn with_admin(s: HubStateView, admin: Seq<char>) -> HubStateView {
    HubStateView { config: ConfigurationView { admin, ..s.config }, ..s }
}

/// The state with another Nois proxy.
pub open spec fn with_nois_beacon(s: HubStateView, nois_beacon: Seq<char>) -> HubStateView {
    HubStateView { config: ConfigurationView { nois_beacon, ..s.config }, ..s }
}

/// The admin hands the hub to a new admin. `new_admin_check` is what
/// `addr_validate` answered for `new_admin`.
pub fn execute_update_admin(
    state: HubState,
    sender: &String,
    new_admin: String,
    new_admin_check: Result<String, StdError>,
) -> (r: Result<(HubState, Response), ContractError>)
    ensures
        !is_admin(state@, sender@) ==> r == Err::<(HubState, Response), ContractError>(
            ContractError::Unauthorized {},
        ),
        is_admin(state@, sender@) ==> match new_admin_check {
            Err(e) => is_std_err(r, e),
            Ok(a) => r matches Ok((s, resp)) && s@ == with_admin(state@, a@) && resp@
                == attributes_only(seq![("new_admin"@, new_admin@)]),
        },
{
    if state.config.admin != *sender {
        return Err(ContractError::Unauthorized {});
    }
    let new_adminz = match new_admin_check {
        Ok(a) => a,
        Err(e) => return Err(ContractError::Std(e)),
    };
    let mut state = state;
    state.config.admin = new_adminz;
    let resp = Response::new().add_attribute("new_admin".to_owned(), new_admin);
    assert(resp@.attributes =~= seq![("new_admin"@, new_admin@)]);
    Ok((state, resp))
}

/// The admin points the hub at another Nois proxy. `new_addr_check` is what
/// `addr_validate` answered for `new_addr`.
pub fn execute_update_nois(
    state: HubState,
    sender: &String,
    new_addr: String,
    new_addr_check: Result<String, StdError>,
) -> (r: Result<(HubState, Response), ContractError>)
    ensures
        !is_admin(state@, sender@) ==> r == Err::<(HubState, Response), ContractError>(
            ContractError::Unauthorized {},
        ),
        is_admin(state@, sender@) ==> match new_addr_check {
            Err(e) => is_std_err(r, e),
            Ok(a) => r matches Ok((s, resp)) && s@ == with_nois_beacon(state@, a@) && resp@
                == attributes_only(seq![("update_nois"@, "new_addr: "@ + new_addr@)]),
        },
{
    if state.config.admin != *sender {
        return Err(ContractError::Unauthorized {});
    }
    let validated_nois = match new_addr_check {
        Ok(a) => a,
        Err(e) => return Err(ContractError::Std(e)),
    };
    let mut state = state;
    state.config.nois_beacon = validated_nois;
    let value = "new_addr: ".to_owned().concat(new_addr.as_str());
    let resp = Response::new().add_attribute("update_nois".to_owned(), value);
    assert(resp@.attributes =~= seq![("update_nois"@, "new_addr: "@ + new_addr@)]);
    Ok((state, resp))
}


/// The response that asks the chain to instantiate a faucet contract from
/// `code_id` with the message bytes `msg`, with a reply carrying `id` when
/// it succeeds.
pub open spec fn spec_instantiate_faucet(
    attr_key: Seq<char>,
    id: u64,
    admin: Option<Seq<char>>,
    code_id: u64,
    msg: Seq<u8>,
    label: Seq<char>,
) -> ResponseView {
    ResponseView {
        messages: seq![
            reply_on_success(
                id,
                WasmMsgView::Instantiate { admin, code_id, msg, funds: Seq::empty(), label },
            ),
        ],
        attributes: seq![(attr_key, "innit"@)],
    }
}

/// What an admin-only call that asks for a faucet answers: `Unauthorized`
/// for anyone but the admin, the expected response for the admin.
pub open spec fn faucet_answer(
    state: HubStateView,
    sender: Seq<char>,
    r: Result<Response, ContractError>,
    expected: ResponseView,
) -> bool {
    &&& !is_admin(state, sender) ==> r == Err::<Response, ContractError>(ContractError::Unauthorized {})
    &&& is_admin(state, sender) ==> (r matches Ok(resp) && resp@ == expected)
}

fn instantiate_faucet_response(
    attr_key: &str,
    id: u64,
    admin: Option<String>,
    code_id: u64,
    msg: Vec<u8>,
    label: &str,
) -> (resp: Response)
    ensures
        resp@ == spec_instantiate_faucet(
            attr_key@,
            id,
            opt_addr(admin),
            code_id,
            msg@,
            label@,
        ),
{
    let ghost admin_view = opt_addr(admin);
    let funds: Vec<Coin> = Vec::new();
    let sub_msg = SubMsg {
        id,
        msg: WasmMsg::Instantiate { admin, code_id, msg, funds, label: label.to_owned() },
        gas_limit: None,
        reply_on: ReplyOn::Success,
    };
    let resp = Response::new().add_attribute(attr_key.to_owned(), "innit".to_owned()).add_submessage(sub_msg);
    assert(coins_view(funds@) =~= Seq::empty());
    assert(resp@.messages =~= spec_instantiate_faucet(attr_key@, id, admin_view, code_id, msg@, label@).messages);
    assert(resp@.attributes =~= seq![(attr_key@, "innit"@)]);
    resp
}

fn add_nft_faucet(
    state: &HubState,
    contract_address: &String,
    sender: &String,
    code_id: u64,
    name: &str,
    symbol: &str,
    label: &str,
    attr_key: &str,
    id: u64,
) -> (r: Result<Response, ContractError>)
    ensures
        faucet_answer(
            state@,
            sender@,
            r,
            spec_instantiate_faucet(
                attr_key@,
                id,
                None,
                code_id,
                encode_utf8(json_cw721_instantiate(name@, symbol@, contract_address@)),
                label@,
            ),
        ),
{
    if state.config.admin != *sender {
        return Err(ContractError::Unauthorized {});
    }
    let bin_cw721_init_msg = match cw721_instantiate_binary(name, symbol, contract_address) {
        Ok(b) => b,
        Err(e) => return Err(ContractError::Std(e)),
    };
    Ok(instantiate_faucet_response(attr_key, id, None, code_id, bin_cw721_init_msg, label))
}

fn add_cw20_faucet(
    state: &HubState,
    contract_address: &String,
    sender: &String,
    code_id: u64,
    name: &str,
    symbol: &str,
    label: &str,
    attr_key: &str,
    id: u64,
) -> (r: Result<Response, ContractError>)
    ensures
        faucet_answer(
            state@,
            sender@,
            r,
            spec_instantiate_faucet(
                attr_key@,
                id,
                Some(state@.config.admin),
                code_id,
                encode_utf8(
                    json_cw20_instantiate(
                        name@,
                        symbol@,
                        6,
                        Seq::empty(),
                        Some((contract_address@, None)),
                        None,
                    ),
                ),
                label@,
            ),
        ),
{
    if state.config.admin != *sender {
        return Err(ContractError::Unauthorized {});
    }
    // No pre-mint, the hub as the only minter with no cap, no marketing info.
    let initial_balances: Vec<(String, u128)> = Vec::new();
    let mint = Some((contract_address.clone(), None));
    let marketing: Option<MarketingInfo> = None;
    assert(balances_view(initial_balances@) =~= Seq::empty());
    let bin_cw20_init_msg = match cw20_instantiate_binary(name, symbol, 6, &initial_balances, &mint, &marketing) {
        Ok(b) => b,
        Err(e) => return Err(ContractError::Std(e)),
    };
    let admin = Some(state.config.admin.clone());
    Ok(instantiate_faucet_response(attr_key, id, admin, code_id, bin_cw20_init_msg, label))
}

/// The admin asks the chain to instantiate the NeoNPeePz cw721 contract from
/// `code_id`, with the hub (`contract_address`) as its minter; reply id 1
/// stores its address.
pub fn execute_add_faucet_neon_peepz(
    state: &HubState,
    contract_address: &String,
    sender: &String,
    code_id: u64,
) -> (r: Result<Response, ContractError>)
    ensures
        faucet_answer(
            state@,
            sender@,
            r,
            spec_instantiate_faucet(
                "Instantiate NeonPeepz faucet from Hub"@,
                instantiate_reply_id(Faucet::NeonPeepz),
                None,
                code_id,
                encode_utf8(json_cw721_instantiate("NeoNPeePz"@, "NEONPEEPZ"@, contract_address@)),
                "NeoNPeePz Contract"@,
            ),
        ),
{
    add_nft_faucet(
        state,
        contract_address,
        sender,
        code_id,
        "NeoNPeePz",
        "NEONPEEPZ",
        "NeoNPeePz Contract",
        "Instantiate NeonPeepz faucet from Hub",
        1,
    )
}

/// The admin asks the chain to instantiate the ShittyKittyz cw721 contract from
/// `code_id`, with the hub (`contract_address`) as its minter; reply id 2
/// stores its address.
pub fn execute_add_faucet_shitty_kittyz(
    state: &HubState,
    contract_address: &String,
    sender: &String,
    code_id: u64,
) -> (r: Result<Response, ContractError>)
    ensures
        faucet_answer(
            state@,
            sender@,
            r,
            spec_instantiate_faucet(
                "Instantiate ShittyKittyz faucet from Hub"@,
                instantiate_reply_id(Faucet::ShittyKittyz),
                None,
                code_id,
                encode_utf8(json_cw721_instantiate("ShittyKittyz"@, "SHITKIT"@, contract_address@)),
                "Shitty Kittyz Contract"@,
            ),
        ),
{
    add_nft_faucet(
        state,
        contract_address,
        sender,
        code_id,
        "ShittyKittyz",
        "SHITKIT",
        "Shitty Kittyz Contract",
        "Instantiate ShittyKittyz faucet from Hub",
        2,
    )
}

/// The admin asks the chain to instantiate the $JVONE cw20 contract from
/// `code_id`: 6 decimals, no initial balance, the hub (`contract_address`)
/// as its uncapped minter and the hub's admin as its admin; reply id 11
/// stores its address.
pub fn execute_add_faucet_cw20(
    state: &HubState,
    contract_address: &String,
    sender: &String,
    code_id: u64,
) -> (r: Result<Response, ContractError>)
    ensures
        faucet_answer(
            state@,
            sender@,
            r,
            spec_instantiate_faucet(
                "Instantiate JV-One from Hub"@,
                instantiate_reply_id(Faucet::Cw20One),
                Some(state@.config.admin),
                code_id,
                encode_utf8(
                    json_cw20_instantiate(
                        "JV-One"@,
                        "JVONE"@,
                        6,
                        Seq::empty(),
                        Some((contract_address@, None)),
                        None,
                    ),
                ),
                "JV-One cw20 contract"@,
            ),
        ),
{
    add_cw20_faucet(
        state,
        contract_address,
        sender,
        code_id,
        "JV-One",
        "JVONE",
        "JV-One cw20 contract",
        "Instantiate JV-One from Hub",
        11,
    )
}

/// The admin asks the chain to instantiate the $JVTWO cw20 contract from
/// `code_id`: 6 decimals, no initial balance, the hub (`contract_address`)
/// as its uncapped minter and the hub's admin as its admin; reply id 12
/// stores its address.
pub fn execute_add_faucet_cw20_two(
    state: &HubState,
    contract_address: &String,
    sender: &String,
    code_id: u64,
) -> (r: Result<Response, ContractError>)
    ensures
        faucet_answer(
            state@,
            sender@,
            r,
            spec_instantiate_faucet(
                "Instantiate JV-Two from Hub"@,
                instantiate_reply_id(Faucet::Cw20Two),
                Some(state@.config.admin),
                code_id,
                encode_utf8(
                    json_cw20_instantiate(
                        "JV-Two"@,
                        "JVTWO"@,
                        6,
                        Seq::empty(),
                        Some((contract_address@, None)),
                        None,
                    ),
                ),
                "JV-Two cw20 contract"@,
            ),
        ),
{
    add_cw20_faucet(
        state,
        contract_address,
        sender,
        code_id,
        "JV-Two",
        "JVTWO",
        "JV-Two cw20 contract",
        "Instantiate JV-Two from Hub",
        12,
    )
}

/// The admin asks the chain to instantiate the $JVTRE cw20 contract from
/// `code_id`: 6 decimals, no initial balance, the hub (`contract_address`)
/// as its uncapped minter and the hub's admin as its admin; reply id 13
/// stores its address.
pub fn execute_add_faucet_cw20_tre(
    state: &HubState,
    contract_address: &String,
    sender: &String,
    code_id: u64,
) -> (r: Result<Response, ContractError>)
    ensures
        faucet_answer(
            state@,
            sender@,
            r,
            spec_instantiate_faucet(
                "Instantiate JV-Tre from Hub"@,
                instantiate_reply_id(Faucet::Cw20Tre),
                Some(state@.config.admin),
                code_id,
                encode_utf8(
                    json_cw20_instantiate(
                        "JV-Tre"@,
                        "JVTRE"@,
                        6,
                        Seq::empty(),
                        Some((contract_address@, None)),
                        None,
                    ),
                ),
                "JV-Tre cw20 contract"@,
            ),
        ),
{
    add_cw20_faucet(
        state,
        contract_address,
        sender,
        code_id,
        "JV-Tre",
        "JVTRE",
        "JV-Tre cw20 contract",
        "Instantiate JV-Tre from Hub",
        13,
    )
}

/// The fee that lets anyone hit a faucet: 5 junox.
pub open spec fn faucet_fee() -> CoinView {
    CoinView { denom: "ujunox"@, amount: 5000000 }
}

/// Whether `sender` may hit a faucet: it pays the fee, or it is the admin.
pub open spec fn may_hit_faucet(s: HubStateView, sender: Seq<char>, funds: Seq<CoinView>) -> bool {
    spec_has_coins(funds, faucet_fee()) || is_admin(s, sender)
}

/// The message that mints 69 tokens (of 6 decimals) of a cw20 faucet to
/// `recipient`.
pub open spec fn cw20_mint_message(faucet: Seq<char>, recipient: Seq<char>) -> SubMsgView {
    plain_message(
        WasmMsgView::Execute {
            contract_addr: faucet,
            msg: encode_utf8(json_cw20_mint(recipient, 69000000)),
            funds: Seq::empty(),
        },
    )
}

/// The response to a paid hit of the cw20 faucets: one mint on each.
pub open spec fn spec_cw20_mints(one: Seq<char>, two: Seq<char>, tre: Seq<char>, recipient: Seq<char>) -> ResponseView {
    ResponseView {
        messages: seq![
            cw20_mint_message(one, recipient),
            cw20_mint_message(two, recipient),
            cw20_mint_message(tre, recipient),
        ],
        attributes: seq![("Hit jv20 faucets"@, "JVONE JVTWO JVTRE"@)],
    }
}

fn cw20_mint(faucet: &String, recipient: &String) -> (r: Result<WasmMsg, ContractError>)
    ensures
        r matches Ok(m) && plain_message(m@) == cw20_mint_message(faucet@, recipient@),
{
    let bin = match cw20_mint_binary(recipient, 69000000) {
        Ok(b) => b,
        Err(e) => return Err(ContractError::Std(e)),
    };
    let funds: Vec<Coin> = Vec::new();
    assert(coins_view(funds@) =~= Seq::empty());
    Ok(WasmMsg::Execute { contract_addr: faucet.clone(), msg: bin, funds })
}

/// Mints 69 tokens of each cw20 faucet to the sender, who pays the fee in
/// `funds` or is the admin.
pub fn execute_hit_faucet_cw20s(state: &HubState, sender: &String, funds: &Vec<Coin>) -> (r: Result<
    Response,
    ContractError,
>)
    ensures
        ({
            let c = state@.config;
            if c.cw20_one_faucet_addy is None || c.cw20_two_faucet_addy is None
                || c.cw20_tre_faucet_addy is None {
                r == Err::<Response, ContractError>(ContractError::NoFaucetAddy {})
            } else if !may_hit_faucet(state@, sender@, coins_view(funds@)) {
                r == Err::<Response, ContractError>(ContractError::Unauthorized {})
            } else {
                r matches Ok(resp) && resp@ == spec_cw20_mints(
                    c.cw20_one_faucet_addy->0,
                    c.cw20_two_faucet_addy->0,
                    c.cw20_tre_faucet_addy->0,
                    sender@,
                )
            }
        }),
{
    let jv_one_faucet = match &state.config.cw20_one_faucet_addy {
        Some(a) => a,
        None => return Err(ContractError::NoFaucetAddy {}),
    };
    let jv_two_faucet = match &state.config.cw20_two_faucet_addy {
        Some(a) => a,
        None => return Err(ContractError::NoFaucetAddy {}),
    };
    let jv_tre_faucet = match &state.config.cw20_tre_faucet_addy {
        Some(a) => a,
        None => return Err(ContractError::NoFaucetAddy {}),
    };
    let cost_juno = coin(5000000, "ujunox");
    if !has_coins(funds, &cost_juno) && *sender != state.config.admin {
        return Err(ContractError::Unauthorized {});
    }
    let jvone = cw20_mint(jv_one_faucet, sender)?;
    let jvtwo = cw20_mint(jv_two_faucet, sender)?;
    let jvtre = cw20_mint(jv_tre_faucet, sender)?;
    let resp = Response::new().add_attribute("Hit jv20 faucets".to_owned(), "JVONE JVTWO JVTRE".to_owned())
        .add_message(jvone).add_message(jvtwo).add_message(jvtre);
    assert(resp@.messages =~= spec_cw20_mints(
        jv_one_faucet@,
        jv_two_faucet@,
        jv_tre_faucet@,
        sender@,
    ).messages);
    assert(resp@.attributes =~= seq![("Hit jv20 faucets"@, "JVONE JVTWO JVTRE"@)]);
    Ok(resp)
}

/// What the hub asks the Nois proxy for, and reads back from its callback:
/// the user's address (`ad`) and the job number (`id`). The full field names
/// would make the job id longer than the proxy accepts.
#[derive(Clone, Debug, PartialEq)]
pub struct JobId {
    pub ad: String,
    pub id: u32,
}

/// The JSON text of a job id, its fields in declaration order, as
/// serde_json_wasm writes it.
pub open spec fn json_job_id(ad: Seq<char>, id: u32) -> Seq<char> {
    "{\"ad\":"@ + json_string(ad) + ",\"id\":"@ + decimal(id as nat) + "}"@
}

/// The JSON text of a job id.
pub fn job_id_json(job: &JobId) -> (s: String)
    ensures
        s@ == json_job_id(job.ad@, job.id),
{
    broadcast use lemma_concat_regroup;

    let mut s = String::new();
    s.append("{\"ad\":");
    push_json_string(&mut s, job.ad.as_str());
    s.append(",\"id\":");
    let id = u32_to_decimal(job.id);
    s.append(id.as_str());
    s.append("}");
    assert(s@ =~= json_job_id(job.ad@, job.id));
    s
}

/// The job number after `j`: one more, wrapping back to 1 before reaching
/// `u32::MAX`, so that each randomness key differs from the last.
pub open spec fn next_job(j: u32) -> u32 {
    if j >= u32::MAX - 1 {
        1
    } else {
        (j + 1) as u32
    }
}

/// The state with another job number.
pub open spec fn with_job(s: HubStateView, job_increment: u32) -> HubStateView {
    HubStateView { job_increment, ..s }
}

/// The fee the Nois proxy takes for a randomness: 150 ujunox.
pub open spec fn nois_fee() -> CoinView {
    CoinView { denom: "ujunox"@, amount: 150 }
}

/// The response that asks the Nois proxy for a randomness for `job_id`,
/// paying its fee.
pub open spec fn spec_randomness_request(nois_beacon: Seq<char>, job_id: Seq<char>) -> ResponseView {
    ResponseView {
        messages: seq![
            plain_message(
                WasmMsgView::Execute {
                    contract_addr: nois_beacon,
                    msg: encode_utf8(json_randomness_request(job_id)),
                    funds: seq![nois_fee()],
                },
            ),
        ],
        attributes: Seq::empty(),
    }
}

/// Asks the Nois proxy for a randomness to mint a pair of NFTs to the
/// sender, who pays the fee in `funds` or is the admin. The job id names
/// the sender and the current job number, which moves on.
pub fn execute_hit_faucet_nft(state: HubState, sender: &String, funds: &Vec<Coin>) -> (r: Result<
    (HubState, Response),
    ContractError,
>)
    ensures
        ({
            let job = json_job_id(sender@, state.job_increment);
            if !may_hit_faucet(state@, sender@, coins_view(funds@)) {
                r == Err::<(HubState, Response), ContractError>(ContractError::Unauthorized {})
            } else if encode_utf8(job).len() > 64 {
                r == Err::<(HubState, Response), ContractError>(ContractError::JobIdTooLong)
            } else {
                r matches Ok((s, resp)) && s@ == with_job(state@, next_job(state.job_increment))
                    && resp@ == spec_randomness_request(state@.config.nois_beacon, job)
            }
        }),
{
    let cost_juno = coin(5000000, "ujunox");
    if !has_coins(funds, &cost_juno) && *sender != state.config.admin {
        return Err(ContractError::Unauthorized {});
    }
    let fee_coin = coin(150, "ujunox");
    let jobincrement = state.job_increment;
    let job_id = JobId { ad: sender.clone(), id: jobincrement };
    let serialized_job_id = job_id_json(&job_id);
    if serialized_job_id.as_str().as_bytes().len() > max_job_id_len() {
        return Err(ContractError::JobIdTooLong);
    }
    let msg = match randomness_request_binary(&serialized_job_id) {
        Ok(b) => b,
        Err(e) => return Err(ContractError::Std(e)),
    };
    let fee_funds = vec![fee_coin];
    assert(coins_view(fee_funds@) =~= seq![nois_fee()]);
    let execute_nois_msg = WasmMsg::Execute {
        contract_addr: state.config.nois_beacon.clone(),
        msg,
        funds: fee_funds,
    };
    let mut state = state;
    state.job_increment = if jobincrement >= u32::MAX - 1 {
        1
    } else {
        jobincrement + 1
    };
    let resp = Response::new().add_message(execute_nois_msg);
    proof {
        assert(resp@.messages =~= spec_randomness_request(
            state@.config.nois_beacon,
            json_job_id(sender@, jobincrement),
        ).messages);
    }
    Ok((state, resp))
}

/// The pair of NFTs a callback mints: to the user the job id names, with
/// the first sub-randomness of the beacon's randomness keyed by the decimal
/// job number, as the next token of each collection.
pub open spec fn spec_callback_mints(s: HubStateView, user_wallet: Seq<char>, job: u32, randomness: Seq<u8>) -> ResponseView {
    ResponseView {
        messages: spec_mint_submsgs(
            s.config.neon_peepz_addy->0,
            s.np_count,
            s.config.shitty_kittyz_addy->0,
            s.sk_count,
            user_wallet,
            nois_first_sub_randomness(randomness, decimal(job as nat)),
        ),
        attributes: seq![("Mint two NFTs from hub"@, "minnit"@)],
    }
}

/// The Nois proxy answers a job with a randomness: the hub mints a pair of
/// NFTs to the user the job names. `job` is the callback's job id read as a
/// [`JobId`] (`None` where it is not one), `user_wallet_check` what
/// `addr_validate` answered for its `ad`, and `randomness` the callback's
/// randomness bytes.
pub fn execute_nois_callback(
    state: &HubState,
    sender: &String,
    job: Option<JobId>,
    user_wallet_check: Result<String, StdError>,
    randomness: &Vec<u8>,
) -> (r: Result<Response, ContractError>)
    ensures
        ({
            let c = state@.config;
            if sender@ != c.nois_beacon {
                r == Err::<Response, ContractError>(ContractError::Unauthorized {})
            } else if job is None {
                r == Err::<Response, ContractError>(ContractError::DeserializeError)
            } else if user_wallet_check is Err {
                is_std_err(r, user_wallet_check->Err_0)
            } else if randomness@.len() != 32 {
                r == Err::<Response, ContractError>(ContractError::InvalidRandomness)
            } else if c.neon_peepz_addy is None || c.shitty_kittyz_addy is None {
                r == Err::<Response, ContractError>(ContractError::NoFaucetAddy {})
            } else {
                r matches Ok(resp) && resp@ == spec_callback_mints(
                    state@,
                    user_wallet_check->Ok_0@,
                    job->0.id,
                    randomness@,
                )
            }
        }),
{
    if *sender != state.config.nois_beacon {
        return Err(ContractError::Unauthorized {});
    }
    let de_job_id = match job {
        Some(j) => j,
        None => return Err(ContractError::DeserializeError),
    };
    let user_wallet = match user_wallet_check {
        Ok(w) => w,
        Err(e) => return Err(ContractError::Std(e)),
    };
    let base_rand = match bytes_to_array32(randomness) {
        Some(a) => a,
        None => return Err(ContractError::InvalidRandomness),
    };
    let key = u32_to_decimal(de_job_id.id);
    let sub_randomness = first_sub_randomness(base_rand, &key);
    let np_count = state.np_count;
    let sk_count = state.sk_count;
    let np_faucet_addr = match &state.config.neon_peepz_addy {
        Some(a) => a.clone(),
        None => return Err(ContractError::NoFaucetAddy {}),
    };
    let sk_faucet_addr = match &state.config.shitty_kittyz_addy {
        Some(a) => a.clone(),
        None => return Err(ContractError::NoFaucetAddy {}),
    };
    let mint_submsgs = make_mint_submsgs(
        np_faucet_addr,
        np_count,
        sk_faucet_addr,
        sk_count,
        user_wallet,
        sub_randomness,
    )?;
    let resp = Response { messages: mint_submsgs, attributes: Vec::new() }.add_attribute(
        "Mint two NFTs from hub".to_owned(),
        "minnit".to_owned(),
    );
    assert(resp@.attributes =~= seq![("Mint two NFTs from hub"@, "minnit"@)]);
    Ok(resp)
}

/// The faucet contracts the hub instantiates.
#[derive(Clone, Copy, Debug, PartialEq, Eq)]
pub enum Faucet {
    NeonPeepz,
    ShittyKittyz,
    Cw20One,
    Cw20Two,
    Cw20Tre,
}

/// The two NFT collections.
#[derive(Clone, Copy, Debug, PartialEq, Eq)]
pub enum Collection {
    NeonPeepz,
    ShittyKittyz,
}

/// What a reply leaves to do: store the address of a new faucet (once the
/// caller has validated it), or count a mint.
#[derive(Debug, PartialEq)]
pub enum ReplyStep {
    ChildContract { faucet: Faucet, contract_address: String },
    Minted { collection: Collection, data: Option<Vec<u8>> },
}

/// The reply id under which the hub asks the chain to instantiate a faucet.
pub open spec fn instantiate_reply_id(f: Faucet) -> u64 {
    match f {
        Faucet::NeonPeepz => 1,
        Faucet::ShittyKittyz => 2,
        Faucet::Cw20One => 11,
        Faucet::Cw20Two => 12,
        Faucet::Cw20Tre => 13,
    }
}

/// The reply id under which the hub mints a token of a collection.
pub open spec fn mint_reply_id(c: Collection) -> u64 {
    match c {
        Collection::NeonPeepz => 3,
        Collection::ShittyKittyz => 4,
    }
}

/// The faucet whose instantiation a reply id answers.
pub open spec fn faucet_for_id(id: u64) -> Option<Faucet> {
    if id == 1 {
        Some(Faucet::NeonPeepz)
    } else if id == 2 {
        Some(Faucet::ShittyKittyz)
    } else if id == 11 {
        Some(Faucet::Cw20One)
    } else if id == 12 {
        Some(Faucet::Cw20Two)
    } else if id == 13 {
        Some(Faucet::Cw20Tre)
    } else {
        None
    }
}

/// The collection whose mint a reply id answers.
pub open spec fn collection_for_id(id: u64) -> Option<Collection> {
    if id == 3 {
        Some(Collection::NeonPeepz)
    } else if id == 4 {
        Some(Collection::ShittyKittyz)
    } else {
        None
    }
}

/// The prefix that names a reply in its parse errors.
pub open spec fn reply_error_prefix(id: u64) -> Seq<char> {
    if id == 1 || id == 2 {
        "Init_"@
    } else if id == 3 {
        "NP_Mint_"@
    } else if id == 4 {
        "SK_Mint_"@
    } else if id == 11 {
        "JVONE_Init_"@
    } else if id == 12 {
        "JVTWO_Init_"@
    } else {
        "JVTRE_Init_"@
    }
}

/// The `(p_r_e, v)` of the `SubMsgReplyFailure` that a parse error becomes.
pub open spec fn reply_failure(prefix: Seq<char>, e: ParseReplyErrorView) -> (Seq<char>, Seq<char>) {
    match e {
        ParseReplyErrorView::SubMsgFailure(x) => (prefix + "SubMsgFailure"@, x),
        ParseReplyErrorView::ParseFailure(y) => (prefix + "ParseFailure"@, y),
        ParseReplyErrorView::BrokenUtf8 => (prefix + "BrokenUtf8"@, "n/e"@),
    }
}

/// What cw-utils reads from a reply, given what it reads from reply data.
pub open spec fn spec_parse_reply<V>(reply: &Reply, from_data: spec_fn(Seq<u8>) -> Result<V, ParseReplyErrorView>) -> Result<V, ParseReplyErrorView> {
    match reply.result {
        Err(e) => Err(ParseReplyErrorView::SubMsgFailure(e@)),
        Ok(resp) => match resp.data {
            None => Err(ParseReplyErrorView::ParseFailure("Missing reply data"@)),
            Some(d) => from_data(d@),
        },
    }
}

/// Whether `r` is the `SubMsgReplyFailure` for a parse error.
pub open spec fn is_reply_failure<T>(r: Result<T, ContractError>, id: u64, e: ParseReplyErrorView) -> bool {
    r matches Err(ContractError::SubMsgReplyFailure { p_r_e, v }) && (p_r_e@, v@) == reply_failure(
        reply_error_prefix(id),
        e,
    )
}

fn reply_failure_error(prefix: &str, e: ParseReplyError) -> (r: ContractError)
    ensures
        r matches ContractError::SubMsgReplyFailure { p_r_e, v } && (p_r_e@, v@) == reply_failure(
            prefix@,
            e@,
        ),
{
    match e {
        ParseReplyError::SubMsgFailure(x) => ContractError::SubMsgReplyFailure {
            p_r_e: prefix.to_owned().concat("SubMsgFailure"),
            v: x,
        },
        ParseReplyError::ParseFailure(y) => ContractError::SubMsgReplyFailure {
            p_r_e: prefix.to_owned().concat("ParseFailure"),
            v: y,
        },
        ParseReplyError::BrokenUtf8 => ContractError::SubMsgReplyFailure {
            p_r_e: prefix.to_owned().concat("BrokenUtf8"),
            v: "n/e".to_owned(),
        },
    }
}

/// Reads a reply: the address of a new faucet for ids 1, 2, 11, 12, 13, the
/// data of a mint for ids 3 and 4; an unknown id is refused, and a reply the
/// hub cannot read answers `SubMsgReplyFailure`.
pub fn reply(msg: &Reply) -> (r: Result<ReplyStep, ContractError>)
    ensures
        match faucet_for_id(msg.id) {
            Some(f) => match spec_parse_reply(msg, |d: Seq<u8>| instantiate_reply_address(d)) {
                Err(e) => is_reply_failure(r, msg.id, e),
                Ok(a) => r matches Ok(ReplyStep::ChildContract { faucet, contract_address })
                    && faucet == f && contract_address@ == a,
            },
            None => match collection_for_id(msg.id) {
                Some(c) => match spec_parse_reply(msg, |d: Seq<u8>| execute_reply_data(d)) {
                    Err(e) => is_reply_failure(r, msg.id, e),
                    Ok(d) => r matches Ok(ReplyStep::Minted { collection, data }) && collection == c
                        && opt_bytes(data) == d,
                },
                None => r == Err::<ReplyStep, ContractError>(ContractError::InvalidId { x: msg.id }),
            },
        },
{
    let id = msg.id;
    let (faucet, prefix) = if id == 1 {
        (Faucet::NeonPeepz, "Init_")
    } else if id == 2 {
        (Faucet::ShittyKittyz, "Init_")
    } else if id == 11 {
        (Faucet::Cw20One, "JVONE_Init_")
    } else if id == 12 {
        (Faucet::Cw20Two, "JVTWO_Init_")
    } else if id == 13 {
        (Faucet::Cw20Tre, "JVTRE_Init_")
    } else {
        let (collection, prefix) = if id == 3 {
            (Collection::NeonPeepz, "NP_Mint_")
        } else if id == 4 {
            (Collection::ShittyKittyz, "SK_Mint_")
        } else {
            return Err(ContractError::InvalidId { x: id });
        };
        let data = match parse_reply_execute_data(msg) {
            Ok(d) => d,
            Err(e) => return Err(reply_failure_error(prefix, e)),
        };
        if let Err(x) = &msg.result {
            return Err(ContractError::SubMsgUncaughtErr { st: x.clone() });
        }
        return Ok(ReplyStep::Minted { collection, data });
    };
    let contract_address = match parse_reply_instantiate_data(msg) {
        Ok(a) => a,
        Err(e) => return Err(reply_failure_error(prefix, e)),
    };
    if let Err(x) = &msg.result {
        return Err(ContractError::SubMsgUncaughtErr { st: x.clone() });
    }
    Ok(ReplyStep::ChildContract { faucet, contract_address })
}

/// The state with the address of a new faucet stored.
pub open spec fn with_faucet(s: HubStateView, faucet: Faucet, addr: Seq<char>) -> HubStateView {
    let c = s.config;
    HubStateView {
        config: match faucet {
            Faucet::NeonPeepz => ConfigurationView { neon_peepz_addy: Some(addr), ..c },
            Faucet::ShittyKittyz => ConfigurationView { shitty_kittyz_addy: Some(addr), ..c },
            Faucet::Cw20One => ConfigurationView { cw20_one_faucet_addy: Some(addr), ..c },
            Faucet::Cw20Two => ConfigurationView { cw20_two_faucet_addy: Some(addr), ..c },
            Faucet::Cw20Tre => ConfigurationView { cw20_tre_faucet_addy: Some(addr), ..c },
        },
        ..s
    }
}

/// The attribute key that reports a stored faucet.
pub open spec fn faucet_attribute(faucet: Faucet) -> Seq<char> {
    match faucet {
        Faucet::NeonPeepz => "Init NeonPeepz Reply Success"@,
        Faucet::ShittyKittyz => "Init ShittyKittyz Reply Success"@,
        Faucet::Cw20One => "Init JV-One Reply Success"@,
        Faucet::Cw20Two => "Init JV-Two Reply Success"@,
        Faucet::Cw20Tre => "Init JV-Tre Reply Success"@,
    }
}

/// Stores the address of a faucet that the chain instantiated.
/// `contract_check` is what `addr_validate` answered for the address that
/// [`reply`] read.
pub fn reply_child_contract(state: HubState, faucet: Faucet, contract_check: Result<String, StdError>) -> (r: Result<
    (HubState, Response),
    ContractError,
>)
    ensures
        match contract_check {
            Err(e) => is_std_err(r, e),
            Ok(a) => r matches Ok((s, resp)) && s@ == with_faucet(state@, faucet, a@) && resp@
                == attributes_only(seq![(faucet_attribute(faucet), "Faucet: "@ + a@)]),
        },
{
    let child_contract = match contract_check {
        Ok(a) => a,
        Err(e) => return Err(ContractError::Std(e)),
    };
    let value = "Faucet: ".to_owned().concat(child_contract.as_str());
    let key = match faucet {
        Faucet::NeonPeepz => "Init NeonPeepz Reply Success",
        Faucet::ShittyKittyz => "Init ShittyKittyz Reply Success",
        Faucet::Cw20One => "Init JV-One Reply Success",
        Faucet::Cw20Two => "Init JV-Two Reply Success",
        Faucet::Cw20Tre => "Init JV-Tre Reply Success",
    };
    let mut state = state;
    match faucet {
        Faucet::NeonPeepz => state.config.neon_peepz_addy = Some(child_contract),
        Faucet::ShittyKittyz => state.config.shitty_kittyz_addy = Some(child_contract),
        Faucet::Cw20One => state.config.cw20_one_faucet_addy = Some(child_contract),
        Faucet::Cw20Two => state.config.cw20_two_faucet_addy = Some(child_contract),
        Faucet::Cw20Tre => state.config.cw20_tre_faucet_addy = Some(child_contract),
    }
    let resp = Response::new().add_attribute(key.to_owned(), value);
    assert(resp@.attributes =~= seq![(faucet_attribute(faucet), "Faucet: "@ + child_contract@)]);
    Ok((state, resp))
}

/// The number of the next token of a collection.
pub open spec fn collection_count(s: HubStateView, collection: Collection) -> u32 {
    match collection {
        Collection::NeonPeepz => s.np_count,
        Collection::ShittyKittyz => s.sk_count,
    }
}

/// The state with the next token number of a collection one higher.
pub open spec fn with_next_token(s: HubStateView, collection: Collection) -> HubStateView {
    match collection {
        Collection::NeonPeepz => HubStateView { np_count: (s.np_count + 1) as u32, ..s },
        Collection::ShittyKittyz => HubStateView { sk_count: (s.sk_count + 1) as u32, ..s },
    }
}

/// The attribute key that reports a mint.
pub open spec fn mint_attribute(collection: Collection) -> Seq<char> {
    match collection {
        Collection::NeonPeepz => "Mint NeonPeep from hub"@,
        Collection::ShittyKittyz => "Mint ShittyKitty from hub"@,
    }
}

/// What reports a mint whose reply carried no data.
pub open spec fn spec_minted_no_data(collection: Collection) -> ResponseView {
    attributes_only(
        seq![
            (mint_attribute(collection), "Success"@),
            ("No Token ID Found: "@, "Query the Base cw721 contract directly"@),
        ],
    )
}

/// What reports a mint whose reply carried the token id.
pub open spec fn spec_minted_token(collection: Collection, token_id: u32) -> ResponseView {
    attributes_only(
        seq![(mint_attribute(collection), "Success"@), ("NFT Token ID: "@, decimal(token_id as nat))],
    )
}

/// Counts a mint of a collection that succeeded: the collection's next
/// token number goes one up, counted from the state rather than the minted
/// token since replies may come in any order. `data` is what [`reply`] read;
/// when present it holds the minted token id as JSON. The count overflows,
/// and so panics, at `u32::MAX`.
pub fn reply_minted(state: HubState, collection: Collection, data: Option<Vec<u8>>) -> (r: Result<
    (HubState, Response),
    ContractError,
>)
    requires
        collection_count(state@, collection) < u32::MAX,
    ensures
        match data {
            None => r matches Ok((s, resp)) && s@ == with_next_token(state@, collection) && resp@
                == spec_minted_no_data(collection),
            Some(d) => match json_u32(d@) {
                None => r matches Err(e) && e is Std,
                Some(t) => r matches Ok((s, resp)) && s@ == with_next_token(state@, collection)
                    && resp@ == spec_minted_token(collection, t),
            },
        },
{
    let mut state = state;
    let label = match collection {
        Collection::NeonPeepz => {
            state.np_count = state.np_count + 1;
            "Mint NeonPeep from hub"
        },
        Collection::ShittyKittyz => {
            state.sk_count = state.sk_count + 1;
            "Mint ShittyKitty from hub"
        },
    };
    match data {
        Some(x) => {
            let token_id = match u32_from_binary(&x) {
                Ok(t) => t,
                Err(e) => return Err(ContractError::Std(e)),
            };
            let resp = Response::new().add_attribute(label.to_owned(), "Success".to_owned()).add_attribute(
                "NFT Token ID: ".to_owned(),
                u32_to_decimal(token_id),
            );
            assert(resp@.attributes =~= spec_minted_token(collection, token_id).attributes);
            Ok((state, resp))
        },
        None => {
            let resp = Response::new().add_attribute(label.to_owned(), "Success".to_owned()).add_attribute(
                "No Token ID Found: ".to_owned(),
                "Query the Base cw721 contract directly".to_owned(),
            );
            assert(resp@.attributes =~= spec_minted_no_data(collection).attributes);
            Ok((state, resp))
        },
    }
}

/// An optional address as text: the address, or "None".
pub open spec fn address_text(a: Option<Seq<char>>) -> Seq<char> {
    match a {
        Some(s) => s,
        None => "None"@,
    }
}

fn address_string(a: &Option<String>) -> (s: String)
    ensures
        s@ == address_text(opt_addr(*a)),
{
    match a {
        Some(addy) => addy.clone(),
        None => "None".to_owned(),
    }
}

/// The hub's state as text, for the `GetState` query.
pub fn get_state(state: &HubState) -> (r: GetStateResponse)
    ensures
        r.admin@ == state@.config.admin,
        r.neon_peepz_address@ == address_text(state@.config.neon_peepz_addy),
        r.shitty_kittyz_address@ == address_text(state@.config.shitty_kittyz_addy),
        r.cw20_one_faucet_address@ == address_text(state@.config.cw20_one_faucet_addy),
        r.cw20_two_faucet_address@ == address_text(state@.config.cw20_two_faucet_addy),
        r.cw20_tre_faucet_address@ == address_text(state@.config.cw20_tre_faucet_addy),
        r.nois_proxy_address@ == state@.config.nois_beacon,
        r.neon_peepz_count@ == decimal(state.np_count as nat),
        r.shitty_kittyz_count@ == decimal(state.sk_count as nat),
        r.job_count@ == decimal(state.job_increment as nat),
{
    let c = &state.config;
    GetStateResponse {
        admin: c.admin.clone(),
        neon_peepz_address: address_string(&c.neon_peepz_addy),
        shitty_kittyz_address: address_string(&c.shitty_kittyz_addy),
        cw20_one_faucet_address: address_string(&c.cw20_one_faucet_addy),
        cw20_two_faucet_address: address_string(&c.cw20_two_faucet_addy),
        cw20_tre_faucet_address: address_string(&c.cw20_tre_faucet_addy),
        nois_proxy_address: c.nois_beacon.clone(),
        neon_peepz_count: u32_to_decimal(state.np_count),
        shitty_kittyz_count: u32_to_decimal(state.sk_count),
        job_count: u32_to_decimal(state.job_increment),
    }
}

} // verus!
