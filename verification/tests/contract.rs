use cosmwasm_std::StdError;
use fake_faucet::contract::{
    execute_add_faucet_cw20, execute_add_faucet_cw20_tre, execute_add_faucet_cw20_two,
    execute_add_faucet_neon_peepz, execute_add_faucet_shitty_kittyz, execute_hit_faucet_cw20s,
    execute_hit_faucet_nft, execute_nois_callback, execute_update_admin, execute_update_nois,
    get_state, instantiate, instantiate_admin, reply, reply_child_contract, reply_minted,
    Collection, Faucet, JobId, ReplyStep,
};
use fake_faucet::error::ContractError;
use fake_faucet::msg::InstantiateMsg;
use fake_faucet::response::{coin, has_coins, Coin, Reply, ReplyOn, SubMsgResponse, WasmMsg};
use fake_faucet::state::{Configuration, HubState};

const ADMIN: &str = "juno1admin";
const NOIS: &str = "juno1nois";
const HUB: &str = "juno1hub";
const USER: &str = "juno1user";

fn s(x: &str) -> String {
    x.to_string()
}

fn fresh() -> HubState {
    let msg = InstantiateMsg { admin: Some(s(ADMIN)), nois_proxy: s(NOIS) };
    instantiate(&s("juno1creator"), &msg, Ok(s(ADMIN)), Ok(s(NOIS))).unwrap().0
}

fn full() -> HubState {
    let mut st = fresh();
    st.config.neon_peepz_addy = Some(s("juno1np"));
    st.config.shitty_kittyz_addy = Some(s("juno1sk"));
    st.config.cw20_one_faucet_addy = Some(s("juno1one"));
    st.config.cw20_two_faucet_addy = Some(s("juno1two"));
    st.config.cw20_tre_faucet_addy = Some(s("juno1tre"));
    st
}

fn paid() -> Vec<Coin> {
    vec![coin(5000000, "ujunox")]
}

#[test]
fn test1() {
    let a = true;
    assert_eq!(a, true);
}

#[test]
fn instantiate_sets_up_state() {
    let msg = InstantiateMsg { admin: None, nois_proxy: s(NOIS) };
    assert_eq!(instantiate_admin(&s("juno1creator"), &msg), "juno1creator");
    let (st, resp) = instantiate(&s("juno1creator"), &msg, Ok(s("juno1creator")), Ok(s(NOIS))).unwrap();
    assert_eq!(st.config.admin, "juno1creator");
    assert_eq!(st.config.nois_beacon, NOIS);
    assert_eq!(st.config.neon_peepz_addy, None);
    assert_eq!((st.np_count, st.sk_count, st.job_increment), (1, 1, 1));
    assert_eq!(resp.attributes[0].key, "method");
    assert_eq!(resp.attributes[0].value, "instantiate");
    assert_eq!(resp.attributes[1].key, "admin");
    assert_eq!(resp.attributes[1].value, "juno1creator");
    assert!(resp.messages.is_empty());
}

#[test]
fn instantiate_errors() {
    let msg = InstantiateMsg { admin: Some(s("bad")), nois_proxy: s("bad") };
    let e = instantiate(&s(USER), &msg, Err(StdError::generic_err("admin")), Ok(s(NOIS))).unwrap_err();
    assert_eq!(e, ContractError::Std(StdError::generic_err("admin")));
    let e = instantiate(&s(USER), &msg, Ok(s("ok")), Err(StdError::generic_err("proxy"))).unwrap_err();
    assert_eq!(e, ContractError::InvalidProxyAddress);
}

#[test]
fn update_admin_only_by_admin() {
    let e = execute_update_admin(fresh(), &s(USER), s("juno1new"), Ok(s("juno1new"))).unwrap_err();
    assert_eq!(e, ContractError::Unauthorized {});
    let e = execute_update_admin(fresh(), &s(ADMIN), s("x"), Err(StdError::generic_err("x"))).unwrap_err();
    assert!(matches!(e, ContractError::Std(_)));
    let (st, resp) = execute_update_admin(fresh(), &s(ADMIN), s("juno1new"), Ok(s("juno1new"))).unwrap();
    assert_eq!(st.config.admin, "juno1new");
    assert_eq!(st.config.nois_beacon, NOIS);
    assert_eq!(resp.attributes[0].key, "new_admin");
    assert_eq!(get_state(&st).admin, "juno1new");
    let e = execute_update_admin(st, &s(ADMIN), s("juno1x"), Ok(s("juno1x"))).unwrap_err();
    assert_eq!(e, ContractError::Unauthorized {});
}

#[test]
fn update_nois_only_by_admin() {
    let e = execute_update_nois(fresh(), &s(USER), s("juno1p"), Ok(s("juno1p"))).unwrap_err();
    assert_eq!(e, ContractError::Unauthorized {});
    let (st, resp) = execute_update_nois(fresh(), &s(ADMIN), s("juno1p"), Ok(s("juno1p"))).unwrap();
    assert_eq!(st.config.nois_beacon, "juno1p");
    assert_eq!(st.config.admin, ADMIN);
    assert_eq!(resp.attributes[0].key, "update_nois");
    assert_eq!(resp.attributes[0].value, "new_addr: juno1p");
}

#[test]
fn add_nft_faucets() {
    let st = fresh();
    assert_eq!(
        execute_add_faucet_neon_peepz(&st, &s(HUB), &s(USER), 5).unwrap_err(),
        ContractError::Unauthorized {}
    );
    let resp = execute_add_faucet_neon_peepz(&st, &s(HUB), &s(ADMIN), 5).unwrap();
    assert_eq!(resp.attributes[0].key, "Instantiate NeonPeepz faucet from Hub");
    assert_eq!(resp.attributes[0].value, "innit");
    let m = &resp.messages[0];
    assert_eq!((m.id, m.reply_on, m.gas_limit), (1, ReplyOn::Success, None));
    let expected = cosmwasm_std::to_json_vec(&cw721_base::InstantiateMsg {
        name: s("NeoNPeePz"),
        symbol: s("NEONPEEPZ"),
        minter: s(HUB),
    })
    .unwrap();
    assert_eq!(
        m.msg,
        WasmMsg::Instantiate { admin: None, code_id: 5, msg: expected, funds: vec![], label: s("NeoNPeePz Contract") }
    );
    let resp = execute_add_faucet_shitty_kittyz(&st, &s(HUB), &s(ADMIN), 6).unwrap();
    assert_eq!(resp.messages[0].id, 2);
    match &resp.messages[0].msg {
        WasmMsg::Instantiate { msg, label, .. } => {
            assert_eq!(label, "Shitty Kittyz Contract");
            assert_eq!(
                String::from_utf8(msg.clone()).unwrap(),
                "{\"name\":\"ShittyKittyz\",\"symbol\":\"SHITKIT\",\"minter\":\"juno1hub\"}"
            );
        }
        _ => panic!("not an instantiation"),
    }
}

#[test]
fn add_cw20_faucets() {
    let st = fresh();
    assert_eq!(execute_add_faucet_cw20(&st, &s(HUB), &s(USER), 9).unwrap_err(), ContractError::Unauthorized {});
    let resp = execute_add_faucet_cw20(&st, &s(HUB), &s(ADMIN), 9).unwrap();
    assert_eq!(resp.messages[0].id, 11);
    assert_eq!(resp.attributes[0].key, "Instantiate JV-One from Hub");
    match &resp.messages[0].msg {
        WasmMsg::Instantiate { admin, code_id, msg, label, funds } => {
            assert_eq!(admin.as_deref(), Some(ADMIN));
            assert_eq!(*code_id, 9);
            assert!(funds.is_empty());
            assert_eq!(label, "JV-One cw20 contract");
            assert_eq!(
                String::from_utf8(msg.clone()).unwrap(),
                "{\"name\":\"JV-One\",\"symbol\":\"JVONE\",\"decimals\":6,\"initial_balances\":[],\"mint\":{\"minter\":\"juno1hub\",\"cap\":null},\"marketing\":null}"
            );
        }
        _ => panic!("not an instantiation"),
    }
    assert_eq!(execute_add_faucet_cw20_two(&st, &s(HUB), &s(ADMIN), 9).unwrap().messages[0].id, 12);
    let tre = execute_add_faucet_cw20_tre(&st, &s(HUB), &s(ADMIN), 9).unwrap();
    assert_eq!(tre.messages[0].id, 13);
    assert_eq!(tre.attributes[0].key, "Instantiate JV-Tre from Hub");
}

#[test]
fn has_coins_reads_first_coin_of_denom() {
    let need = coin(5, "ujunox");
    assert!(has_coins(&vec![coin(1, "uatom"), coin(5, "ujunox")], &need));
    assert!(!has_coins(&vec![coin(4, "ujunox"), coin(9, "ujunox")], &need));
    assert!(!has_coins(&vec![], &need));
    assert!(has_coins(&vec![coin(6, "ujunox")], &need));
}

#[test]
fn hit_cw20_faucets() {
    assert_eq!(
        execute_hit_faucet_cw20s(&fresh(), &s(ADMIN), &paid()).unwrap_err(),
        ContractError::NoFaucetAddy {}
    );
    let st = full();
    assert_eq!(
        execute_hit_faucet_cw20s(&st, &s(USER), &vec![coin(4999999, "ujunox")]).unwrap_err(),
        ContractError::Unauthorized {}
    );
    let resp = execute_hit_faucet_cw20s(&st, &s(USER), &paid()).unwrap();
    assert_eq!(resp.messages.len(), 3);
    let expected = cosmwasm_std::to_json_vec(&cw20::Cw20ExecuteMsg::Mint {
        recipient: s(USER),
        amount: cosmwasm_std::Uint128::new(69000000),
    })
    .unwrap();
    for (m, faucet) in resp.messages.iter().zip(["juno1one", "juno1two", "juno1tre"]) {
        assert_eq!((m.id, m.reply_on), (0, ReplyOn::Never));
        assert_eq!(m.msg, WasmMsg::Execute { contract_addr: s(faucet), msg: expected.clone(), funds: vec![] });
    }
    assert_eq!(resp.attributes[0].value, "JVONE JVTWO JVTRE");
    assert!(execute_hit_faucet_cw20s(&st, &s(ADMIN), &vec![]).is_ok());
}

#[test]
fn hit_nft_faucet_requests_randomness() {
    let st = fresh();
    assert_eq!(execute_hit_faucet_nft(st.clone(), &s(USER), &vec![]).unwrap_err(), ContractError::Unauthorized {});
    let (st2, resp) = execute_hit_faucet_nft(st, &s(USER), &paid()).unwrap();
    assert_eq!(st2.job_increment, 2);
    let expected = cosmwasm_std::to_json_vec(&nois::ProxyExecuteMsg::GetNextRandomness {
        job_id: s("{\"ad\":\"juno1user\",\"id\":1}"),
    })
    .unwrap();
    assert_eq!(resp.messages.len(), 1);
    assert_eq!(
        resp.messages[0].msg,
        WasmMsg::Execute { contract_addr: s(NOIS), msg: expected, funds: vec![coin(150, "ujunox")] }
    );
    assert!(resp.attributes.is_empty());
}

#[test]
fn job_number_wraps() {
    let mut st = fresh();
    st.job_increment = u32::MAX - 2;
    let (st, _) = execute_hit_faucet_nft(st, &s(ADMIN), &vec![]).unwrap();
    assert_eq!(st.job_increment, u32::MAX - 1);
    let (st, _) = execute_hit_faucet_nft(st, &s(ADMIN), &vec![]).unwrap();
    assert_eq!(st.job_increment, 1);
}

#[test]
fn job_id_too_long() {
    let long = "juno1".to_string() + &"q".repeat(60);
    let mut st = fresh();
    st.config.admin = long.clone();
    assert_eq!(execute_hit_faucet_nft(st, &long, &vec![]).unwrap_err(), ContractError::JobIdTooLong);
}

#[test]
fn nois_callback_errors() {
    let st = full();
    let rand = vec![7u8; 32];
    let job = || Some(JobId { ad: s(USER), id: 1 });
    assert_eq!(
        execute_nois_callback(&st, &s(USER), job(), Ok(s(USER)), &rand).unwrap_err(),
        ContractError::Unauthorized {}
    );
    assert_eq!(
        execute_nois_callback(&st, &s(NOIS), None, Ok(s(USER)), &rand).unwrap_err(),
        ContractError::DeserializeError
    );
    assert!(matches!(
        execute_nois_callback(&st, &s(NOIS), job(), Err(StdError::generic_err("w")), &rand).unwrap_err(),
        ContractError::Std(_)
    ));
    assert_eq!(
        execute_nois_callback(&st, &s(NOIS), job(), Ok(s(USER)), &vec![1u8; 31]).unwrap_err(),
        ContractError::InvalidRandomness
    );
    assert_eq!(
        execute_nois_callback(&fresh(), &s(NOIS), job(), Ok(s(USER)), &rand).unwrap_err(),
        ContractError::NoFaucetAddy {}
    );
}

#[test]
fn nois_callback_mints_pair() {
    let mut st = full();
    st.np_count = 12;
    st.sk_count = 40;
    let resp = execute_nois_callback(&st, &s(NOIS), Some(JobId { ad: s(USER), id: 3 }), Ok(s(USER)), &vec![9u8; 32]).unwrap();
    assert_eq!(resp.attributes[0].key, "Mint two NFTs from hub");
    assert_eq!(resp.messages.len(), 2);
    let np = &resp.messages[0];
    assert_eq!((np.id, np.reply_on), (3, ReplyOn::Success));
    match &np.msg {
        WasmMsg::Execute { contract_addr, msg, funds } => {
            assert_eq!(contract_addr, "juno1np");
            assert!(funds.is_empty());
            let text = String::from_utf8(msg.clone()).unwrap();
            assert!(text.starts_with("{\"mint\":{\"count\":12,\"token_id\":\"12\",\"owner\":\"juno1user\",\"token_uri\":null,\"extension\":{\"name\":"));
            assert!(text.ends_with("}}}"));
        }
        _ => panic!("not an execution"),
    }
    let sk = &resp.messages[1];
    assert_eq!(sk.id, 4);
    match &sk.msg {
        WasmMsg::Execute { contract_addr, msg, .. } => {
            assert_eq!(contract_addr, "juno1sk");
            let text = String::from_utf8(msg.clone()).unwrap();
            assert!(text.starts_with("{\"mint\":{\"count\":40,\"token_id\":\"40\",\"owner\":\"juno1user\""));
            assert!(text.contains("ShittyKittyz Collection"));
        }
        _ => panic!("not an execution"),
    }
    let again = execute_nois_callback(&st, &s(NOIS), Some(JobId { ad: s(USER), id: 3 }), Ok(s(USER)), &vec![9u8; 32]).unwrap();
    assert_eq!(again, resp);
}

fn instantiate_data(addr: &str) -> Vec<u8> {
    let mut v = vec![0x0a, addr.len() as u8];
    v.extend_from_slice(addr.as_bytes());
    v
}

#[test]
fn reply_reads_new_faucet() {
    let r = Reply { id: 12, result: Ok(SubMsgResponse { data: Some(instantiate_data("juno1two")) }) };
    let step = reply(&r).unwrap();
    assert_eq!(step, ReplyStep::ChildContract { faucet: Faucet::Cw20Two, contract_address: s("juno1two") });
    let (st, resp) = reply_child_contract(fresh(), Faucet::Cw20Two, Ok(s("juno1two"))).unwrap();
    assert_eq!(st.config.cw20_two_faucet_addy.as_deref(), Some("juno1two"));
    assert_eq!(st.config.cw20_one_faucet_addy, None);
    assert_eq!(resp.attributes[0].key, "Init JV-Two Reply Success");
    assert_eq!(resp.attributes[0].value, "Faucet: juno1two");
    assert!(matches!(
        reply_child_contract(fresh(), Faucet::NeonPeepz, Err(StdError::generic_err("a"))).unwrap_err(),
        ContractError::Std(_)
    ));
}

#[test]
fn reply_failures() {
    let r = Reply { id: 77, result: Ok(SubMsgResponse { data: None }) };
    assert_eq!(reply(&r).unwrap_err(), ContractError::InvalidId { x: 77 });
    let r = Reply { id: 1, result: Err(s("boom")) };
    assert_eq!(
        reply(&r).unwrap_err(),
        ContractError::SubMsgReplyFailure { p_r_e: s("Init_SubMsgFailure"), v: s("boom") }
    );
    let r = Reply { id: 11, result: Ok(SubMsgResponse { data: None }) };
    assert_eq!(
        reply(&r).unwrap_err(),
        ContractError::SubMsgReplyFailure { p_r_e: s("JVONE_Init_ParseFailure"), v: s("Missing reply data") }
    );
    let r = Reply { id: 3, result: Err(s("no")) };
    assert_eq!(
        reply(&r).unwrap_err(),
        ContractError::SubMsgReplyFailure { p_r_e: s("NP_Mint_SubMsgFailure"), v: s("no") }
    );
    let r = Reply { id: 13, result: Ok(SubMsgResponse { data: Some(vec![0x0a, 0x80, 0x80, 0x80]) }) };
    match reply(&r).unwrap_err() {
        ContractError::SubMsgReplyFailure { p_r_e, .. } => assert_eq!(p_r_e, "JVTRE_Init_ParseFailure"),
        e => panic!("{:?}", e),
    }
}

#[test]
fn reply_counts_mints() {
    let r = Reply { id: 4, result: Ok(SubMsgResponse { data: Some(vec![]) }) };
    let step = reply(&r).unwrap();
    assert_eq!(step, ReplyStep::Minted { collection: Collection::ShittyKittyz, data: None });
    let (st, resp) = reply_minted(fresh(), Collection::ShittyKittyz, None).unwrap();
    assert_eq!((st.np_count, st.sk_count), (1, 2));
    assert_eq!(resp.attributes[0].key, "Mint ShittyKitty from hub");
    assert_eq!(resp.attributes[1].key, "No Token ID Found: ");
    let data = vec![0x0a, 2, b'1', b'7'];
    let r = Reply { id: 3, result: Ok(SubMsgResponse { data: Some(data) }) };
    let step = reply(&r).unwrap();
    assert_eq!(step, ReplyStep::Minted { collection: Collection::NeonPeepz, data: Some(b"17".to_vec()) });
    let (st, resp) = reply_minted(fresh(), Collection::NeonPeepz, Some(b"17".to_vec())).unwrap();
    assert_eq!((st.np_count, st.sk_count), (2, 1));
    assert_eq!(resp.attributes[0].key, "Mint NeonPeep from hub");
    assert_eq!(resp.attributes[1].key, "NFT Token ID: ");
    assert_eq!(resp.attributes[1].value, "17");
    assert!(matches!(
        reply_minted(fresh(), Collection::NeonPeepz, Some(b"x".to_vec())).unwrap_err(),
        ContractError::Std(_)
    ));
}

#[test]
fn state_query() {
    let mut st = full();
    st.config.cw20_two_faucet_addy = None;
    st.np_count = 120;
    let r = get_state(&st);
    assert_eq!(r.admin, ADMIN);
    assert_eq!(r.neon_peepz_address, "juno1np");
    assert_eq!(r.cw20_two_faucet_address, "None");
    assert_eq!(r.nois_proxy_address, NOIS);
    assert_eq!(r.neon_peepz_count, "120");
    assert_eq!(r.shitty_kittyz_count, "1");
    assert_eq!(r.job_count, "1");
}

#[test]
fn config_equality() {
    let c = Configuration {
        admin: s(ADMIN),
        neon_peepz_addy: None,
        shitty_kittyz_addy: None,
        cw20_one_faucet_addy: None,
        cw20_two_faucet_addy: None,
        cw20_tre_faucet_addy: None,
        nois_beacon: s(NOIS),
    };
    assert_eq!(fresh().config, c);
}

#[test]
fn nois_callback_follows_randomness() {
    let st = full();
    let base = [0x5au8; 32];
    let resp = execute_nois_callback(&st, &s(NOIS), Some(JobId { ad: s(USER), id: 7 }), Ok(s(USER)), &base.to_vec()).unwrap();
    let sub = nois::sub_randomness_with_key(base, "7").provide();
    let fur = nois::int_in_range(sub, 1u32, 3u32);
    let traits = nois::ints_in_range(sub, 2, 1u32, 2u32);
    let legends = nois::ints_in_range(sub, 2, 1u32, 333u32);
    let np = fake_faucet::utils::generate_np_metadata(legends[1], traits[0], traits[1]);
    let sk = fake_faucet::utils::generate_sk_metadata(legends[0], fur);
    let expected = fake_faucet::utils::construct_submsgs(s("juno1np"), 1, np, s("juno1sk"), 1, sk, s(USER)).unwrap();
    assert_eq!(resp.messages, expected);
}
