//! Calls into cosmwasm-std, cw-utils, cw20 and cw721: the JSON of the
//! outside crates' messages, and the parsing of replies and raw bytes.
//!
//! `to_binary` is serde_json_wasm's serializer, which fails only where a
//! `Serialize` impl raises a custom error; the message types serialised here
//! hold strings, integers, options, lists and `Uint128`, whose impls raise
//! none, so their serialisation succeeds.
use vstd::prelude::*;
use vstd::utf8::encode_utf8;
use cosmwasm_std::StdError;
use cw20::{Cw20Coin, Logo, MinterResponse};
use cw20_base::msg::InstantiateMarketingInfo;
use crate::response::Reply;
use crate::metadata::{json_opt_string, opt_str};
use crate::text::{decimal, json_string};

verus! {

/// JSON of a cw721-base `InstantiateMsg`, its fields in declaration order.
pub open spec fn json_cw721_instantiate(name: Seq<char>, symbol: Seq<char>, minter: Seq<char>) -> Seq<char> {
    "{\"name\":"@ + json_string(name) + ",\"symbol\":"@ + json_string(symbol) + ",\"minter\":"@
        + json_string(minter) + "}"@
}

/// The marketing info of a new cw20 token; its logo, if any, is given by
/// URL (cw20's `Logo::Url`; an embedded logo cannot be given here).
#[derive(Clone, Debug, PartialEq)]
pub struct MarketingInfo {
    pub project: Option<String>,
    pub description: Option<String>,
    pub marketing: Option<String>,
    pub logo_url: Option<String>,
}

/// The value of a [`MarketingInfo`].
pub struct MarketingInfoView {
    pub project: Option<Seq<char>>,
    pub description: Option<Seq<char>>,
    pub marketing: Option<Seq<char>>,
    pub logo_url: Option<Seq<char>>,
}

impl View for MarketingInfo {
    type V = MarketingInfoView;

    open spec fn view(&self) -> MarketingInfoView {
        MarketingInfoView {
            project: opt_str(self.project),
            description: opt_str(self.description),
            marketing: opt_str(self.marketing),
            logo_url: opt_str(self.logo_url),
        }
    }
}

/// The value of optional marketing info.
pub open spec fn opt_marketing(m: Option<MarketingInfo>) -> Option<MarketingInfoView> {
    match m {
        Some(i) => Some(i@),
        None => None,
    }
}

/// The value of initial balances: address and amount of each.
pub open spec fn balances_view(v: Seq<(String, u128)>) -> Seq<(Seq<char>, u128)> {
    v.map_values(|b: (String, u128)| (b.0@, b.1))
}

/// The value of an optional minter and its optional cap.
pub open spec fn minter_view(m: Option<(String, Option<u128>)>) -> Option<(Seq<char>, Option<u128>)> {
    match m {
        Some((minter, cap)) => Some((minter@, cap)),
        None => None,
    }
}

/// JSON of a `Uint128`: a string of its decimal digits.
pub open spec fn json_uint128(n: u128) -> Seq<char> {
    seq!['"'] + decimal(n as nat) + seq!['"']
}

/// JSON of an optional `Uint128`.
pub open spec fn json_opt_uint128(o: Option<u128>) -> Seq<char> {
    match o {
        Some(n) => json_uint128(n),
        None => "null"@,
    }
}

/// JSON of a `Cw20Coin`.
pub open spec fn json_cw20_coin(b: (Seq<char>, u128)) -> Seq<char> {
    "{\"address\":"@ + json_string(b.0) + ",\"amount\":"@ + json_uint128(b.1) + "}"@
}

/// The comma-separated JSON of a list of `Cw20Coin`s.
pub open spec fn json_cw20_coin_items(bs: Seq<(Seq<char>, u128)>) -> Seq<char>
    decreases bs.len(),
{
    if bs.len() == 0 {
        Seq::empty()
    } else if bs.len() == 1 {
        json_cw20_coin(bs[0])
    } else {
        json_cw20_coin_items(bs.drop_last()) + seq![','] + json_cw20_coin(bs.last())
    }
}

/// JSON of an optional `MinterResponse`.
pub open spec fn json_minter(m: Option<(Seq<char>, Option<u128>)>) -> Seq<char> {
    match m {
        Some((minter, cap)) => "{\"minter\":"@ + json_string(minter) + ",\"cap\":"@ + json_opt_uint128(
            cap,
        ) + "}"@,
        None => "null"@,
    }
}

/// JSON of an optional logo given by URL.
pub open spec fn json_logo_url(o: Option<Seq<char>>) -> Seq<char> {
    match o {
        Some(url) => "{\"url\":"@ + json_string(url) + "}"@,
        None => "null"@,
    }
}

/// JSON of optional `InstantiateMarketingInfo`.
pub open spec fn json_marketing(m: Option<MarketingInfoView>) -> Seq<char> {
    match m {
        Some(i) => "{\"project\":"@ + json_opt_string(i.project) + ",\"description\":"@
            + json_opt_string(i.description) + ",\"marketing\":"@ + json_opt_string(i.marketing)
            + ",\"logo\":"@ + json_logo_url(i.logo_url) + "}"@,
        None => "null"@,
    }
}

/// JSON of a cw20-base `InstantiateMsg`, its fields in declaration order.
pub open spec fn json_cw20_instantiate(
    name: Seq<char>,
    symbol: Seq<char>,
    decimals: u8,
    initial_balances: Seq<(Seq<char>, u128)>,
    mint: Option<(Seq<char>, Option<u128>)>,
    marketing: Option<MarketingInfoView>,
) -> Seq<char> {
    "{\"name\":"@ + json_string(name) + ",\"symbol\":"@ + json_string(symbol) + ",\"decimals\":"@
        + decimal(decimals as nat) + ",\"initial_balances\":["@ + json_cw20_coin_items(
        initial_balances,
    ) + "],\"mint\":"@ + json_minter(mint) + ",\"marketing\":"@ + json_marketing(marketing) + "}"@
}

/// JSON of the cw20 `Mint` execute message; a `Uint128` amount is a JSON
/// string of its decimal digits.
pub open spec fn json_cw20_mint(recipient: Seq<char>, amount: u128) -> Seq<char> {
    "{\"mint\":{\"recipient\":"@ + json_string(recipient) + ",\"amount\":\""@ + decimal(
        amount as nat,
    ) + "\"}}"@
}

/// `cosmwasm_std::to_binary` of a cw721-base `InstantiateMsg`. What it claims:
/// it succeeds, with the UTF-8 bytes of [`json_cw721_instantiate`].
#[verifier::external_body]
#[allow(deprecated)]
pub(crate) fn cw721_instantiate_binary(name: &str, symbol: &str, minter: &String) -> (r: Result<Vec<u8>, StdError>)
    ensures
        r is Ok,
        r matches Ok(b) ==> b@ == encode_utf8(json_cw721_instantiate(name@, symbol@, minter@)),
{
    let msg = cw721_base::InstantiateMsg {
        name: name.to_string(),
        symbol: symbol.to_string(),
        minter: minter.clone(),
    };
    cosmwasm_std::to_binary(&msg).map(|b| b.0)
}

/// `cosmwasm_std::to_binary` of a cw20-base `InstantiateMsg` with the given
/// initial balances, minter (with its cap) and marketing info. What it
/// claims: it succeeds, with the UTF-8 bytes of [`json_cw20_instantiate`].
#[verifier::external_body]
#[allow(deprecated)]
pub(crate) fn cw20_instantiate_binary(
    name: &str,
    symbol: &str,
    decimals: u8,
    initial_balances: &Vec<(String, u128)>,
    mint: &Option<(String, Option<u128>)>,
    marketing: &Option<MarketingInfo>,
) -> (r: Result<Vec<u8>, StdError>)
    ensures
        r is Ok,
        r matches Ok(b) ==> b@ == encode_utf8(
            json_cw20_instantiate(
                name@,
                symbol@,
                decimals,
                balances_view(initial_balances@),
                minter_view(*mint),
                opt_marketing(*marketing),
            ),
        ),
{
    let msg = cw20_base::msg::InstantiateMsg {
        name: name.to_string(),
        symbol: symbol.to_string(),
        decimals,
        initial_balances: initial_balances.iter().map(|(a, n)| Cw20Coin { address: a.clone(), amount: (*n).into() }).collect(),
        mint: mint.clone().map(|(minter, cap)| MinterResponse { minter, cap: cap.map(Into::into) }),
        marketing: marketing.clone().map(|m| InstantiateMarketingInfo {
            project: m.project, description: m.description, marketing: m.marketing, logo: m.logo_url.map(Logo::Url),
        }),
    };
    cosmwasm_std::to_binary(&msg).map(|b| b.0)
}

/// `cosmwasm_std::to_binary` of `Cw20ExecuteMsg::Mint`. What it claims: it
/// succeeds, with the UTF-8 bytes of [`json_cw20_mint`].
#[verifier::external_body]
#[allow(deprecated)]
pub(crate) fn cw20_mint_binary(recipient: &String, amount: u128) -> (r: Result<Vec<u8>, StdError>)
    ensures
        r is Ok,
        r matches Ok(b) ==> b@ == encode_utf8(json_cw20_mint(recipient@, amount)),
{
    let msg = cw20::Cw20ExecuteMsg::Mint {
        recipient: recipient.clone(),
        amount: cosmwasm_std::Uint128::new(amount),
    };
    cosmwasm_std::to_binary(&msg).map(|b| b.0)
}

/// The `u32` that JSON bytes hold, as `cosmwasm_std::from_binary::<u32>`
/// reads them; `None` where they hold none.
pub uninterp spec fn json_u32(data: Seq<u8>) -> Option<u32>;

/// `cosmwasm_std::from_binary::<u32>`. What it claims: it succeeds exactly
/// where [`json_u32`] gives a value, and gives that value.
#[verifier::external_body]
#[allow(deprecated)]
pub(crate) fn u32_from_binary(data: &Vec<u8>) -> (r: Result<u32, StdError>)
    ensures
        r is Ok <==> json_u32(data@) is Some,
        r matches Ok(n) ==> json_u32(data@) == Some(n),
{
    cosmwasm_std::from_binary::<u32>(&cosmwasm_std::Binary(data.clone()))
}

/// The 32 bytes of a randomness as an array, as `HexBinary::to_array::<32>`
/// gives them: `None` unless there are exactly 32 bytes.
pub fn bytes_to_array32(data: &Vec<u8>) -> (r: Option<[u8; 32]>)
    ensures
        r is Some <==> data@.len() == 32,
        r matches Some(a) ==> a@ == data@,
{
    if data.len() != 32 {
        return None;
    }
    let mut out = [0u8; 32];
    for i in 0..32
        invariant
            data@.len() == 32,
            out@.len() == 32,
            forall|j: int| 0 <= j < i ==> out@[j] == data@[j],
    {
        out[i] = data[i];
    }
    assert(out@ =~= data@);
    Some(out)
}

/// Why cw-utils could not read a reply.
#[derive(Debug, PartialEq)]
pub enum ParseReplyError {
    SubMsgFailure(String),
    ParseFailure(String),
    BrokenUtf8,
}

/// The value of a [`ParseReplyError`].
pub enum ParseReplyErrorView {
    SubMsgFailure(Seq<char>),
    ParseFailure(Seq<char>),
    BrokenUtf8,
}

impl View for ParseReplyError {
    type V = ParseReplyErrorView;

    open spec fn view(&self) -> ParseReplyErrorView {
        match self {
            ParseReplyError::SubMsgFailure(s) => ParseReplyErrorView::SubMsgFailure(s@),
            ParseReplyError::ParseFailure(s) => ParseReplyErrorView::ParseFailure(s@),
            ParseReplyError::BrokenUtf8 => ParseReplyErrorView::BrokenUtf8,
        }
    }
}

/// What cw-utils reads from the reply data of an instantiation: the new
/// contract's address, or why it could not read one.
pub uninterp spec fn instantiate_reply_address(data: Seq<u8>) -> Result<Seq<char>, ParseReplyErrorView>;

/// What cw-utils reads from the reply data of an execution: the data the
/// contract answered, if any, or why it could not read it.
pub uninterp spec fn execute_reply_data(data: Seq<u8>) -> Result<Option<Seq<u8>>, ParseReplyErrorView>;

/// The value of what a reply parser answered.
pub open spec fn parsed_view<T, V>(r: Result<T, ParseReplyError>, f: spec_fn(T) -> V) -> Result<V, ParseReplyErrorView> {
    match r {
        Ok(t) => Ok(f(t)),
        Err(e) => Err(e@),
    }
}

/// What both reply parsers of cw-utils answer before they read the data: the
/// sub-message's own error, or a complaint about missing data.
pub open spec fn reply_without_data<V>(reply: &Reply, r: Result<V, ParseReplyErrorView>) -> bool {
    match reply.result {
        Err(e) => r == Err::<V, ParseReplyErrorView>(ParseReplyErrorView::SubMsgFailure(e@)),
        Ok(resp) => resp.data is None ==> r == Err::<V, ParseReplyErrorView>(
            ParseReplyErrorView::ParseFailure("Missing reply data"@),
        ),
    }
}

/// `cw_utils::parse_reply_instantiate_data`, answering the new contract's
/// address. What it claims: a failed sub-message gives `SubMsgFailure` with
/// its error, missing data gives `ParseFailure("Missing reply data")`, and
/// present data gives [`instantiate_reply_address`] of it.
#[verifier::external_body]
#[allow(deprecated)]
pub(crate) fn parse_reply_instantiate_data(reply: &Reply) -> (r: Result<String, ParseReplyError>)
    ensures
        reply_without_data(reply, parsed_view(r, |s: String| s@)),
        match reply.result {
            Ok(resp) => match resp.data {
                Some(d) => parsed_view(r, |s: String| s@) == instantiate_reply_address(d@),
                None => true,
            },
            Err(_) => true,
        },
{
    let result = match &reply.result {
        Ok(r) => Ok(cosmwasm_std::SubMsgResponse { events: vec![], data: r.data.clone().map(cosmwasm_std::Binary) }),
        Err(e) => Err(e.clone()),
    };
    match cw_utils::parse_reply_instantiate_data(cosmwasm_std::Reply { id: reply.id, result: result.into() }) {
        Ok(res) => Ok(res.contract_address),
        Err(cw_utils::ParseReplyError::SubMsgFailure(s)) => Err(ParseReplyError::SubMsgFailure(s)),
        Err(cw_utils::ParseReplyError::ParseFailure(s)) => Err(ParseReplyError::ParseFailure(s)),
        Err(cw_utils::ParseReplyError::BrokenUtf8(_)) => Err(ParseReplyError::BrokenUtf8),
    }
}

/// `cw_utils::parse_reply_execute_data`, answering the data the contract
/// answered. What it claims: as [`parse_reply_instantiate_data`], with
/// [`execute_reply_data`] for present data.
#[verifier::external_body]
#[allow(deprecated)]
pub(crate) fn parse_reply_execute_data(reply: &Reply) -> (r: Result<Option<Vec<u8>>, ParseReplyError>)
    ensures
        reply_without_data(reply, parsed_view(r, |d: Option<Vec<u8>>| opt_bytes(d))),
        match reply.result {
            Ok(resp) => match resp.data {
                Some(d) => parsed_view(r, |d: Option<Vec<u8>>| opt_bytes(d)) == execute_reply_data(d@),
                None => true,
            },
            Err(_) => true,
        },
{
    let result = match &reply.result {
        Ok(r) => Ok(cosmwasm_std::SubMsgResponse { events: vec![], data: r.data.clone().map(cosmwasm_std::Binary) }),
        Err(e) => Err(e.clone()),
    };
    match cw_utils::parse_reply_execute_data(cosmwasm_std::Reply { id: reply.id, result: result.into() }) {
        Ok(res) => Ok(res.data.map(|b| b.0)),
        Err(cw_utils::ParseReplyError::SubMsgFailure(s)) => Err(ParseReplyError::SubMsgFailure(s)),
        Err(cw_utils::ParseReplyError::ParseFailure(s)) => Err(ParseReplyError::ParseFailure(s)),
        Err(cw_utils::ParseReplyError::BrokenUtf8(_)) => Err(ParseReplyError::BrokenUtf8),
    }
}

/// The value of optional bytes.
pub open spec fn opt_bytes(d: Option<Vec<u8>>) -> Option<Seq<u8>> {
    match d {
        Some(v) => Some(v@),
        None => None,
    }
}

} // verus!
