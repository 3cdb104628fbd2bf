//! Picking the metadata of a minted pair of NFTs and building the mint
//! messages for the two collections.
use vstd::prelude::*;
use vstd::utf8::encode_utf8;
use crate::contract::{mint_reply_id, Collection};
use crate::error::ContractError;
use crate::metadata::{extension_view, json_extension, push_json_extension, Metadata, MetadataView};
use crate::neon_peepz::{
    spec_bot_legend, spec_denom_legend, spec_fairy_legend, spec_rand_peep, NeonPeepzExtension,
    RandomNP,
};
use crate::randomness::{int_in_range, ints_in_range, nois_int_in_range, nois_ints_in_range};
use crate::response::{reply_on_success, submsgs_view, ReplyOn, SubMsg, SubMsgView, WasmMsg, WasmMsgView};
use crate::shitty_kittyz::{spec_common_sk, spec_legendary_sk, RandomSK, ShittyKittyzExtension};
use crate::text::{decimal, json_string, lemma_concat_regroup, push_json_string, u32_to_decimal};

verus! {

/// The kitty for a legend catch number and a fur colour: the legendary kitty
/// when the number is 333, otherwise the common kitty of that fur.
pub open spec fn spec_generate_sk_metadata(legend_check_num: u32, furcolortrait: u32) -> MetadataView {
    if legend_check_num != 333 {
        spec_common_sk(furcolortrait)
    } else {
        spec_legendary_sk()
    }
}

/// The peep for a legend catch number and two traits: the Bot at 111, the
/// Fairy at 222, the Demon at 333, otherwise the common peep of the traits.
pub open spec fn spec_generate_np_metadata(legend_check_num: u32, nptrait1: u32, nptrait2: u32) -> MetadataView {
    if legend_check_num == 111 {
        spec_bot_legend()
    } else if legend_check_num == 222 {
        spec_fairy_legend()
    } else if legend_check_num == 333 {
        spec_denom_legend()
    } else {
        spec_rand_peep(nptrait1, nptrait2)
    }
}

pub fn generate_sk_metadata(legend_check_num: u32, furcolortrait: u32) -> (r: ShittyKittyzExtension)
    ensures
        extension_view(r) == Some(spec_generate_sk_metadata(legend_check_num, furcolortrait)),
{
    if legend_check_num != 333 {
        ShittyKittyzExtension::rand_common_sk_metadata(furcolortrait)
    } else {
        ShittyKittyzExtension::legendary_sk_metadata()
    }
}

pub fn generate_np_metadata(legend_check_num: u32, nptrait1: u32, nptrait2: u32) -> (r: NeonPeepzExtension)
    ensures
        extension_view(r) == Some(spec_generate_np_metadata(legend_check_num, nptrait1, nptrait2)),
{
    if legend_check_num == 111 {
        NeonPeepzExtension::bot_legend()
    } else if legend_check_num == 222 {
        NeonPeepzExtension::fairy_legend()
    } else if legend_check_num == 333 {
        NeonPeepzExtension::denom_legend()
    } else {
        NeonPeepzExtension::rand_peep(nptrait1, nptrait2)
    }
}

/// JSON of the cw721 `Mint` execute message: token number `count`, token id
/// its decimal text, no token URI.
pub open spec fn json_mint(count: u32, owner: Seq<char>, extension: Option<MetadataView>) -> Seq<char> {
    "{\"mint\":{\"count\":"@ + decimal(count as nat) + ",\"token_id\":"@ + json_string(
        decimal(count as nat),
    ) + ",\"owner\":"@ + json_string(owner) + ",\"token_uri\":null,\"extension\":"@
        + json_extension(extension) + "}}"@
}

/// The sub-message that mints token `count` of a collection to `owner`,
/// answered on success with a reply carrying `id`.
pub open spec fn mint_submsg(
    id: u64,
    contract: Seq<char>,
    count: u32,
    owner: Seq<char>,
    extension: Option<MetadataView>,
) -> SubMsgView {
    reply_on_success(
        id,
        WasmMsgView::Execute {
            contract_addr: contract,
            msg: encode_utf8(json_mint(count, owner, extension)),
            funds: Seq::empty(),
        },
    )
}

fn mint_json(count: u32, owner: &String, extension: &Option<Metadata>) -> (s: String)
    ensures
        s@ == json_mint(count, owner@, extension_view(*extension)),
{
    broadcast use lemma_concat_regroup;

    let token_id = u32_to_decimal(count);
    let mut s = String::new();
    s.append("{\"mint\":{\"count\":");
    s.append(token_id.as_str());
    s.append(",\"token_id\":");
    push_json_string(&mut s, token_id.as_str());
    s.append(",\"owner\":");
    push_json_string(&mut s, owner.as_str());
    s.append(",\"token_uri\":null,\"extension\":");
    push_json_extension(&mut s, extension);
    s.append("}}");
    assert(s@ =~= json_mint(count, owner@, extension_view(*extension)));
    s
}

fn mint_submessage(id: u64, contract: String, count: u32, owner: &String, extension: &Option<Metadata>) -> (m: SubMsg)
    ensures
        m@ == mint_submsg(id, contract@, count, owner@, extension_view(*extension)),
{
    let json = mint_json(count, owner, extension);
    let funds = Vec::new();
    let m = SubMsg {
        id,
        msg: WasmMsg::Execute { contract_addr: contract, msg: json.as_str().as_bytes_vec(), funds },
        gas_limit: None,
        reply_on: ReplyOn::Success,
    };
    assert(crate::response::coins_view(funds@) =~= Seq::empty());
    m
}

/// The two mint sub-messages: token `np_count` of NeoNPeePz (reply id 3),
/// then token `sk_count` of ShittyKittyz (reply id 4), both owned by the
/// user.
pub open spec fn spec_mint_pair(
    np_faucet_addr: Seq<char>,
    np_count: u32,
    np_metadata: Option<MetadataView>,
    sk_faucet_addr: Seq<char>,
    sk_count: u32,
    sk_metadata: Option<MetadataView>,
    user_wallet: Seq<char>,
) -> Seq<SubMsgView> {
    seq![
        mint_submsg(mint_reply_id(Collection::NeonPeepz), np_faucet_addr, np_count, user_wallet, np_metadata),
        mint_submsg(mint_reply_id(Collection::ShittyKittyz), sk_faucet_addr, sk_count, user_wallet, sk_metadata),
    ]
}

pub fn construct_submsgs(
    np_faucet_addr: String,
    np_count: u32,
    np_metadata: NeonPeepzExtension,
    sk_faucet_addr: String,
    sk_count: u32,
    sk_metadata: ShittyKittyzExtension,
    user_wallet: String,
) -> (r: Result<Vec<SubMsg>, ContractError>)
    ensures
        r matches Ok(v) && submsgs_view(v@) == spec_mint_pair(
            np_faucet_addr@,
            np_count,
            extension_view(np_metadata),
            sk_faucet_addr@,
            sk_count,
            extension_view(sk_metadata),
            user_wallet@,
        ),
{
    let np_sub_msg = mint_submessage(3, np_faucet_addr, np_count, &user_wallet, &np_metadata);
    let sk_sub_msg = mint_submessage(4, sk_faucet_addr, sk_count, &user_wallet, &sk_metadata);
    let v = vec![np_sub_msg, sk_sub_msg];
    assert(submsgs_view(v@) =~= seq![np_sub_msg@, sk_sub_msg@]);
    Ok(v)
}

/// The mint pair that a randomness gives: the kitty's fur is
/// `int_in_range(1..=3)`, the peep's two traits `ints_in_range(2, 1..=2)`,
/// and the legend catch numbers of kitty and peep `ints_in_range(2, 1..=333)`.
pub open spec fn spec_mint_submsgs(
    np_faucet_addr: Seq<char>,
    np_count: u32,
    sk_faucet_addr: Seq<char>,
    sk_count: u32,
    user_wallet: Seq<char>,
    randomness: Seq<u8>,
) -> Seq<SubMsgView> {
    let sktrait = nois_int_in_range(randomness, 1, 3);
    let nptraits = nois_ints_in_range(randomness, 2, 1, 2);
    let legends = nois_ints_in_range(randomness, 2, 1, 333);
    spec_mint_pair(
        np_faucet_addr,
        np_count,
        Some(spec_generate_np_metadata(legends[1], nptraits[0], nptraits[1])),
        sk_faucet_addr,
        sk_count,
        Some(spec_generate_sk_metadata(legends[0], sktrait)),
        user_wallet,
    )
}

pub fn make_mint_submsgs(
    np_faucet_addr: String,
    np_count: u32,
    sk_faucet_addr: String,
    sk_count: u32,
    user_wallet: String,
    randomness: [u8; 32],
) -> (r: Result<Vec<SubMsg>, ContractError>)
    ensures
        r matches Ok(v) && submsgs_view(v@) == spec_mint_submsgs(
            np_faucet_addr@,
            np_count,
            sk_faucet_addr@,
            sk_count,
            user_wallet@,
            randomness@,
        ),
{
    // A kitty has one arbitrary trait, its fur colour, one of three.
    let sktrait = int_in_range(randomness, 1, 3);
    // A peep has two arbitrary traits.
    let nptraits = ints_in_range(randomness, 2, 1, 2);
    // The legend catch numbers.
    let legends = ints_in_range(randomness, 2, 1, 333);
    let np_metadata = generate_np_metadata(legends[1], nptraits[0], nptraits[1]);
    let sk_metadata = generate_sk_metadata(legends[0], sktrait);
    construct_submsgs(
        np_faucet_addr,
        np_count,
        np_metadata,
        sk_faucet_addr,
        sk_count,
        sk_metadata,
        user_wallet,
    )
}

} // verus!
