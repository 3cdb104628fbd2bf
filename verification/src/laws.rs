//! Properties of the hub that span its operations.
use vstd::prelude::*;
use crate::contract::{
    attributes_only, collection_for_id, faucet_for_id, instantiate_reply_id, is_admin, json_job_id,
    may_hit_faucet, mint_reply_id, next_job, reply_error_prefix, spec_admin_candidate,
    spec_callback_mints, spec_cw20_mints, spec_initial_state, spec_instantiate_faucet,
    spec_randomness_request, with_admin, with_faucet, with_job, with_nois_beacon, with_next_token,
    Collection, Faucet,
};
use crate::response::{spec_has_coins, CoinView, ReplyOn, ResponseView, WasmMsgView};
use crate::randomness::{nois_first_sub_randomness, nois_int_in_range, nois_ints_in_range};
use crate::text::{decimal, json_escape, lemma_decimal_injective, lemma_escape_prefix_free};
use crate::metadata::MetadataView;
use crate::shitty_kittyz::spec_kitty_for_height;
use crate::neon_peepz::spec_rand_peep;
use crate::state::HubStateView;
use crate::utils::{spec_generate_np_metadata, spec_generate_sk_metadata, spec_mint_pair};

verus! {

/// The job number after `n` randomness requests, starting from the first.
pub open spec fn job_after(n: nat) -> u32
    decreases n,
{
    if n == 0 {
        1
    } else {
        next_job(job_after((n - 1) as nat))
    }
}

/// Instantiation starts the job numbers in range, and each request keeps
/// them there.
pub proof fn law_job_number_in_range(admin: Seq<char>, nois: Seq<char>, s: HubStateView)
    ensures
        spec_initial_state(admin, nois).wf(),
        s.wf() ==> with_job(s, next_job(s.job_increment)).wf(),
{
}

/// A randomness request never reuses the job number of the one before.
pub proof fn law_consecutive_jobs_differ(j: u32)
    requires
        1 <= j <= u32::MAX - 1,
    ensures
        next_job(j) != j,
{
}

/// The job numbers run 1, 2, 3, ... up to `u32::MAX - 1` and then start
/// again at 1: the first `u32::MAX - 1` requests all get distinct numbers,
/// so their randomness keys all differ.
pub proof fn law_job_numbers_cycle(n: nat)
    ensures
        n < u32::MAX - 1 ==> job_after(n) == n + 1,
        n == u32::MAX - 1 ==> job_after(n) == 1,
    decreases n,
{
    if n > 0 {
        law_job_numbers_cycle((n - 1) as nat);
    }
}

/// Requests within one cycle of job numbers get distinct numbers.
pub proof fn law_job_numbers_distinct(a: nat, b: nat)
    requires
        a < u32::MAX - 1,
        b < u32::MAX - 1,
        a != b,
    ensures
        job_after(a) != job_after(b),
{
    law_job_numbers_cycle(a);
    law_job_numbers_cycle(b);
}

/// Handing the hub to a new admin makes only the new admin an admin, and
/// changes nothing else.
pub proof fn law_update_admin_transfers_control(s: HubStateView, new_admin: Seq<char>, other: Seq<char>)
    ensures
        is_admin(with_admin(s, new_admin), new_admin),
        other != new_admin ==> !is_admin(with_admin(s, new_admin), other),
        with_admin(s, new_admin).config.nois_beacon == s.config.nois_beacon,
        with_admin(s, new_admin).job_increment == s.job_increment,
        with_admin(s, new_admin).np_count == s.np_count,
        with_admin(s, new_admin).sk_count == s.sk_count,
{
}

/// Pointing the hub at a new Nois proxy leaves the admin as it was.
pub proof fn law_update_nois_keeps_admin(s: HubStateView, nois: Seq<char>)
    ensures
        with_nois_beacon(s, nois).config.admin == s.config.admin,
        with_nois_beacon(s, nois).config.nois_beacon == nois,
{
}

/// A faucet's reply stores that faucet's address and no other.
pub proof fn law_faucet_reply_stores_one_faucet(s: HubStateView, f: Faucet, a: Seq<char>)
    ensures
        ({
            let t = with_faucet(s, f, a).config;
            &&& f == Faucet::NeonPeepz ==> t.neon_peepz_addy == Some(a)
            &&& f == Faucet::ShittyKittyz ==> t.shitty_kittyz_addy == Some(a)
            &&& f == Faucet::Cw20One ==> t.cw20_one_faucet_addy == Some(a)
            &&& f == Faucet::Cw20Two ==> t.cw20_two_faucet_addy == Some(a)
            &&& f == Faucet::Cw20Tre ==> t.cw20_tre_faucet_addy == Some(a)
            &&& f != Faucet::NeonPeepz ==> t.neon_peepz_addy == s.config.neon_peepz_addy
            &&& f != Faucet::ShittyKittyz ==> t.shitty_kittyz_addy == s.config.shitty_kittyz_addy
            &&& f != Faucet::Cw20One ==> t.cw20_one_faucet_addy == s.config.cw20_one_faucet_addy
            &&& f != Faucet::Cw20Two ==> t.cw20_two_faucet_addy == s.config.cw20_two_faucet_addy
            &&& f != Faucet::Cw20Tre ==> t.cw20_tre_faucet_addy == s.config.cw20_tre_faucet_addy
            &&& t.admin == s.config.admin
            &&& t.nois_beacon == s.config.nois_beacon
        }),
        with_faucet(s, f, a).np_count == s.np_count,
        with_faucet(s, f, a).sk_count == s.sk_count,
        with_faucet(s, f, a).job_increment == s.job_increment,
{
}

/// A mint's reply moves its own collection's token number one up, and
/// nothing else.
pub proof fn law_mint_counts_its_collection(s: HubStateView, c: Collection)
    requires
        c == Collection::NeonPeepz ==> s.np_count < u32::MAX,
        c == Collection::ShittyKittyz ==> s.sk_count < u32::MAX,
    ensures
        c == Collection::NeonPeepz ==> with_next_token(s, c).np_count == s.np_count + 1
            && with_next_token(s, c).sk_count == s.sk_count,
        c == Collection::ShittyKittyz ==> with_next_token(s, c).sk_count == s.sk_count + 1
            && with_next_token(s, c).np_count == s.np_count,
        with_next_token(s, c).config == s.config,
        with_next_token(s, c).job_increment == s.job_increment,
{
}

/// Every minted token has a name, an image, a description and three
/// traits, and nothing else.
pub open spec fn is_collection_item(m: MetadataView) -> bool {
    &&& m.name is Some
    &&& m.image is Some
    &&& m.description is Some
    &&& m.attributes matches Some(a) && a.len() == 3
    &&& m.image_data is None
    &&& m.external_url is None
    &&& m.background_color is None
    &&& m.animation_url is None
    &&& m.youtube_url is None
}

/// Whatever the randomness gives, both minted tokens are collection items.
pub proof fn law_minted_metadata_shape(legend: u32, t1: u32, t2: u32, fur: u32)
    ensures
        is_collection_item(spec_generate_np_metadata(legend, t1, t2)),
        is_collection_item(spec_generate_sk_metadata(legend, fur)),
{
}

/// Whether a token's first trait is the archetype of the legends.
pub open spec fn is_deity(m: MetadataView) -> bool {
    m.attributes matches Some(a) && a.len() > 0 && a[0].value == "Deity"@
}

/// Whether a token's third trait is the rarity of the legendary kitty.
pub open spec fn is_epic(m: MetadataView) -> bool {
    m.attributes matches Some(a) && a.len() > 2 && a[2].value == "Epic"@
}

/// A NeoNPeePz token is a legend (a deity) exactly when its legend catch
/// number is 111, 222 or 333.
pub proof fn law_np_legend_only_on_catch_numbers(legend: u32, t1: u32, t2: u32)
    ensures
        is_deity(spec_generate_np_metadata(legend, t1, t2)) <==> (legend == 111 || legend == 222
            || legend == 333),
{
    reveal_strlit("Deity");
    reveal_strlit("Hero");
    reveal_strlit("Villain");
    assert("Hero"@.len() != "Deity"@.len());
    assert("Villain"@.len() != "Deity"@.len());
}

/// A ShittyKittyz token is the epic kitty exactly when its legend catch
/// number is 333.
pub proof fn law_sk_legend_only_on_catch_number(legend: u32, fur: u32)
    ensures
        is_epic(spec_generate_sk_metadata(legend, fur)) <==> legend == 333,
{
    reveal_strlit("Epic");
    reveal_strlit("Common");
    assert("Common"@.len() != "Epic"@.len());
}

/// A kitty minted by block height is the epic kitty exactly when the
/// height's last two decimal digits are 33.
pub proof fn law_kitty_height_legend(blockheight: u64)
    ensures
        is_epic(spec_kitty_for_height(blockheight)) <==> blockheight % 100 == 33,
{
    reveal_strlit("Epic");
    reveal_strlit("Common");
    assert("Common"@.len() != "Epic"@.len());
}

/// A callback mints exactly two tokens, the next of each collection, both
/// owned by the user that the job names, whatever the randomness.
pub proof fn law_callback_mints_pair_to_job_owner(s: HubStateView, user: Seq<char>, job: u32, randomness: Seq<u8>)
    ensures
        exists|np: MetadataView, sk: MetadataView|
            #[trigger] spec_callback_mints(s, user, job, randomness).messages == spec_mint_pair(
                s.config.neon_peepz_addy->0,
                s.np_count,
                Some(np),
                s.config.shitty_kittyz_addy->0,
                s.sk_count,
                Some(sk),
                user,
            ),
{
    let sub = nois_first_sub_randomness(randomness, decimal(job as nat));
    let sktrait = nois_int_in_range(sub, 1, 3);
    let nptraits = nois_ints_in_range(sub, 2, 1, 2);
    let legends = nois_ints_in_range(sub, 2, 1, 333);
    let np = spec_generate_np_metadata(legends[1], nptraits[0], nptraits[1]);
    let sk = spec_generate_sk_metadata(legends[0], sktrait);
    assert(spec_callback_mints(s, user, job, randomness).messages == spec_mint_pair(
        s.config.neon_peepz_addy->0,
        s.np_count,
        Some(np),
        s.config.shitty_kittyz_addy->0,
        s.sk_count,
        Some(sk),
        user,
    ));
}

/// A job id text names one job: different users or job numbers give
/// different texts, so the text the hub sends reads back to the job it
/// named.
pub proof fn law_job_id_text_names_one_job(ad1: Seq<char>, id1: u32, ad2: Seq<char>, id2: u32)
    requires
        json_job_id(ad1, id1) == json_job_id(ad2, id2),
    ensures
        ad1 == ad2,
        id1 == id2,
{
    reveal_strlit("{\"ad\":");
    reveal_strlit(",\"id\":");
    reveal_strlit("}");
    let p = "{\"ad\":"@ + seq!['"'];
    let q = seq!['"'] + ",\"id\":"@;
    let x1 = q + (decimal(id1 as nat) + "}"@);
    let x2 = q + (decimal(id2 as nat) + "}"@);
    let t1 = json_job_id(ad1, id1);
    let t2 = json_job_id(ad2, id2);
    assert(t1 =~= p + (json_escape(ad1) + x1));
    assert(t2 =~= p + (json_escape(ad2) + x2));
    assert(json_escape(ad1) + x1 =~= t1.subrange(p.len() as int, t1.len() as int));
    assert(json_escape(ad2) + x2 =~= t2.subrange(p.len() as int, t2.len() as int));
    assert(x1[0] == '"' && x2[0] == '"');
    lemma_escape_prefix_free(ad1, ad2, x1, x2);
    let d1 = decimal(id1 as nat);
    let d2 = decimal(id2 as nat);
    assert(d1 + "}"@ =~= x1.subrange(q.len() as int, x1.len() as int));
    assert(d2 + "}"@ =~= x2.subrange(q.len() as int, x2.len() as int));
    assert(d1 =~= (d1 + "}"@).subrange(0, d1.len() as int));
    assert(d2 =~= (d2 + "}"@).subrange(0, d2.len() as int));
    lemma_decimal_injective(id1 as nat, id2 as nat);
}

/// One paid hit mints two NFTs owned by its caller. The hit asks the Nois
/// proxy for a randomness under the job id text of the caller and the job
/// number (see `execute_hit_faucet_nft`); the callback's job reads back to
/// that text, and the caller's address validates to itself; then the
/// callback mints exactly the next token of each collection to the caller
/// (see `execute_nois_callback`).
pub proof fn law_paid_hit_mints_to_its_caller(
    s: HubStateView,
    caller: Seq<char>,
    back: HubStateView,
    ad: Seq<char>,
    id: u32,
    wallet: Seq<char>,
    randomness: Seq<u8>,
)
    requires
        json_job_id(ad, id) == json_job_id(caller, s.job_increment),
        wallet == ad,
    ensures
        ad == caller,
        id == s.job_increment,
        exists|np: MetadataView, sk: MetadataView|
            #[trigger] spec_callback_mints(back, wallet, id, randomness).messages == spec_mint_pair(
                back.config.neon_peepz_addy->0,
                back.np_count,
                Some(np),
                back.config.shitty_kittyz_addy->0,
                back.sk_count,
                Some(sk),
                caller,
            ),
{
    law_job_id_text_names_one_job(ad, id, caller, s.job_increment);
    law_callback_mints_pair_to_job_owner(back, wallet, id, randomness);
}

/// The funds a wasm message sends.
pub open spec fn message_funds(m: WasmMsgView) -> Seq<CoinView> {
    match m {
        WasmMsgView::Execute { funds, .. } => funds,
        WasmMsgView::Instantiate { funds, .. } => funds,
    }
}

/// Whether no message of a response sends funds.
pub open spec fn sends_no_funds(r: ResponseView) -> bool {
    forall|i: int| 0 <= i < r.messages.len() ==> message_funds(#[trigger] r.messages[i].msg) == Seq::<CoinView>::empty()
}

/// The 5 junox a caller pays stay in the hub. Every response of the hub is
/// one of these forms (see the contracts in `contract.rs`); its messages
/// are wasm messages, never bank transfers, and none sends funds but the
/// randomness request, which pays the Nois proxy exactly its 150 ujunox fee.
pub proof fn law_only_the_nois_fee_leaves_the_hub(
    attr_key: Seq<char>,
    id: u64,
    admin: Option<Seq<char>>,
    code_id: u64,
    msg: Seq<u8>,
    label: Seq<char>,
    one: Seq<char>,
    two: Seq<char>,
    tre: Seq<char>,
    recipient: Seq<char>,
    back: HubStateView,
    user: Seq<char>,
    job: u32,
    randomness: Seq<u8>,
    attributes: Seq<(Seq<char>, Seq<char>)>,
    nois_beacon: Seq<char>,
    job_id: Seq<char>,
)
    ensures
        sends_no_funds(spec_instantiate_faucet(attr_key, id, admin, code_id, msg, label)),
        sends_no_funds(spec_cw20_mints(one, two, tre, recipient)),
        sends_no_funds(spec_callback_mints(back, user, job, randomness)),
        sends_no_funds(attributes_only(attributes)),
        spec_randomness_request(nois_beacon, job_id).messages.len() == 1,
        message_funds(spec_randomness_request(nois_beacon, job_id).messages[0].msg) == seq![
            CoinView { denom: "ujunox"@, amount: 150 },
        ],
{
    assert(sends_no_funds(spec_callback_mints(back, user, job, randomness))) by {
        law_callback_mints_pair_to_job_owner(back, user, job, randomness);
        let (np, sk) = choose|np: MetadataView, sk: MetadataView|
            #[trigger] spec_callback_mints(back, user, job, randomness).messages == spec_mint_pair(
                back.config.neon_peepz_addy->0,
                back.np_count,
                Some(np),
                back.config.shitty_kittyz_addy->0,
                back.sk_count,
                Some(sk),
                user,
            );
        lemma_mint_pair_sends_no_funds(
            back.config.neon_peepz_addy->0,
            back.np_count,
            Some(np),
            back.config.shitty_kittyz_addy->0,
            back.sk_count,
            Some(sk),
            user,
        );
    }
}

proof fn lemma_mint_pair_sends_no_funds(
    np_faucet: Seq<char>,
    np_count: u32,
    np: Option<MetadataView>,
    sk_faucet: Seq<char>,
    sk_count: u32,
    sk: Option<MetadataView>,
    owner: Seq<char>,
)
    ensures
        ({
            let m = spec_mint_pair(np_faucet, np_count, np, sk_faucet, sk_count, sk, owner);
            forall|i: int| 0 <= i < m.len() ==> message_funds(#[trigger] m[i].msg) == Seq::<CoinView>::empty()
        }),
{
    let m = spec_mint_pair(np_faucet, np_count, np, sk_faucet, sk_count, sk, owner);
    assert(m.len() == 2);
    assert(message_funds(m[0].msg) == Seq::<CoinView>::empty());
    assert(message_funds(m[1].msg) == Seq::<CoinView>::empty());
}

/// Every faucet's instantiation reply is read back as that faucet, and
/// every mint's reply as that collection: the id the hub attaches to a
/// sub-message names what the reply stores or counts.
pub proof fn law_reply_ids_round_trip(f: Faucet, c: Collection)
    ensures
        faucet_for_id(instantiate_reply_id(f)) == Some(f),
        collection_for_id(instantiate_reply_id(f)) is None,
        collection_for_id(mint_reply_id(c)) == Some(c),
        faucet_for_id(mint_reply_id(c)) is None,
{
}

/// A reply's failures are named after the sub-message they answer.
pub proof fn law_reply_failures_name_their_sub_message(f: Faucet, c: Collection)
    ensures
        (f == Faucet::NeonPeepz || f == Faucet::ShittyKittyz) ==> reply_error_prefix(
            instantiate_reply_id(f),
        ) == "Init_"@,
        f == Faucet::Cw20One ==> reply_error_prefix(instantiate_reply_id(f)) == "JVONE_Init_"@,
        f == Faucet::Cw20Two ==> reply_error_prefix(instantiate_reply_id(f)) == "JVTWO_Init_"@,
        f == Faucet::Cw20Tre ==> reply_error_prefix(instantiate_reply_id(f)) == "JVTRE_Init_"@,
        c == Collection::NeonPeepz ==> reply_error_prefix(mint_reply_id(c)) == "NP_Mint_"@,
        c == Collection::ShittyKittyz ==> reply_error_prefix(mint_reply_id(c)) == "SK_Mint_"@,
{
}

/// The contract a wasm message goes to.
pub open spec fn message_contract(m: WasmMsgView) -> Seq<char> {
    match m {
        WasmMsgView::Execute { contract_addr, .. } => contract_addr,
        WasmMsgView::Instantiate { .. } => Seq::empty(),
    }
}

/// Both mints of a callback ask for a reply on success, under the id the
/// reply handler counts for the collection it mints on, so that every
/// successful mint moves that collection's token number.
pub proof fn law_callback_mints_are_counted(
    np_faucet: Seq<char>,
    np_count: u32,
    np: Option<MetadataView>,
    sk_faucet: Seq<char>,
    sk_count: u32,
    sk: Option<MetadataView>,
    owner: Seq<char>,
)
    ensures
        ({
            let m = spec_mint_pair(np_faucet, np_count, np, sk_faucet, sk_count, sk, owner);
            &&& m.len() == 2
            &&& m[0].reply_on == ReplyOn::Success
            &&& m[1].reply_on == ReplyOn::Success
            &&& m[0].msg is Execute && message_contract(m[0].msg) == np_faucet
            &&& m[1].msg is Execute && message_contract(m[1].msg) == sk_faucet
            &&& collection_for_id(m[0].id) == Some(Collection::NeonPeepz)
            &&& collection_for_id(m[1].id) == Some(Collection::ShittyKittyz)
        }),
{
}

/// The named admin is the admin an instantiation asks for; only without one
/// is it the sender.
pub proof fn law_named_admin_is_the_candidate(sender: Seq<char>, admin: Option<String>)
    ensures
        admin matches Some(a) ==> spec_admin_candidate(sender, admin) == a@,
        admin is None ==> spec_admin_candidate(sender, admin) == sender,
{
}

/// The value of a token's `i`-th trait.
pub open spec fn trait_value(m: MetadataView, i: int) -> Seq<char> {
    m.attributes->0[i].value
}

/// The kind of a token's `i`-th trait.
pub open spec fn trait_kind(m: MetadataView, i: int) -> Seq<char> {
    m.attributes->0[i].trait_type
}

/// A kitty minted by block height, unless the height ends in 33, has the
/// fur its last decimal digit gives: brown for 1, 5, 8; gray for 2, 4, 9, 0;
/// orange for 3, 6, 7; and is common.
pub proof fn law_kitty_fur_by_last_digit(h: u64)
    requires
        h % 100 != 33,
    ensures
        trait_kind(spec_kitty_for_height(h), 0) == "Fur"@,
        (h % 10 == 1 || h % 10 == 5 || h % 10 == 8) ==> trait_value(spec_kitty_for_height(h), 0)
            == "Brown"@,
        (h % 10 == 2 || h % 10 == 4 || h % 10 == 9 || h % 10 == 0) ==> trait_value(
            spec_kitty_for_height(h),
            0,
        ) == "Gray"@,
        (h % 10 == 3 || h % 10 == 6 || h % 10 == 7) ==> trait_value(spec_kitty_for_height(h), 0)
            == "Orange"@,
        trait_value(spec_kitty_for_height(h), 2) == "Common"@,
{
}

/// A kitty minted from randomness, unless its catch number is 333, is
/// common with fur colour 1 brown, 2 gray and any other orange; at 333 it
/// is the epic galactic kitty.
pub proof fn law_kitty_fur_by_colour(legend: u32, fur: u32)
    ensures
        legend != 333 && fur == 1 ==> trait_value(spec_generate_sk_metadata(legend, fur), 0) == "Brown"@,
        legend != 333 && fur == 2 ==> trait_value(spec_generate_sk_metadata(legend, fur), 0) == "Gray"@,
        legend != 333 && fur != 1 && fur != 2 ==> trait_value(spec_generate_sk_metadata(legend, fur), 0)
            == "Orange"@,
        legend != 333 ==> trait_value(spec_generate_sk_metadata(legend, fur), 2) == "Common"@,
        legend == 333 ==> trait_value(spec_generate_sk_metadata(legend, fur), 0) == "Galactic"@,
        legend == 333 ==> trait_value(spec_generate_sk_metadata(legend, fur), 2) == "Epic"@,
{
}

/// A common peep's class comes from its first trait alone (1: Mage,
/// otherwise Warrior) and its archetype from the second alone (1: Hero,
/// otherwise Villain); a mage wields a cracked staff, a warrior a dull
/// blade; and its name is archetype, a dash, and class.
pub proof fn law_peep_traits(t1: u32, t2: u32)
    ensures
        ({
            let m = spec_rand_peep(t1, t2);
            let archetype = if t2 == 1 { "Hero"@ } else { "Villain"@ };
            let class = if t1 == 1 { "Mage"@ } else { "Warrior"@ };
            &&& trait_kind(m, 0) == "Archetype"@ && trait_value(m, 0) == archetype
            &&& trait_kind(m, 1) == "Class"@ && trait_value(m, 1) == class
            &&& trait_kind(m, 2) == "Weapon"@
            &&& trait_value(m, 2) == if t1 == 1 { "Cracked Staff"@ } else { "Dull Blade"@ }
            &&& m.name == Some(archetype + "-"@ + class)
        }),
{
    reveal_strlit("Hero");
    reveal_strlit("Villain");
    reveal_strlit("Mage");
    reveal_strlit("Warrior");
    reveal_strlit("-");
    reveal_strlit("Hero-Mage");
    reveal_strlit("Villain-Mage");
    reveal_strlit("Hero-Warrior");
    reveal_strlit("Villain-Warrior");
    assert("Hero-Mage"@ =~= "Hero"@ + "-"@ + "Mage"@);
    assert("Villain-Mage"@ =~= "Villain"@ + "-"@ + "Mage"@);
    assert("Hero-Warrior"@ =~= "Hero"@ + "-"@ + "Warrior"@);
    assert("Villain-Warrior"@ =~= "Villain"@ + "-"@ + "Warrior"@);
}

/// Each legend catch number gives its own legend, whatever the traits:
/// 111 the robotic bot, 222 the celestial fairy, 333 the cursed demon.
pub proof fn law_legend_classes(legend: u32, t1: u32, t2: u32)
    ensures
        legend == 111 ==> trait_value(spec_generate_np_metadata(legend, t1, t2), 1) == "Robotic"@,
        legend == 222 ==> trait_value(spec_generate_np_metadata(legend, t1, t2), 1) == "Celestial"@,
        legend == 333 ==> trait_value(spec_generate_np_metadata(legend, t1, t2), 1) == "Cursed"@,
        legend == 111 ==> spec_generate_np_metadata(legend, t1, t2).name == Some("Legendary Bot"@),
        legend == 222 ==> spec_generate_np_metadata(legend, t1, t2).name == Some("Legendary Fairy"@),
        legend == 333 ==> spec_generate_np_metadata(legend, t1, t2).name == Some("Legendary Demon"@),
{
}

/// The faucets' price is 5 junox: anyone whose first ujunox coin holds at
/// least 5 000 000 ujunox may hit them, and so may the admin.
pub proof fn law_faucet_price(s: HubStateView, sender: Seq<char>, funds: Seq<CoinView>)
    ensures
        may_hit_faucet(s, sender, funds) <==> (s.config.admin == sender || spec_has_coins(
            funds,
            CoinView { denom: "ujunox"@, amount: 5000000 },
        )),
{
}

} // verus!
