//! The messages and responses that the hub hands back to the chain, and
//! the replies it receives, held as plain values.
use vstd::prelude::*;

verus! {

/// An amount of one native denomination.
#[derive(Clone, Debug, PartialEq)]
pub struct Coin {
    pub denom: String,
    pub amount: u128,
}

/// The value of a [`Coin`].
pub struct CoinView {
    pub denom: Seq<char>,
    pub amount: u128,
}

impl View for Coin {
    type V = CoinView;

    open spec fn view(&self) -> CoinView {
        CoinView { denom: self.denom@, amount: self.amount }
    }
}

/// The value of a list of coins.
pub open spec fn coins_view(v: Seq<Coin>) -> Seq<CoinView> {
    v.map_values(|c: Coin| c@)
}

/// `coin(amount, denom)`.
pub fn coin(amount: u128, denom: &str) -> (c: Coin)
    ensures
        c@ == (CoinView { denom: denom@, amount }),
{
    Coin { denom: denom.to_owned(), amount }
}

/// Whether `coins` pays `required`: the first coin of the required
/// denomination holds at least the required amount.
pub open spec fn spec_has_coins(coins: Seq<CoinView>, required: CoinView) -> bool {
    exists|i: int|
        0 <= i < coins.len() && #[trigger] coins[i].denom == required.denom && (forall|j: int|
            0 <= j < i ==> coins[j].denom != required.denom) && coins[i].amount >= required.amount
}

/// `has_coins` of cosmwasm-std, whose whole behaviour [`spec_has_coins`]
/// states.
pub fn has_coins(coins: &Vec<Coin>, required: &Coin) -> (b: bool)
    ensures
        b == spec_has_coins(coins_view(coins@), required@),
{
    let ghost cv = coins_view(coins@);
    for i in 0..coins.len()
        invariant
            cv == coins_view(coins@),
            forall|j: int| 0 <= j < i ==> cv[j].denom != required@.denom,
    {
        if coins[i].denom == required.denom {
            let b = coins[i].amount >= required.amount;
            proof {
                let k = i as int;
                assert(cv[k] == coins@[k]@);
                if b {
                    assert(0 <= k < cv.len());
                    assert(cv[k].denom == required@.denom);
                    assert(forall|j: int| 0 <= j < k ==> cv[j].denom != required@.denom);
                    assert(cv[k].amount >= required@.amount);
                    assert(spec_has_coins(cv, required@));
                } else {
                    assert(!spec_has_coins(cv, required@)) by {
                        if spec_has_coins(cv, required@) {
                            let w = choose|w: int|
                                0 <= w < cv.len() && #[trigger] cv[w].denom == required@.denom && (
                                forall|j: int| 0 <= j < w ==> cv[j].denom != required@.denom)
                                    && cv[w].amount >= required@.amount;
                            assert(cv[k].denom == required@.denom);
                        }
                    }
                }
            }
            return b;
        }
    }
    assert(!spec_has_coins(cv, required@)) by {
        if spec_has_coins(cv, required@) {
            let i = choose|i: int|
                0 <= i < cv.len() && #[trigger] cv[i].denom == required@.denom && (forall|j: int|
                    0 <= j < i ==> cv[j].denom != required@.denom) && cv[i].amount >= required@.amount;
            assert(cv[i].denom != required@.denom);
        }
    }
    false
}

/// A key-value pair that a response reports.
#[derive(Clone, Debug, PartialEq)]
pub struct Attribute {
    pub key: String,
    pub value: String,
}

impl View for Attribute {
    type V = (Seq<char>, Seq<char>);

    open spec fn view(&self) -> (Seq<char>, Seq<char>) {
        (self.key@, self.value@)
    }
}

/// A message to a wasm contract. `msg` holds the JSON bytes of the message
/// the receiving contract gets.
#[derive(Clone, Debug, PartialEq)]
pub enum WasmMsg {
    Execute { contract_addr: String, msg: Vec<u8>, funds: Vec<Coin> },
    Instantiate {
        admin: Option<String>,
        code_id: u64,
        msg: Vec<u8>,
        funds: Vec<Coin>,
        label: String,
    },
}

/// The value of a [`WasmMsg`].
pub enum WasmMsgView {
    Execute { contract_addr: Seq<char>, msg: Seq<u8>, funds: Seq<CoinView> },
    Instantiate {
        admin: Option<Seq<char>>,
        code_id: u64,
        msg: Seq<u8>,
        funds: Seq<CoinView>,
        label: Seq<char>,
    },
}

impl View for WasmMsg {
    type V = WasmMsgView;

    open spec fn view(&self) -> WasmMsgView {
        match self {
            WasmMsg::Execute { contract_addr, msg, funds } => WasmMsgView::Execute {
                contract_addr: contract_addr@,
                msg: msg@,
                funds: coins_view(funds@),
            },
            WasmMsg::Instantiate { admin, code_id, msg, funds, label } => WasmMsgView::Instantiate {
                admin: match admin {
                    Some(a) => Some(a@),
                    None => None,
                },
                code_id: *code_id,
                msg: msg@,
                funds: coins_view(funds@),
                label: label@,
            },
        }
    }
}

/// When the chain calls the hub back about a sub-message.
#[derive(Clone, Copy, Debug, PartialEq, Eq)]
pub enum ReplyOn {
    Always,
    Error,
    Success,
    Never,
}

/// A message together with the reply the hub wants for it.
#[derive(Clone, Debug, PartialEq)]
pub struct SubMsg {
    pub id: u64,
    pub msg: WasmMsg,
    pub gas_limit: Option<u64>,
    pub reply_on: ReplyOn,
}

/// The value of a [`SubMsg`].
pub struct SubMsgView {
    pub id: u64,
    pub msg: WasmMsgView,
    pub gas_limit: Option<u64>,
    pub reply_on: ReplyOn,
}

impl View for SubMsg {
    type V = SubMsgView;

    open spec fn view(&self) -> SubMsgView {
        SubMsgView { id: self.id, msg: self.msg@, gas_limit: self.gas_limit, reply_on: self.reply_on }
    }
}

/// A plain message: no reply is asked for it.
pub open spec fn plain_message(msg: WasmMsgView) -> SubMsgView {
    SubMsgView { id: 0, msg, gas_limit: None, reply_on: ReplyOn::Never }
}

/// A sub-message whose success is answered with a reply carrying `id`.
pub open spec fn reply_on_success(id: u64, msg: WasmMsgView) -> SubMsgView {
    SubMsgView { id, msg, gas_limit: None, reply_on: ReplyOn::Success }
}

/// The value of a list of sub-messages.
pub open spec fn submsgs_view(v: Seq<SubMsg>) -> Seq<SubMsgView> {
    v.map_values(|m: SubMsg| m@)
}

/// What a call of the hub answers: messages to dispatch and attributes.
#[derive(Clone, Debug, PartialEq)]
pub struct Response {
    pub messages: Vec<SubMsg>,
    pub attributes: Vec<Attribute>,
}

/// The value of a [`Response`].
pub struct ResponseView {
    pub messages: Seq<SubMsgView>,
    pub attributes: Seq<(Seq<char>, Seq<char>)>,
}

impl View for Response {
    type V = ResponseView;

    open spec fn view(&self) -> ResponseView {
        ResponseView {
            messages: submsgs_view(self.messages@),
            attributes: self.attributes@.map_values(|a: Attribute| a@),
        }
    }
}

/// A response with no message and no attribute.
pub open spec fn empty_response() -> ResponseView {
    ResponseView { messages: Seq::empty(), attributes: Seq::empty() }
}

impl Response {
    /// A response with no message and no attribute.
    pub fn new() -> (r: Response)
        ensures
            r@ == empty_response(),
    {
        let r = Response { messages: Vec::new(), attributes: Vec::new() };
        assert(r@.messages =~= Seq::<SubMsgView>::empty());
        assert(r@.attributes =~= Seq::<(Seq<char>, Seq<char>)>::empty());
        r
    }

    /// Adds an attribute at the end.
    pub fn add_attribute(self, key: String, value: String) -> (r: Response)
        ensures
            r@ == (ResponseView { attributes: self@.attributes.push((key@, value@)), ..self@ }),
    {
        let mut r = self;
        let ghost before = r.attributes@;
        r.attributes.push(Attribute { key, value });
        assert(r.attributes@.map_values(|a: Attribute| a@) =~= before.map_values(
            |a: Attribute| a@,
        ).push((key@, value@)));
        r
    }

    /// Adds a sub-message at the end.
    pub fn add_submessage(self, msg: SubMsg) -> (r: Response)
        ensures
            r@ == (ResponseView { messages: self@.messages.push(msg@), ..self@ }),
    {
        let mut r = self;
        let ghost before = r.messages@;
        r.messages.push(msg);
        assert(submsgs_view(r.messages@) =~= submsgs_view(before).push(msg@));
        r
    }

    /// Adds a message with no reply at the end.
    pub fn add_message(self, msg: WasmMsg) -> (r: Response)
        ensures
            r@ == (ResponseView { messages: self@.messages.push(plain_message(msg@)), ..self@ }),
    {
        self.add_submessage(SubMsg { id: 0, msg, gas_limit: None, reply_on: ReplyOn::Never })
    }
}

/// What a sub-message that succeeded answered. Its events are not kept:
/// the hub reads only the data.
#[derive(Clone, Debug, PartialEq)]
pub struct SubMsgResponse {
    pub data: Option<Vec<u8>>,
}

/// The chain's call back about a sub-message that asked for a reply:
/// its id, and what the sub-message answered or the error it failed with.
#[derive(Debug, PartialEq)]
pub struct Reply {
    pub id: u64,
    pub result: Result<SubMsgResponse, String>,
}

} // verus!
