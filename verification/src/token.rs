use vstd::prelude::*;
use crate::address::validate_address;
use crate::address::Addr;
use crate::asset::Coin;
use crate::asset_info::AssetInfo;
use crate::asset_info::AssetInfoBase;
use crate::asset_info::InfoView;
use crate::asset_instantiator::address_saved;
use crate::asset_instantiator::denom_saved;
use crate::error::CwAssetError;
use crate::error::FundsMismatch;
use crate::cw20_init::Cw20InstantiateMsg;
use crate::message::is_cw20_instantiation;
use crate::message::is_cw20_call;
use crate::message::Cw20Execute;
use crate::message::Cw20ExecuteView;
use crate::message::OsmosisCreateDenomMsg;
use crate::message::OutboundMsg;
use crate::message::SubMsg;
use crate::query::asks_balance;
use crate::query::balance_from_answer;
use crate::query::BalanceQuery;
use crate::reply::parse_event_attribute;
use crate::reply::unwrap_reply;
use crate::reply::Attribute;
use crate::reply::Event;
use crate::reply::Reply;
use crate::reply::SubMsgResponse;
use crate::search::same_text;

verus! {

/// The tag of the instruction that creates a ledger denom.
pub const REPLY_SAVE_OSMOSIS_DENOM: u64 = 14508;

/// The tag of the instruction that creates a token contract.
pub const REPLY_SAVE_CW20_ADDRESS: u64 = 14509;

/// The storage slot that remembers, from the request to its reply, under which
/// key the new token is to be stored.
pub const TOKEN_ITEM_KEY: &'static str = "token_item_key";

/// What the invocation knows of its surroundings: the address of the contract
/// that runs it.
#[derive(Clone, Debug, PartialEq, Eq)]
pub struct Env {
    pub contract_address: Addr,
}

/// What the invocation knows of the message that started it: who sent it, and
/// the coins that came with it.
#[derive(Clone, Debug, PartialEq, Eq)]
pub struct MessageInfo {
    pub sender: Addr,
    pub funds: Vec<Coin>,
}

/// A token that this contract has created and controls.
#[derive(Clone, Debug, PartialEq, Eq)]
pub enum Token {
    Osmosis { denom: String },
    Cw20 { address: Addr },
}

/// How a new token is to be created.
#[derive(Clone, Debug, PartialEq)]
pub enum TokenInitInfo {
    /// As a ledger denom of the token factory, under the given sub-identifier.
    Osmosis { subdenom: String },
    /// As a contract of the code `code_id`, set up with `cw20_init_msg`.
    Cw20 {
        label: String,
        admin: Option<String>,
        code_id: u64,
        cw20_init_msg: Box<Cw20InstantiateMsg>,
    },
}

/// A request for a new token, with the storage key under which the token is to
/// be kept once it exists.
#[derive(Clone, Debug, PartialEq)]
pub struct TokenInstantiator {
    pub item_key: String,
    pub init_info: TokenInitInfo,
}

/// What a request amounts to: the key to keep in the slot `TOKEN_ITEM_KEY`
/// until the reply comes, and the one instruction to send.
#[derive(Clone, Debug, PartialEq, Eq)]
pub struct ProvisionRequest {
    pub item_key: String,
    pub msg: SubMsg,
}

/// What a reply amounts to: the token to store under `item_key`, and the
/// record to publish.
#[derive(Clone, Debug, PartialEq, Eq)]
pub struct SavedToken {
    pub item_key: String,
    pub token: Token,
    pub attributes: Vec<Attribute>,
}

/// Whether the attributes are the record of an action and what came of it.
pub open spec fn is_record(
    attributes: Seq<Attribute>,
    action: Seq<char>,
    key: Seq<char>,
    value: Seq<char>,
) -> bool {
    &&& attributes.len() == 2
    &&& attributes[0].key@ == "action"@
    &&& attributes[0].value@ == action
    &&& attributes[1].key@ == key
    &&& attributes[1].value@ == value
}

/// The record of an action and what came of it.
pub fn record(action: &str, key: &str, value: &str) -> (r: Vec<Attribute>)
    ensures
        is_record(r@, action@, key@, value@),
{
    let mut attributes: Vec<Attribute> = Vec::new();
    attributes.push(Attribute { key: "action".to_owned(), value: action.to_owned() });
    attributes.push(Attribute { key: key.to_owned(), value: value.to_owned() });
    attributes
}

impl TokenInstantiator {
    /// The request as the platform is to see it. For a ledger denom: a
    /// create-denom instruction with the sub-identifier and this contract as
    /// sender. For a token contract: an instantiation with the code, the admin,
    /// the label and the set-up message as JSON, without funds. Each carries
    /// the tag of its kind and is to be reported back whether it succeeds or
    /// fails, and the key comes back unchanged.
    pub fn instantiate(&self, env: &Env) -> (r: Result<ProvisionRequest, CwAssetError>)
        ensures
            r is Ok,
            r->Ok_0.item_key@ == self.item_key@,
            r->Ok_0.msg.reply_on is Always,
            self.init_info matches TokenInitInfo::Osmosis { subdenom } ==> {
                &&& r->Ok_0.msg.id == REPLY_SAVE_OSMOSIS_DENOM
                &&& r->Ok_0.msg.msg matches OutboundMsg::CreateDenom { body }
                &&& body.sender@ == env.contract_address@
                &&& body.subdenom@ == subdenom@
            },
            self.init_info matches TokenInitInfo::Cw20 { label, admin, code_id, cw20_init_msg }
                ==> {
                &&& r->Ok_0.msg.id == REPLY_SAVE_CW20_ADDRESS
                &&& is_cw20_instantiation(
                    r->Ok_0.msg.msg,
                    admin,
                    code_id,
                    label@,
                    (*cw20_init_msg)@,
                )
            },
    {
        match &self.init_info {
            TokenInitInfo::Osmosis { subdenom } => Ok(
                ProvisionRequest {
                    item_key: self.item_key.clone(),
                    msg: SubMsg::reply_always(
                        OutboundMsg::CreateDenom {
                            body: OsmosisCreateDenomMsg {
                                sender: env.contract_address.as_str().to_owned(),
                                subdenom: subdenom.clone(),
                            },
                        },
                        REPLY_SAVE_OSMOSIS_DENOM,
                    ),
                },
            ),
            TokenInitInfo::Cw20 { label, admin, code_id, cw20_init_msg } => {
                match OutboundMsg::cw20_instantiate(admin, *code_id, label.as_str(), &**cw20_init_msg) {
                    Ok(msg) => Ok(
                        ProvisionRequest {
                            item_key: self.item_key.clone(),
                            msg: SubMsg::reply_always(msg, REPLY_SAVE_CW20_ADDRESS),
                        },
                    ),
                    Err(e) => Err(e),
                }
            },
        }
    }
}

/// What was read from a reply: the kind of the new token and the record to
/// publish, or the error.
pub open spec fn token_read(r: Result<SavedToken, CwAssetError>) -> Result<
    (InfoView, Seq<Attribute>),
    CwAssetError,
> {
    match r {
        Ok(saved) => Ok((saved.token.asset_info_view(), saved.attributes@)),
        Err(e) => Err(e),
    }
}

/// What a successful reply to a create-denom instruction amounts to: the new
/// denom, read from the attribute `new_token_denom` of the first `create_denom`
/// event and kept as a token under `item_key`, with a record of it; or
/// `MalformedCallback` with the name of what the reply lacks.
pub fn save_osmosis_denom(res: &SubMsgResponse, item_key: String) -> (r: Result<
    SavedToken,
    CwAssetError,
>)
    ensures
        denom_saved(res.events@, token_read(r)),
        r is Ok ==> r->Ok_0.item_key == item_key,
{
    match parse_event_attribute(res, "create_denom", "new_token_denom") {
        Ok(denom) => {
            let attributes = record("save_osmosis_denom", "denom", denom.as_str());
            Ok(SavedToken { item_key, token: Token::Osmosis { denom }, attributes })
        },
        Err(e) => Err(e),
    }
}

/// What a successful reply to an instantiation amounts to: the new contract's
/// address, read from the attribute `_contract_address` of the first
/// `instantiate` event, validated with `validate` and kept as a token under
/// `item_key`, with a record of it; or `MalformedCallback` with the name of what
/// the reply lacks; or `InvalidAddress` where the validator turns the address
/// down.
pub fn save_cw20_address<F: Fn(&String) -> Result<Addr, String>>(
    validate: &F,
    res: &SubMsgResponse,
    item_key: String,
) -> (r: Result<SavedToken, CwAssetError>)
    requires
        forall|raw: String| call_requires(*validate, (&raw,)),
    ensures
        address_saved(*validate, res.events@, token_read(r)),
        r is Ok ==> r->Ok_0.item_key == item_key,
{
    match parse_event_attribute(res, "instantiate", "_contract_address") {
        Ok(raw) => match validate_address(validate, &raw) {
            Ok(address) => {
                let attributes = record("save_osmosis_denom", "addr", address.as_str());
                Ok(SavedToken { item_key, token: Token::Cw20 { address }, attributes })
            },
            Err(e) => Err(e),
        },
        Err(e) => Err(e),
    }
}

/// Whether `r` is what a successful reply with the tag `id` and the events
/// `events` amounts to: the token of the kind that the tag names, read from the
/// events as that kind has it and to be kept under `item_key`; or
/// `UnknownReplyTag` for a tag that names no kind.
pub open spec fn token_saved<F: Fn(&String) -> Result<Addr, String>>(
    validate: F,
    id: u64,
    events: Seq<Event>,
    item_key: String,
    r: Result<SavedToken, CwAssetError>,
) -> bool {
    &&& r is Ok ==> r->Ok_0.item_key == item_key
    &&& if id == REPLY_SAVE_OSMOSIS_DENOM {
        denom_saved(events, token_read(r))
    } else if id == REPLY_SAVE_CW20_ADDRESS {
        address_saved(validate, events, token_read(r))
    } else {
        r == Err::<SavedToken, CwAssetError>(CwAssetError::UnknownReplyTag { id })
    }
}

/// What a successful reply with the tag `id` amounts to: the tag says which
/// kind of token was asked for, and the token is read from the reply as that
/// kind has it; any other tag is `UnknownReplyTag`.
pub fn save_token<F: Fn(&String) -> Result<Addr, String>>(
    validate: &F,
    id: u64,
    res: &SubMsgResponse,
    item_key: String,
) -> (r: Result<SavedToken, CwAssetError>)
    requires
        forall|raw: String| call_requires(*validate, (&raw,)),
    ensures
        token_saved(*validate, id, res.events@, item_key, r),
{
    if id == REPLY_SAVE_OSMOSIS_DENOM {
        save_osmosis_denom(res, item_key)
    } else if id == REPLY_SAVE_CW20_ADDRESS {
        save_cw20_address(validate, res, item_key)
    } else {
        Err(CwAssetError::UnknownReplyTag { id })
    }
}

/// What a reply to a create instruction amounts to. A reply that reports
/// failure is `ProvisioningFailed`, whatever its tag. Otherwise the reply is
/// read as `save_token` has it. `token_item_key` is the key that the request
/// left in the slot `TOKEN_ITEM_KEY`. Only a result that is `Ok` asks for
/// anything to be stored.
pub fn reply_save_token<F: Fn(&String) -> Result<Addr, String>>(
    validate: &F,
    reply: Reply,
    token_item_key: String,
) -> (r: Result<SavedToken, CwAssetError>)
    requires
        forall|raw: String| call_requires(*validate, (&raw,)),
    ensures
        match reply.result {
            Err(reason) => r == Err::<SavedToken, CwAssetError>(
                CwAssetError::ProvisioningFailed { reason },
            ),
            Ok(res) => token_saved(*validate, reply.id, res.events@, token_item_key, r),
        },
{
    let id = reply.id;
    match unwrap_reply(reply) {
        Err(e) => Err(e),
        Ok(res) => save_token(validate, id, &res, token_item_key),
    }
}

/// The amount of the one coin in `funds`, which must be of the given denom and
/// not zero. Anything else is `UnexpectedFunds`, with the first of these that
/// fails: the number of coins, the denom, the amount.
pub fn parse_received_fund(funds: &Vec<Coin>, denom: &str) -> (r: Result<u128, CwAssetError>)
    ensures
        r == received_fund(funds@, denom@),
{
    if funds.len() != 1 {
        return Err(
            CwAssetError::UnexpectedFunds {
                mismatch: FundsMismatch::CoinCount { received: funds.len() },
            },
        );
    }
    let fund = &funds[0];
    if !same_text(fund.denom.as_str(), denom) {
        return Err(CwAssetError::UnexpectedFunds { mismatch: FundsMismatch::Denom });
    }
    if fund.amount == 0 {
        return Err(CwAssetError::UnexpectedFunds { mismatch: FundsMismatch::ZeroAmount });
    }
    Ok(fund.amount)
}

/// What `parse_received_fund` returns.
pub open spec fn received_fund(funds: Seq<Coin>, denom: Seq<char>) -> Result<u128, CwAssetError> {
    if funds.len() != 1 {
        Err(
            CwAssetError::UnexpectedFunds {
                mismatch: FundsMismatch::CoinCount { received: funds.len() as usize },
            },
        )
    } else if funds[0].denom@ != denom {
        Err(CwAssetError::UnexpectedFunds { mismatch: FundsMismatch::Denom })
    } else if funds[0].amount == 0 {
        Err(CwAssetError::UnexpectedFunds { mismatch: FundsMismatch::ZeroAmount })
    } else {
        Ok(funds[0].amount)
    }
}

impl Token {
    /// The token as text: the denom or the address.
    pub fn to_string(&self) -> (r: String)
        ensures
            r@ == self.asset_info_view().text(),
    {
        match self {
            Token::Osmosis { denom } => denom.clone(),
            Token::Cw20 { address } => address.as_str().to_owned(),
        }
    }

    /// The asset kind of the token: a native coin for a ledger denom, a
    /// contract-tracked token for a contract.
    pub open spec fn asset_info_view(&self) -> InfoView {
        match self {
            Token::Osmosis { denom } => InfoView::Native(denom@),
            Token::Cw20 { address } => InfoView::Cw20(address@),
        }
    }

    /// The asset kind of the token.
    pub fn asset_info(&self) -> (r: AssetInfo)
        ensures
            r@ == self.asset_info_view(),
    {
        match self {
            Token::Osmosis { denom } => AssetInfoBase::Native(denom.clone()),
            Token::Cw20 { address } => AssetInfoBase::Cw20(address.duplicate()),
        }
    }

    /// The instruction that creates `amount` of the token. A ledger denom is
    /// minted by the token factory on behalf of this contract, and `recipient` is
    /// not used; a contract mints to `recipient`.
    pub fn mint(&self, env: &Env, amount: u128, recipient: &str) -> (r: Result<
        OutboundMsg,
        CwAssetError,
    >)
        ensures
            self matches Token::Osmosis { denom } ==> {
                &&& r matches Ok(OutboundMsg::MintDenom { coin, sender })
                &&& coin.denom@ == denom@
                &&& coin.amount == amount
                &&& sender@ == env.contract_address@
            },
            self matches Token::Cw20 { address } ==> r is Ok && is_cw20_call(
                r->Ok_0,
                address@,
                Cw20ExecuteView::Mint { recipient: recipient@, amount },
            ),
    {
        match self {
            Token::Osmosis { denom } => Ok(
                OutboundMsg::MintDenom {
                    coin: Coin { denom: denom.clone(), amount },
                    sender: env.contract_address.as_str().to_owned(),
                },
            ),
            Token::Cw20 { address } => OutboundMsg::cw20_execute(
                address.as_str(),
                Cw20Execute::Mint { recipient: recipient.to_owned(), amount },
            ),
        }
    }

    /// The instruction that destroys `amount` of the token: a ledger denom is
    /// burnt by the token factory on behalf of this contract, a contract burns
    /// from the sender's account.
    pub fn burn(&self, env: &Env, amount: u128) -> (r: Result<OutboundMsg, CwAssetError>)
        ensures
            self matches Token::Osmosis { denom } ==> {
                &&& r matches Ok(OutboundMsg::BurnDenom { coin, sender })
                &&& coin.denom@ == denom@
                &&& coin.amount == amount
                &&& sender@ == env.contract_address@
            },
            self matches Token::Cw20 { address } ==> r is Ok && is_cw20_call(
                r->Ok_0,
                address@,
                Cw20ExecuteView::Burn { amount },
            ),
    {
        match self {
            Token::Osmosis { denom } => Ok(
                OutboundMsg::BurnDenom {
                    coin: Coin { denom: denom.clone(), amount },
                    sender: env.contract_address.as_str().to_owned(),
                },
            ),
            Token::Cw20 { address } => OutboundMsg::cw20_execute(
                address.as_str(),
                Cw20Execute::Burn { amount },
            ),
        }
    }

    /// The instruction that moves `amount` of the token from this contract to
    /// `recipient`: a ledger transfer for a denom, a call of the contract for a
    /// contract token.
    pub fn transfer(&self, _env: &Env, amount: u128, recipient: &str) -> (r: Result<
        OutboundMsg,
        CwAssetError,
    >)
        ensures
            self matches Token::Osmosis { denom } ==> {
                &&& r matches Ok(OutboundMsg::BankSend { to_address, amount: coins })
                &&& to_address@ == recipient@
                &&& coins@.len() == 1
                &&& coins@[0].denom@ == denom@
                &&& coins@[0].amount == amount
            },
            self matches Token::Cw20 { address } ==> r is Ok && is_cw20_call(
                r->Ok_0,
                address@,
                Cw20ExecuteView::Transfer { recipient: recipient@, amount },
            ),
    {
        match self {
            Token::Osmosis { denom } => Ok(OutboundMsg::bank_send(recipient, denom.as_str(), amount)),
            Token::Cw20 { address } => OutboundMsg::cw20_execute(
                address.as_str(),
                Cw20Execute::Transfer { recipient: recipient.to_owned(), amount },
            ),
        }
    }

    /// Sees to it that `amount` of the token has been received. A ledger denom
    /// must have come with the message, as its one coin and in exactly that
    /// amount: then there is nothing to send. A contract token is drawn from the
    /// sender's account to this contract by the instruction returned.
    pub fn assert_received_token(&self, env: &Env, info: &MessageInfo, amount: u128) -> (r: Result<
        Option<OutboundMsg>,
        CwAssetError,
    >)
        ensures
            self matches Token::Osmosis { denom } ==> match received_fund(info.funds@, denom@) {
                Ok(received) => if received == amount {
                    r == Ok::<Option<OutboundMsg>, CwAssetError>(None)
                } else {
                    r == Err::<Option<OutboundMsg>, CwAssetError>(
                        CwAssetError::UnexpectedFunds { mismatch: FundsMismatch::Amount },
                    )
                },
                Err(e) => r == Err::<Option<OutboundMsg>, CwAssetError>(e),
            },
            self matches Token::Cw20 { address } ==> r matches Ok(Some(sent)) && is_cw20_call(
                sent,
                address@,
                Cw20ExecuteView::TransferFrom {
                    owner: info.sender@,
                    recipient: env.contract_address@,
                    amount,
                },
            ),
    {
        match self {
            Token::Osmosis { denom } => {
                match parse_received_fund(&info.funds, denom.as_str()) {
                    Ok(received_amount) => {
                        if received_amount != amount {
                            return Err(
                                CwAssetError::UnexpectedFunds { mismatch: FundsMismatch::Amount },
                            );
                        }
                        Ok(None)
                    },
                    Err(e) => Err(e),
                }
            },
            Token::Cw20 { address } => {
                let call = Cw20Execute::TransferFrom {
                    owner: info.sender.as_str().to_owned(),
                    recipient: env.contract_address.as_str().to_owned(),
                    amount,
                };
                match OutboundMsg::cw20_execute(address.as_str(), call) {
                    Ok(msg) => Ok(Some(msg)),
                    Err(e) => Err(e),
                }
            },
        }
    }

    /// What `address` holds of the token. `querier` stands for the platform: it
    /// is asked once, and its failure is handed on as `QueryFailed`.
    pub fn query_balance<Q: Fn(&BalanceQuery) -> Result<u128, String>>(
        &self,
        querier: Q,
        address: &Addr,
    ) -> (r: Result<u128, CwAssetError>)
        requires
            forall|q: BalanceQuery|
                asks_balance(q, self.asset_info_view(), address@) ==> call_requires(
                    querier,
                    (&q,),
                ),
        ensures
            exists|q: BalanceQuery, answer: Result<u128, String>|
                {
                    &&& asks_balance(q, self.asset_info_view(), address@)
                    &&& call_ensures(querier, (&q,), answer)
                    &&& match answer {
                        Ok(amount) => r == Ok::<u128, CwAssetError>(amount),
                        Err(reason) => r == Err::<u128, CwAssetError>(
                            CwAssetError::QueryFailed { reason },
                        ),
                    }
                },
    {
        let query = match self {
            Token::Osmosis { denom } => BalanceQuery::Bank {
                address: address.as_str().to_owned(),
                denom: denom.clone(),
            },
            Token::Cw20 { address: contract } => BalanceQuery::Cw20 {
                contract_addr: contract.as_str().to_owned(),
                address: address.as_str().to_owned(),
            },
        };
        assert(asks_balance(query, self.asset_info_view(), address@));
        let answer = querier(&query);
        balance_from_answer(answer)
    }
}

} // verus!
