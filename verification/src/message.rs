use vstd::prelude::*;
use cosmwasm_std::to_json_binary;
use cosmwasm_std::Binary;
use cosmwasm_std::StdError;
use cosmwasm_std::Uint128;
use cw20::Cw20ExecuteMsg;
use crate::asset::Coin;
use crate::cw20_init::cw20_instantiate_json;
use crate::cw20_init::encode_cw20_instantiate;
use crate::cw20_init::Cw20InstantiateMsg;
use crate::cw20_init::Cw20InstantiateView;
use crate::error::CwAssetError;

verus! {

/// The error type of cosmwasm-std.
#[verifier::external_type_specification]
#[verifier::external_body]
pub struct ExStdError(StdError);

/// The body of a token-factory instruction that creates a denom.
#[derive(Clone, Debug, PartialEq, Eq)]
pub struct OsmosisCreateDenomMsg {
    pub sender: String,
    pub subdenom: String,
}

/// An instruction for the platform to carry out.
#[derive(Clone, Debug, PartialEq, Eq)]
pub enum OutboundMsg {
    /// Moves native coins from the sender to `to_address`.
    BankSend { to_address: String, amount: Vec<Coin> },
    /// Calls the contract at `contract_addr` with the payload `msg`.
    WasmExecute { contract_addr: String, msg: Vec<u8>, funds: Vec<Coin> },
    /// Creates a contract from the code `code_id`, with the payload `msg`.
    WasmInstantiate {
        admin: Option<String>,
        code_id: u64,
        msg: Vec<u8>,
        funds: Vec<Coin>,
        label: String,
    },
    /// Asks the token factory for a new denom.
    CreateDenom { body: OsmosisCreateDenomMsg },
    /// Asks the token factory to mint `coin` on behalf of `sender`.
    MintDenom { coin: Coin, sender: String },
    /// Asks the token factory to burn `coin` on behalf of `sender`.
    BurnDenom { coin: Coin, sender: String },
}

/// On which outcome of an instruction the platform reports back.
#[derive(Clone, Copy, Debug, PartialEq, Eq)]
pub enum ReplyOn {
    Always,
    Error,
    Success,
    Never,
}

/// An instruction with the outcomes that the platform is to report back, in a
/// reply that carries `id`.
#[derive(Clone, Debug, PartialEq, Eq)]
pub struct SubMsg {
    pub id: u64,
    pub msg: OutboundMsg,
    pub reply_on: ReplyOn,
}

impl SubMsg {
    /// The instruction, to be reported back whether it succeeds or fails.
    pub fn reply_always(msg: OutboundMsg, id: u64) -> (r: SubMsg)
        ensures
            r == (SubMsg { id, msg, reply_on: ReplyOn::Always }),
    {
        SubMsg { id, msg, reply_on: ReplyOn::Always }
    }
}

/// A call of a token contract, as the token standard has it.
#[derive(Clone, Debug, PartialEq, Eq)]
pub enum Cw20Execute {
    /// Moves `amount` from the sender to `recipient`.
    Transfer { recipient: String, amount: u128 },
    /// Destroys `amount` of what the sender holds.
    Burn { amount: u128 },
    /// Moves `amount` from the sender to `contract`, and hands it `msg`.
    Send { contract: String, amount: u128, msg: Vec<u8> },
    /// Moves `amount` from `owner` to `recipient`, on the sender's allowance.
    TransferFrom { owner: String, recipient: String, amount: u128 },
    /// Creates `amount` for `recipient`.
    Mint { recipient: String, amount: u128 },
}

/// What a call of a token contract is.
pub ghost enum Cw20ExecuteView {
    Transfer { recipient: Seq<char>, amount: u128 },
    Burn { amount: u128 },
    Send { contract: Seq<char>, amount: u128, msg: Seq<u8> },
    TransferFrom { owner: Seq<char>, recipient: Seq<char>, amount: u128 },
    Mint { recipient: Seq<char>, amount: u128 },
}

impl View for Cw20Execute {
    type V = Cw20ExecuteView;

    open spec fn view(&self) -> Cw20ExecuteView {
        match self {
            Cw20Execute::Transfer { recipient, amount } => Cw20ExecuteView::Transfer {
                recipient: recipient@,
                amount: *amount,
            },
            Cw20Execute::Burn { amount } => Cw20ExecuteView::Burn { amount: *amount },
            Cw20Execute::Send { contract, amount, msg } => Cw20ExecuteView::Send {
                contract: contract@,
                amount: *amount,
                msg: msg@,
            },
            Cw20Execute::TransferFrom { owner, recipient, amount } => Cw20ExecuteView::TransferFrom {
                owner: owner@,
                recipient: recipient@,
                amount: *amount,
            },
            Cw20Execute::Mint { recipient, amount } => Cw20ExecuteView::Mint {
                recipient: recipient@,
                amount: *amount,
            },
        }
    }
}

/// The JSON that cosmwasm-std makes of the `Cw20ExecuteMsg` with the same
/// variant and fields.
pub uninterp spec fn cw20_execute_json(msg: Cw20ExecuteView) -> Seq<u8>;

/// Calls `cosmwasm_std::to_json_binary` on the `Cw20ExecuteMsg` with the same
/// variant and fields. It succeeds for every such call, and the bytes are a
/// function of the call.
#[verifier::external_body]
pub(crate) fn encode_cw20_execute(msg: Cw20Execute) -> (r: Result<Vec<u8>, StdError>)
    ensures
        r is Ok,
        r->Ok_0@ == cw20_execute_json(msg@),
{
    let outside = match msg {
        Cw20Execute::Transfer { recipient, amount } => Cw20ExecuteMsg::Transfer { recipient, amount: Uint128::new(amount) },
        Cw20Execute::Burn { amount } => Cw20ExecuteMsg::Burn { amount: Uint128::new(amount) },
        Cw20Execute::Send { contract, amount, msg } => Cw20ExecuteMsg::Send { contract, amount: Uint128::new(amount), msg: Binary(msg) },
        Cw20Execute::TransferFrom { owner, recipient, amount } => Cw20ExecuteMsg::TransferFrom { owner, recipient, amount: Uint128::new(amount) },
        Cw20Execute::Mint { recipient, amount } => Cw20ExecuteMsg::Mint { recipient, amount: Uint128::new(amount) },
    };
    to_json_binary(&outside).map(|b| b.0)
}

impl OutboundMsg {
    /// The instruction that moves `amount` of the native coin `denom` to
    /// `to_address`.
    pub fn bank_send(to_address: &str, denom: &str, amount: u128) -> (r: OutboundMsg)
        ensures
            r matches OutboundMsg::BankSend { to_address: to, amount: coins } && to@
                == to_address@ && coins@.len() == 1 && coins@[0].denom@ == denom@
                && coins@[0].amount == amount,
    {
        let mut coins: Vec<Coin> = Vec::new();
        coins.push(Coin { denom: denom.to_owned(), amount });
        OutboundMsg::BankSend { to_address: to_address.to_owned(), amount: coins }
    }

    /// The instruction that calls the contract at `contract_addr` with the given
    /// payload and no funds, or `Serialization` where there is no payload because
    /// it could not be serialised.
    pub fn wasm_execute(contract_addr: &str, payload: Result<Vec<u8>, StdError>) -> (r:
        Result<OutboundMsg, CwAssetError>)
        ensures
            match payload {
                Ok(bytes) => r matches Ok(
                    OutboundMsg::WasmExecute { contract_addr: to, msg, funds },
                ) && to@ == contract_addr@ && msg == bytes && funds@.len() == 0,
                Err(_) => r == Err::<OutboundMsg, CwAssetError>(CwAssetError::Serialization),
            },
    {
        match payload {
            Ok(msg) => Ok(
                OutboundMsg::WasmExecute {
                    contract_addr: contract_addr.to_owned(),
                    msg,
                    funds: Vec::new(),
                },
            ),
            Err(_) => Err(CwAssetError::Serialization),
        }
    }

    /// The instruction that makes the given call of the token contract at
    /// `contract_addr`, without funds.
    pub fn cw20_execute(contract_addr: &str, call: Cw20Execute) -> (r: Result<
        OutboundMsg,
        CwAssetError,
    >)
        ensures
            r is Ok,
            is_cw20_call(r->Ok_0, contract_addr@, call@),
    {
        OutboundMsg::wasm_execute(contract_addr, encode_cw20_execute(call))
    }

    /// The instruction that creates a token contract from the code `code_id`,
    /// set up with `init`, without funds.
    pub fn cw20_instantiate(
        admin: &Option<String>,
        code_id: u64,
        label: &str,
        init: &Cw20InstantiateMsg,
    ) -> (r: Result<OutboundMsg, CwAssetError>)
        ensures
            r is Ok,
            is_cw20_instantiation(r->Ok_0, *admin, code_id, label@, init@),
    {
        OutboundMsg::wasm_instantiate(
            admin,
            code_id,
            label,
            encode_cw20_instantiate(init.duplicate()),
        )
    }

    /// The instruction that creates a contract from the code `code_id` with the
    /// given payload and no funds, or `Serialization` where there is no payload
    /// because it could not be serialised.
    pub fn wasm_instantiate(
        admin: &Option<String>,
        code_id: u64,
        label: &str,
        payload: Result<Vec<u8>, StdError>,
    ) -> (r: Result<OutboundMsg, CwAssetError>)
        ensures
            match payload {
                Ok(bytes) => r matches Ok(
                    OutboundMsg::WasmInstantiate { admin: a, code_id: c, msg, funds, label: l },
                ) && same_option_text(a, *admin) && c == code_id && msg == bytes && funds@.len()
                    == 0 && l@ == label@,
                Err(_) => r == Err::<OutboundMsg, CwAssetError>(CwAssetError::Serialization),
            },
    {
        match payload {
            Ok(msg) => {
                let admin = match admin {
                    Some(a) => Some(a.clone()),
                    None => None,
                };
                Ok(
                    OutboundMsg::WasmInstantiate {
                        admin,
                        code_id,
                        msg,
                        funds: Vec::new(),
                        label: label.to_owned(),
                    },
                )
            },
            Err(_) => Err(CwAssetError::Serialization),
        }
    }
}

/// Whether `msg` makes the given call of the token contract at `contract_addr`,
/// without funds.
pub open spec fn is_cw20_call(msg: OutboundMsg, contract_addr: Seq<char>, call: Cw20ExecuteView) -> bool {
    &&& msg matches OutboundMsg::WasmExecute { contract_addr: to, msg: payload, funds }
    &&& to@ == contract_addr
    &&& payload@ == cw20_execute_json(call)
    &&& funds@.len() == 0
}

/// Whether `msg` creates a token contract from the code `code_id`, set up with
/// `init`, with the given admin and label and without funds.
pub open spec fn is_cw20_instantiation(
    msg: OutboundMsg,
    admin: Option<String>,
    code_id: u64,
    label: Seq<char>,
    init: Cw20InstantiateView,
) -> bool {
    &&& msg matches OutboundMsg::WasmInstantiate { admin: a, code_id: c, msg: payload, funds, label: l }
    &&& same_option_text(a, admin)
    &&& c == code_id
    &&& payload@ == cw20_instantiate_json(init)
    &&& funds@.len() == 0
    &&& l@ == label
}

/// Whether both are absent, or both are present with the same text.
pub open spec fn same_option_text(a: Option<String>, b: Option<String>) -> bool {
    match (a, b) {
        (Some(x), Some(y)) => x@ == y@,
        (None, None) => true,
        _ => false,
    }
}

} // verus!
