use vstd::prelude::*;
use crate::address::validate_address;
use crate::address::validated_as;
use crate::address::Addr;
use crate::asset::Asset;
use crate::asset::AssetBase;
use crate::asset_info::AssetInfoBase;
use crate::asset_instantiator::address_saved;
use crate::asset_instantiator::asset_read;
use crate::asset_instantiator::Instantiate;
use crate::asset_instantiator::SavedAsset;
use crate::error::CwAssetError;
use crate::cw20_init::Cw20InstantiateMsg;
use crate::message::is_cw20_instantiation;
use crate::message::is_cw20_call;
use crate::message::Cw20Execute;
use crate::message::Cw20ExecuteView;
use crate::message::OutboundMsg;
use crate::message::SubMsg;
use crate::reply::event_attribute;
use crate::reply::parse_event_attribute;
use crate::reply::unwrap_reply;
use crate::reply::Reply;
use crate::reply::SubMsgResponse;
use crate::token::record;
use crate::token::Env;
use crate::token::REPLY_SAVE_CW20_ADDRESS;

verus! {

/// An amount of a contract-tracked token.
#[derive(Clone, Debug, PartialEq, Eq)]
pub struct Cw20Asset {
    pub address: Addr,
    pub amount: u128,
}

/// The new contract's address as the reply has it: the attribute
/// `_contract_address` of the first `instantiate` event, validated.
pub fn parse_contract_addr_from_instantiate_event<F: Fn(&String) -> Result<Addr, String>>(
    validate: &F,
    response: &SubMsgResponse,
) -> (r: Result<Addr, CwAssetError>)
    requires
        forall|raw: String| call_requires(*validate, (&raw,)),
    ensures
        match event_attribute(response.events@, "instantiate"@, "_contract_address"@) {
            Ok(value) => validated_as(*validate, value, r),
            Err(name) => r matches Err(CwAssetError::MalformedCallback { missing }) && missing@
                == name,
        },
{
    match parse_event_attribute(response, "instantiate", "_contract_address") {
        Ok(raw) => validate_address(validate, &raw),
        Err(e) => Err(e),
    }
}

impl Cw20Asset {
    /// The same amount of the same token as an asset.
    pub fn into_asset(self) -> (r: Asset)
        ensures
            r == (Asset { info: AssetInfoBase::Cw20(self.address), amount: self.amount }),
    {
        AssetBase { amount: self.amount, info: AssetInfoBase::Cw20(self.address) }
    }

    /// The asset as a token amount, or `NotContractToken` for a native coin.
    pub fn from_asset(asset: Asset) -> (r: Result<Cw20Asset, CwAssetError>)
        ensures
            match asset.info {
                AssetInfoBase::Cw20(address) => r == Ok::<Cw20Asset, CwAssetError>(
                    Cw20Asset { address, amount: asset.amount },
                ),
                AssetInfoBase::Native(_) => r == Err::<Cw20Asset, CwAssetError>(
                    CwAssetError::NotContractToken,
                ),
            },
    {
        match asset.info {
            AssetInfoBase::Cw20(address) => Ok(Cw20Asset { address, amount: asset.amount }),
            AssetInfoBase::Native(_) => Err(CwAssetError::NotContractToken),
        }
    }

    /// The instruction that has the token's contract mint this amount to
    /// `recipient`. The sender is the one who sends the instruction.
    pub fn mint_msg(&self, _sender: &str, recipient: &str) -> (r: Result<OutboundMsg, CwAssetError>)
        ensures
            r is Ok,
            is_cw20_call(
                r->Ok_0,
                self.address@,
                Cw20ExecuteView::Mint { recipient: recipient@, amount: self.amount },
            ),
    {
        OutboundMsg::cw20_execute(
            self.address.as_str(),
            Cw20Execute::Mint { recipient: recipient.to_owned(), amount: self.amount },
        )
    }

    /// The instruction that has the token's contract burn this amount from the
    /// account of the one who sends the instruction.
    pub fn burn_msg(&self, _sender: &str) -> (r: Result<OutboundMsg, CwAssetError>)
        ensures
            r is Ok,
            is_cw20_call(r->Ok_0, self.address@, Cw20ExecuteView::Burn { amount: self.amount }),
    {
        OutboundMsg::cw20_execute(self.address.as_str(), Cw20Execute::Burn { amount: self.amount })
    }
}

/// A request for a new token contract of the cw20-base code.
pub struct Cw20AssetInstantiator {
    pub label: String,
    pub admin: Option<String>,
    pub code_id: u64,
    pub cw20_init_msg: Cw20InstantiateMsg,
}

impl Instantiate for Cw20AssetInstantiator {
    open spec fn reply_id() -> u64 {
        REPLY_SAVE_CW20_ADDRESS
    }

    /// An instantiation with the code, the admin, the label and the set-up
    /// message as JSON, without funds.
    fn instantiate_msg(&self, _env: &Env) -> (r: Result<SubMsg, CwAssetError>)
        ensures
            is_cw20_instantiation(
                r->Ok_0.msg,
                self.admin,
                self.code_id,
                self.label@,
                self.cw20_init_msg@,
            ),
    {
        match OutboundMsg::cw20_instantiate(
            &self.admin,
            self.code_id,
            self.label.as_str(),
            &self.cw20_init_msg,
        ) {
            Ok(msg) => Ok(SubMsg::reply_always(msg, REPLY_SAVE_CW20_ADDRESS)),
            Err(e) => Err(e),
        }
    }

    /// The token of the new contract, whose address is read from the reply and
    /// validated, with a record of it.
    fn save_asset<F: Fn(&String) -> Result<Addr, String>>(validate: &F, reply: Reply) -> (r: Result<
        SavedAsset,
        CwAssetError,
    >)
        ensures
            reply.result is Ok && reply.id == REPLY_SAVE_CW20_ADDRESS ==> address_saved(
                *validate,
                reply.result->Ok_0.events@,
                asset_read(r),
            ),
    {
        let id = reply.id;
        let res = match unwrap_reply(reply) {
            Ok(res) => res,
            Err(e) => {
                return Err(e);
            },
        };
        if id != REPLY_SAVE_CW20_ADDRESS {
            return Err(CwAssetError::UnknownReplyTag { id });
        }
        match parse_contract_addr_from_instantiate_event(validate, &res) {
            Ok(address) => {
                let attributes = record("save_osmosis_denom", "addr", address.as_str());
                Ok(SavedAsset { asset_info: AssetInfoBase::Cw20(address), attributes })
            },
            Err(e) => Err(e),
        }
    }
}

} // verus!
