use vstd::prelude::*;
use vstd::string::StrSliceExecFns;
use vstd::string::StringExecFns;
use crate::address::Addr;
use crate::asset::Asset;
use crate::asset::AssetView;
use crate::asset::Coin;
use crate::asset_info::AssetInfoBase;
use crate::asset_info::InfoView;
use crate::asset_instantiator::asset_read;
use crate::asset_instantiator::denom_saved;
use crate::asset_instantiator::Instantiate;
use crate::asset_instantiator::SavedAsset;
use crate::decimal::decimal;
use crate::decimal::decimal_string;
use crate::error::CwAssetError;
use crate::message::OsmosisCreateDenomMsg;
use crate::message::OutboundMsg;
use crate::message::SubMsg;
use crate::reply::event_attribute;
use crate::reply::parse_event_attribute;
use crate::reply::unwrap_reply;
use crate::reply::Reply;
use crate::reply::SubMsgResponse;
use crate::token::record;
use crate::token::Env;
use crate::token::REPLY_SAVE_OSMOSIS_DENOM;

verus! {

/// A coin of a denom that the token factory made.
#[derive(Clone, Debug, PartialEq, Eq)]
pub struct OsmosisCoin(pub Coin);

/// How many slashes the text holds.
pub open spec fn slash_count(s: Seq<char>) -> nat {
    s.filter(|c: char| c == '/').len()
}

/// Whether the text is a denom of the token factory: `factory/`, then two parts
/// with one slash between them and none inside them.
pub open spec fn is_factory_denom(s: Seq<char>) -> bool {
    &&& s.len() >= 8
    &&& s.take(8) == "factory/"@
    &&& slash_count(s.skip(8)) == 1
}

/// Whether the text is a denom of the token factory.
pub fn check_factory_denom(denom: &str) -> (r: bool)
    ensures
        r == is_factory_denom(denom@),
{
    let prefix = "factory/";
    proof {
        reveal_strlit("factory/");
    }
    let len = denom.unicode_len();
    if len < 8 {
        return false;
    }
    let mut i: usize = 0;
    while i < 8
        invariant
            i <= 8,
            len == denom@.len(),
            len >= 8,
            prefix@ == "factory/"@,
            prefix@.len() == 8,
            forall|j: int| 0 <= j < i ==> denom@[j] == prefix@[j],
        decreases 8 - i,
    {
        if denom.get_char(i) != prefix.get_char(i) {
            assert(denom@.take(8)[i as int] != prefix@[i as int]);
            return false;
        }
        i += 1;
    }
    assert(denom@.take(8) =~= prefix@);
    let ghost rest = denom@.skip(8);
    let mut slashes: usize = 0;
    let mut k: usize = 8;
    while k < len
        invariant
            8 <= k <= len,
            len == denom@.len(),
            rest == denom@.skip(8),
            slashes == slash_count(rest.take(k - 8)),
            slashes <= k - 8,
        decreases len - k,
    {
        proof {
            reveal(Seq::filter);
            assert(rest.take(k - 8 + 1).drop_last() =~= rest.take(k - 8));
        }
        if denom.get_char(k) == '/' {
            slashes += 1;
        }
        k += 1;
    }
    assert(rest.take(k - 8) =~= rest);
    slashes == 1
}

/// The new denom as the reply has it: the attribute `new_token_denom` of the
/// first `create_denom` event.
pub fn parse_osmosis_denom_from_instantiate_event(response: &SubMsgResponse) -> (r: Result<
    String,
    CwAssetError,
>)
    ensures
        match event_attribute(response.events@, "create_denom"@, "new_token_denom"@) {
            Ok(value) => r is Ok && r->Ok_0@ == value,
            Err(name) => r matches Err(CwAssetError::MalformedCallback { missing }) && missing@
                == name,
        },
{
    parse_event_attribute(response, "create_denom", "new_token_denom")
}

impl OsmosisCoin {
    /// The coin as text: the amount in decimal, then the denom.
    pub fn to_string(&self) -> (r: String)
        ensures
            r@ == decimal(self.0.amount as nat) + self.0.denom@,
    {
        let mut text = decimal_string(self.0.amount);
        text.append(self.0.denom.as_str());
        text
    }

    /// The same coin as an asset.
    pub fn into_asset(self) -> (r: Asset)
        ensures
            r@ == (AssetView { info: InfoView::Native(self.0.denom@), amount: self.0.amount }),
    {
        Asset::from_coin(&self.0)
    }

    /// The asset as a coin of the token factory: `NotNative` for a token,
    /// `InvalidDenom` for a native coin whose denom is not of the token factory.
    pub fn from_asset(asset: Asset) -> (r: Result<OsmosisCoin, CwAssetError>)
        ensures
            match asset.info {
                AssetInfoBase::Cw20(_) => r == Err::<OsmosisCoin, CwAssetError>(
                    CwAssetError::NotNative,
                ),
                AssetInfoBase::Native(denom) => if is_factory_denom(denom@) {
                    r == Ok::<OsmosisCoin, CwAssetError>(
                        OsmosisCoin(Coin { denom, amount: asset.amount }),
                    )
                } else {
                    r == Err::<OsmosisCoin, CwAssetError>(CwAssetError::InvalidDenom)
                },
            },
    {
        match asset.info {
            AssetInfoBase::Cw20(_) => Err(CwAssetError::NotNative),
            AssetInfoBase::Native(denom) => {
                if !check_factory_denom(denom.as_str()) {
                    return Err(CwAssetError::InvalidDenom);
                }
                Ok(OsmosisCoin(Coin { denom, amount: asset.amount }))
            },
        }
    }

    /// The ledger coin.
    pub fn into_coin(self) -> (r: Coin)
        ensures
            r == self.0,
    {
        self.0
    }

    /// A coin of the token factory is a native coin.
    pub fn is_native() -> (r: bool)
        ensures
            r,
    {
        true
    }

    /// The instruction that moves the coin from the sender to `to`.
    pub fn transfer(&self, to: &str) -> (r: OutboundMsg)
        ensures
            r matches OutboundMsg::BankSend { to_address, amount } && to_address@ == to@
                && amount@.len() == 1 && amount@[0]@ == self.0@,
    {
        OutboundMsg::bank_send(to, self.0.denom.as_str(), self.0.amount)
    }

    /// The two instructions that create the coin and hand it to `recipient`: the
    /// token factory mints it on behalf of `sender`, then the ledger moves it.
    pub fn mint(&self, sender: &str, recipient: &str) -> (r: Vec<OutboundMsg>)
        ensures
            r@.len() == 2,
            r@[0] matches OutboundMsg::MintDenom { coin, sender: s } && coin@ == self.0@ && s@
                == sender@,
            r@[1] matches OutboundMsg::BankSend { to_address, amount } && to_address@
                == recipient@ && amount@.len() == 1 && amount@[0]@ == self.0@,
    {
        let mut msgs: Vec<OutboundMsg> = Vec::new();
        msgs.push(
            OutboundMsg::MintDenom {
                coin: Coin { denom: self.0.denom.clone(), amount: self.0.amount },
                sender: sender.to_owned(),
            },
        );
        msgs.push(OutboundMsg::bank_send(recipient, self.0.denom.as_str(), self.0.amount));
        msgs
    }

    /// The instruction that has the token factory burn the coin on behalf of
    /// `sender`.
    pub fn burn(&self, sender: &str) -> (r: OutboundMsg)
        ensures
            r matches OutboundMsg::BurnDenom { coin, sender: s } && coin@ == self.0@ && s@
                == sender@,
    {
        OutboundMsg::BurnDenom {
            coin: Coin { denom: self.0.denom.clone(), amount: self.0.amount },
            sender: sender.to_owned(),
        }
    }
}

/// A request for a new denom of the token factory: the sub-identifier that the
/// denom is to have.
pub type OsmosisDenomInstantiator = String;

impl Instantiate for OsmosisDenomInstantiator {
    open spec fn reply_id() -> u64 {
        REPLY_SAVE_OSMOSIS_DENOM
    }

    /// A create-denom instruction with the sub-identifier and this contract as
    /// sender.
    fn instantiate_msg(&self, env: &Env) -> (r: Result<SubMsg, CwAssetError>)
        ensures
            r is Ok,
            r->Ok_0.msg matches OutboundMsg::CreateDenom { body } && body.sender@
                == env.contract_address@ && body.subdenom@ == self@,
    {
        Ok(
            SubMsg::reply_always(
                OutboundMsg::CreateDenom {
                    body: OsmosisCreateDenomMsg {
                        sender: env.contract_address.as_str().to_owned(),
                        subdenom: self.clone(),
                    },
                },
                REPLY_SAVE_OSMOSIS_DENOM,
            ),
        )
    }

    /// The native coin of the new denom, which is read from the reply, with a
    /// record of it. The validator is not asked.
    fn save_asset<F: Fn(&String) -> Result<Addr, String>>(_validate: &F, reply: Reply) -> (r:
        Result<SavedAsset, CwAssetError>)
        ensures
            reply.result is Ok && reply.id == REPLY_SAVE_OSMOSIS_DENOM ==> denom_saved(
                reply.result->Ok_0.events@,
                asset_read(r),
            ),
    {
        let id = reply.id;
        let res = match unwrap_reply(reply) {
            Ok(res) => res,
            Err(e) => {
                return Err(e);
            },
        };
        if id != REPLY_SAVE_OSMOSIS_DENOM {
            return Err(CwAssetError::UnknownReplyTag { id });
        }
        match parse_osmosis_denom_from_instantiate_event(&res) {
            Ok(osmosis_denom) => {
                let attributes = record("save_osmosis_denom", "denom", osmosis_denom.as_str());
                Ok(SavedAsset { asset_info: AssetInfoBase::Native(osmosis_denom), attributes })
            },
            Err(e) => Err(e),
        }
    }
}

} // verus!
