use vstd::prelude::*;
use crate::address::validated_as;
use crate::address::Addr;
use crate::asset_info::AssetInfo;
use crate::asset_info::InfoView;
use crate::error::CwAssetError;
use crate::message::SubMsg;
use crate::reply::event_attribute;
use crate::reply::Attribute;
use crate::reply::Event;
use crate::reply::Reply;
use crate::token::is_record;
use crate::token::Env;

verus! {

/// What a reply to a create instruction amounts to for an asset: the kind of
/// the new asset, to be stored where the caller keeps it, and the record to
/// publish.
#[derive(Clone, Debug, PartialEq, Eq)]
pub struct SavedAsset {
    pub asset_info: AssetInfo,
    pub attributes: Vec<Attribute>,
}

/// What was read from a reply: the kind of the new asset and the record to
/// publish, or the error.
pub open spec fn asset_read(r: Result<SavedAsset, CwAssetError>) -> Result<
    (InfoView, Seq<Attribute>),
    CwAssetError,
> {
    match r {
        Ok(saved) => Ok((saved.asset_info@, saved.attributes@)),
        Err(e) => Err(e),
    }
}

/// Whether `read` is what reading a new ledger denom from the events of a
/// reply comes to: the native coin of the denom that the attribute
/// `new_token_denom` of the first `create_denom` event holds, with a record of
/// it; or `MalformedCallback` with the name of what the events lack.
pub open spec fn denom_saved(
    events: Seq<Event>,
    read: Result<(InfoView, Seq<Attribute>), CwAssetError>,
) -> bool {
    match event_attribute(events, "create_denom"@, "new_token_denom"@) {
        Ok(value) => read matches Ok((info, attributes)) && info == InfoView::Native(value)
            && is_record(attributes, "save_osmosis_denom"@, "denom"@, value),
        Err(name) => read matches Err(CwAssetError::MalformedCallback { missing }) && missing@
            == name,
    }
}

/// Whether `read` is what reading a new contract's address from the events of
/// a reply comes to: the token of the address that `validate` made of the
/// attribute `_contract_address` of the first `instantiate` event, with a
/// record of it; or the error of `validate`'s refusal; or `MalformedCallback`
/// with the name of what the events lack.
pub open spec fn address_saved<F: Fn(&String) -> Result<Addr, String>>(
    validate: F,
    events: Seq<Event>,
    read: Result<(InfoView, Seq<Attribute>), CwAssetError>,
) -> bool {
    match event_attribute(events, "instantiate"@, "_contract_address"@) {
        Ok(value) => match read {
            Ok((info, attributes)) => {
                &&& info is Cw20
                &&& exists|address: Addr|
                    address@ == info.text() && #[trigger] validated_as(
                        validate,
                        value,
                        Ok(address),
                    )
                &&& is_record(attributes, "save_osmosis_denom"@, "addr"@, info.text())
            },
            Err(e) => validated_as(validate, value, Err(e)),
        },
        Err(name) => read matches Err(CwAssetError::MalformedCallback { missing }) && missing@
            == name,
    }
}

/// A way to create a new asset on the platform: an instruction to send, and
/// the reading of the reply to it.
pub trait Instantiate: Sized {
    /// The tag that the instruction carries and that the reply brings back.
    spec fn reply_id() -> u64;

    /// The instruction that creates the asset, to be reported back whether it
    /// succeeds or fails.
    fn instantiate_msg(&self, env: &Env) -> (r: Result<SubMsg, CwAssetError>)
        ensures
            r is Ok,
            r->Ok_0.id == Self::reply_id(),
            r->Ok_0.reply_on is Always,
    ;

    /// The asset that the reply reports. A reply that reports failure is
    /// `ProvisioningFailed`; a reply with another tag than `reply_id` is
    /// `UnknownReplyTag`.
    fn save_asset<F: Fn(&String) -> Result<Addr, String>>(validate: &F, reply: Reply) -> (r: Result<
        SavedAsset,
        CwAssetError,
    >)
        requires
            forall|raw: String| call_requires(*validate, (&raw,)),
        ensures
            reply.result matches Err(reason) ==> r == Err::<SavedAsset, CwAssetError>(
                CwAssetError::ProvisioningFailed { reason },
            ),
            reply.result is Ok && reply.id != Self::reply_id() ==> r == Err::<
                SavedAsset,
                CwAssetError,
            >(CwAssetError::UnknownReplyTag { id: reply.id }),
    ;
}

} // verus!
