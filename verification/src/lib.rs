//! Fungible assets of two kinds, native coins and contract-tracked tokens, behind
//! one value type, with a merging collection, a storage-key encoding and the
//! reply protocol that provisions a new token.

pub mod address;
pub mod asset;
pub mod asset_info;
pub mod asset_info_key;
pub mod asset_instantiator;
pub mod asset_list;
pub mod asset_list_model;
pub mod astroport;
pub mod cw20_asset;
pub mod cw20_init;
pub mod decimal;
pub mod error;
pub mod message;
pub mod osmosis;
pub mod query;
pub mod reply;
pub mod search;
pub mod token;

pub use address::Addr;
pub use asset::Asset;
pub use asset::AssetBase;
pub use asset::AssetUnchecked;
pub use asset::Coin;
pub use asset::Cw20Coin;
pub use asset::Cw20CoinVerified;
pub use asset_info::AssetInfo;
pub use asset_info::AssetInfoBase;
pub use asset_info::AssetInfoUnchecked;
pub use asset_info_key::AssetInfoKey;
pub use asset_instantiator::Instantiate;
pub use asset_instantiator::SavedAsset;
pub use asset_list::AssetList;
pub use asset_list::AssetListBase;
pub use asset_list::AssetListUnchecked;
pub use cw20_asset::Cw20Asset;
pub use cw20_asset::Cw20AssetInstantiator;
pub use cw20_init::Cw20InstantiateMsg;
pub use cw20_init::Cw20Logo;
pub use cw20_init::Cw20MarketingInfo;
pub use cw20_init::Cw20Minter;
pub use error::CwAssetError;
pub use error::FundsMismatch;
pub use message::Cw20Execute;
pub use message::OsmosisCreateDenomMsg;
pub use message::OutboundMsg;
pub use message::ReplyOn;
pub use message::SubMsg;
pub use osmosis::OsmosisCoin;
pub use osmosis::OsmosisDenomInstantiator;
pub use query::BalanceQuery;
pub use reply::Attribute;
pub use reply::Event;
pub use reply::Reply;
pub use reply::SubMsgResponse;
pub use token::Env;
pub use token::MessageInfo;
pub use token::Token;
pub use token::TokenInitInfo;
pub use token::TokenInstantiator;
