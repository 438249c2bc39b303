use vstd::prelude::*;
use vstd::slice::slice_to_vec;
use cosmwasm_std::to_json_vec;
use cosmwasm_std::Binary;
use cosmwasm_std::StdError;
use cosmwasm_std::Uint128;
use cw20::Cw20Coin;
use cw20::EmbeddedLogo;
use cw20::Logo;
use cw20::MinterResponse;
use cw20_base::msg::InstantiateMarketingInfo;
use cw20_base::msg::InstantiateMsg;

verus! {

/// The logo of a token: a link to it, or the picture itself.
#[derive(Clone, Debug, PartialEq, Eq)]
pub enum Cw20Logo {
    Url(String),
    Svg(Vec<u8>),
    Png(Vec<u8>),
}

/// What a token contract tells about the project behind it.
#[derive(Clone, Debug, PartialEq, Eq)]
pub struct Cw20MarketingInfo {
    pub project: Option<String>,
    pub description: Option<String>,
    pub marketing: Option<String>,
    pub logo: Option<Cw20Logo>,
}

/// Who may mint a token, and up to which total supply.
#[derive(Clone, Debug, PartialEq, Eq)]
pub struct Cw20Minter {
    pub minter: String,
    pub cap: Option<u128>,
}

/// The message that sets up a new token contract of the cw20-base code.
#[derive(Clone, Debug, PartialEq, Eq)]
pub struct Cw20InstantiateMsg {
    pub name: String,
    pub symbol: String,
    pub decimals: u8,
    pub initial_balances: Vec<crate::asset::Cw20Coin>,
    pub mint: Option<Cw20Minter>,
    pub marketing: Option<Cw20MarketingInfo>,
}

/// What a logo is.
pub ghost enum Cw20LogoView {
    Url(Seq<char>),
    Svg(Seq<u8>),
    Png(Seq<u8>),
}

/// What the marketing information is.
pub ghost struct Cw20MarketingView {
    pub project: Option<Seq<char>>,
    pub description: Option<Seq<char>>,
    pub marketing: Option<Seq<char>>,
    pub logo: Option<Cw20LogoView>,
}

/// What a minter is.
pub ghost struct Cw20MinterView {
    pub minter: Seq<char>,
    pub cap: Option<u128>,
}

/// What a set-up message is.
pub ghost struct Cw20InstantiateView {
    pub name: Seq<char>,
    pub symbol: Seq<char>,
    pub decimals: u8,
    pub initial_balances: Seq<(Seq<char>, u128)>,
    pub mint: Option<Cw20MinterView>,
    pub marketing: Option<Cw20MarketingView>,
}

/// What an optional text is.
pub open spec fn text_view(text: Option<String>) -> Option<Seq<char>> {
    match text {
        Some(t) => Some(t@),
        None => None,
    }
}

impl View for Cw20Logo {
    type V = Cw20LogoView;

    open spec fn view(&self) -> Cw20LogoView {
        match self {
            Cw20Logo::Url(url) => Cw20LogoView::Url(url@),
            Cw20Logo::Svg(data) => Cw20LogoView::Svg(data@),
            Cw20Logo::Png(data) => Cw20LogoView::Png(data@),
        }
    }
}

impl View for Cw20MarketingInfo {
    type V = Cw20MarketingView;

    open spec fn view(&self) -> Cw20MarketingView {
        Cw20MarketingView {
            project: text_view(self.project),
            description: text_view(self.description),
            marketing: text_view(self.marketing),
            logo: match self.logo {
                Some(logo) => Some(logo@),
                None => None,
            },
        }
    }
}

impl View for Cw20Minter {
    type V = Cw20MinterView;

    open spec fn view(&self) -> Cw20MinterView {
        Cw20MinterView { minter: self.minter@, cap: self.cap }
    }
}

impl View for Cw20InstantiateMsg {
    type V = Cw20InstantiateView;

    open spec fn view(&self) -> Cw20InstantiateView {
        Cw20InstantiateView {
            name: self.name@,
            symbol: self.symbol@,
            decimals: self.decimals,
            initial_balances: self.initial_balances@.map_values(
                |c: crate::asset::Cw20Coin| (c.address@, c.amount),
            ),
            mint: match self.mint {
                Some(mint) => Some(mint@),
                None => None,
            },
            marketing: match self.marketing {
                Some(marketing) => Some(marketing@),
                None => None,
            },
        }
    }
}

/// A copy of an optional text.
fn duplicate_text(text: &Option<String>) -> (r: Option<String>)
    ensures
        text_view(r) == text_view(*text),
{
    match text {
        Some(t) => Some(t.clone()),
        None => None,
    }
}

impl Cw20Logo {
    /// A copy of the logo.
    pub fn duplicate(&self) -> (r: Cw20Logo)
        ensures
            r@ == self@,
    {
        match self {
            Cw20Logo::Url(url) => Cw20Logo::Url(url.clone()),
            Cw20Logo::Svg(data) => Cw20Logo::Svg(slice_to_vec(data.as_slice())),
            Cw20Logo::Png(data) => Cw20Logo::Png(slice_to_vec(data.as_slice())),
        }
    }
}

impl Cw20MarketingInfo {
    /// A copy of the marketing information.
    pub fn duplicate(&self) -> (r: Cw20MarketingInfo)
        ensures
            r@ == self@,
    {
        Cw20MarketingInfo {
            project: duplicate_text(&self.project),
            description: duplicate_text(&self.description),
            marketing: duplicate_text(&self.marketing),
            logo: match &self.logo {
                Some(logo) => Some(logo.duplicate()),
                None => None,
            },
        }
    }
}

impl Cw20Minter {
    /// A copy of the minter.
    pub fn duplicate(&self) -> (r: Cw20Minter)
        ensures
            r@ == self@,
    {
        Cw20Minter { minter: self.minter.clone(), cap: self.cap }
    }
}

impl Cw20InstantiateMsg {
    /// A copy of the message.
    pub fn duplicate(&self) -> (r: Cw20InstantiateMsg)
        ensures
            r@ == self@,
    {
        let mut initial_balances: Vec<crate::asset::Cw20Coin> = Vec::new();
        let mut i: usize = 0;
        while i < self.initial_balances.len()
            invariant
                i <= self.initial_balances@.len(),
                initial_balances@.len() == i,
                forall|j: int|
                    0 <= j < i ==> (#[trigger] initial_balances@[j]).address@
                        == self.initial_balances@[j].address@ && initial_balances@[j].amount
                        == self.initial_balances@[j].amount,
            decreases self.initial_balances@.len() - i,
        {
            initial_balances.push(
                crate::asset::Cw20Coin {
                    address: self.initial_balances[i].address.clone(),
                    amount: self.initial_balances[i].amount,
                },
            );
            i += 1;
        }
        let r = Cw20InstantiateMsg {
            name: self.name.clone(),
            symbol: self.symbol.clone(),
            decimals: self.decimals,
            initial_balances,
            mint: match &self.mint {
                Some(mint) => Some(mint.duplicate()),
                None => None,
            },
            marketing: match &self.marketing {
                Some(marketing) => Some(marketing.duplicate()),
                None => None,
            },
        };
        assert(r@.initial_balances =~= self@.initial_balances);
        r
    }
}

/// The JSON that cosmwasm-std makes of the `InstantiateMsg` of cw20-base with
/// the same fields.
pub uninterp spec fn cw20_instantiate_json(msg: Cw20InstantiateView) -> Seq<u8>;

/// Calls `cosmwasm_std::to_json_vec` on the `InstantiateMsg` of cw20-base with
/// the same fields. It succeeds for every such message, and the bytes are a
/// function of the fields.
#[verifier::external_body]
pub(crate) fn encode_cw20_instantiate(msg: Cw20InstantiateMsg) -> (r: Result<Vec<u8>, StdError>)
    ensures
        r is Ok,
        r->Ok_0@ == cw20_instantiate_json(msg@),
{
    to_json_vec(&InstantiateMsg {
        name: msg.name,
        symbol: msg.symbol,
        decimals: msg.decimals,
        initial_balances: msg.initial_balances.into_iter().map(|c| Cw20Coin { address: c.address, amount: c.amount.into() }).collect(),
        mint: msg.mint.map(|Cw20Minter { minter, cap }| MinterResponse { minter, cap: cap.map(Uint128::new) }),
        marketing: msg.marketing.map(|Cw20MarketingInfo { project, description, marketing, logo }| InstantiateMarketingInfo {
            project, description, marketing,
            logo: logo.map(|l| match l {
                Cw20Logo::Url(u) => Logo::Url(u),
                Cw20Logo::Svg(b) => Logo::Embedded(EmbeddedLogo::Svg(Binary(b))),
                Cw20Logo::Png(b) => Logo::Embedded(EmbeddedLogo::Png(Binary(b)))
            })
        })
    })
}

} // verus!
