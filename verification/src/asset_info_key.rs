use vstd::prelude::*;
use vstd::slice::slice_subrange;
use vstd::slice::slice_to_vec;
use vstd::string::StrSliceExecFns;
use vstd::utf8::decode_utf8;
use vstd::utf8::encode_utf8;
use vstd::utf8::encode_utf8_decode_utf8;
use vstd::utf8::encode_utf8_valid_utf8;
use vstd::utf8::valid_utf8;
use crate::address::Addr;
use crate::asset_info::AssetInfo;
use crate::asset_info::AssetInfoBase;
use crate::asset_info::InfoView;
use crate::error::CwAssetError;

verus! {

/// The leading byte of the key of a contract-tracked token.
pub const CW20_TAG: u8 = 0;

/// The leading byte of the key of a native coin.
pub const NATIVE_TAG: u8 = 255;

/// The leading byte of the key of an asset kind.
pub open spec fn tag_of(info: InfoView) -> u8 {
    match info {
        InfoView::Cw20(_) => CW20_TAG,
        InfoView::Native(_) => NATIVE_TAG,
    }
}

/// The key of an asset kind: its tag, then its text in UTF-8.
pub open spec fn encode_info(info: InfoView) -> Seq<u8> {
    seq![tag_of(info)] + encode_utf8(info.text())
}

/// The asset kind that a key stands for, if it stands for one: the key is not
/// empty, its first byte is one of the two tags, and the rest is UTF-8.
pub open spec fn decode_key(bytes: Seq<u8>) -> Option<InfoView> {
    if bytes.len() == 0 || !valid_utf8(bytes.skip(1)) {
        None
    } else if bytes[0] == CW20_TAG {
        Some(InfoView::Cw20(decode_utf8(bytes.skip(1))))
    } else if bytes[0] == NATIVE_TAG {
        Some(InfoView::Native(decode_utf8(bytes.skip(1))))
    } else {
        None
    }
}

/// Decoding the key of an asset kind gives that kind back.
pub proof fn lemma_decode_encode(info: InfoView)
    ensures
        decode_key(encode_info(info)) == Some(info),
{
    let key = encode_info(info);
    assert(key.skip(1) =~= encode_utf8(info.text()));
    encode_utf8_valid_utf8(info.text());
    encode_utf8_decode_utf8(info.text());
}

/// Two asset kinds have the same key exactly when they are the same kind.
pub proof fn lemma_encode_injective(a: InfoView, b: InfoView)
    ensures
        (encode_info(a) == encode_info(b)) <==> (a == b),
{
    lemma_decode_encode(a);
    lemma_decode_encode(b);
}

/// In the byte-wise order of keys, the key of every contract-tracked token comes
/// before the key of every native coin: they differ in the first byte.
pub proof fn lemma_cw20_keys_precede_native(a: InfoView, b: InfoView)
    requires
        a is Cw20,
        b is Native,
    ensures
        encode_info(a)[0] < encode_info(b)[0],
{
}

/// Calls `String::from_utf8`: the bytes become a string exactly when they are
/// valid UTF-8, and the string then holds the characters that they encode.
#[verifier::external_body]
fn string_from_utf8(bytes: Vec<u8>) -> (r: Option<String>)
    ensures
        r is Some <==> valid_utf8(bytes@),
        r is Some ==> r->Some_0@ == decode_utf8(bytes@),
{
    String::from_utf8(bytes).ok()
}

/// An asset kind as bytes, for use as a key in an ordered store.
#[derive(Clone, Debug, PartialEq, Eq)]
pub struct AssetInfoKey {
    bytes: Vec<u8>,
}

impl View for AssetInfoKey {
    type V = Seq<u8>;

    closed spec fn view(&self) -> Seq<u8> {
        self.bytes@
    }
}

impl AssetInfoKey {
    /// The key's bytes.
    pub fn as_bytes(&self) -> (r: &[u8])
        ensures
            r@ == self@,
    {
        self.bytes.as_slice()
    }

    /// A key of the given bytes, whatever they hold.
    pub fn from_vec(value: Vec<u8>) -> (r: AssetInfoKey)
        ensures
            r@ == value@,
    {
        AssetInfoKey { bytes: value }
    }

    /// The key of an asset kind.
    pub fn from_asset_info(asset_info: &AssetInfo) -> (r: AssetInfoKey)
        ensures
            r@ == encode_info(asset_info@),
            decode_key(r@) == Some(asset_info@),
    {
        let mut bytes: Vec<u8> = Vec::new();
        match asset_info {
            AssetInfoBase::Cw20(contract_addr) => {
                bytes.push(CW20_TAG);
                let mut text = contract_addr.as_str().as_bytes_vec();
                bytes.append(&mut text);
            },
            AssetInfoBase::Native(denom) => {
                bytes.push(NATIVE_TAG);
                let mut text = denom.as_str().as_bytes_vec();
                bytes.append(&mut text);
            },
        }
        proof {
            assert(bytes@ =~= encode_info(asset_info@));
            lemma_decode_encode(asset_info@);
        }
        AssetInfoKey { bytes }
    }

    /// The asset kind that the key stands for, or `MalformedKey` where it stands
    /// for none.
    pub fn to_asset_info(&self) -> (r: Result<AssetInfo, CwAssetError>)
        ensures
            match decode_key(self@) {
                Some(info) => r is Ok && r->Ok_0@ == info,
                None => r == Err::<AssetInfo, CwAssetError>(CwAssetError::MalformedKey),
            },
    {
        let len = self.bytes.len();
        if len == 0 {
            return Err(CwAssetError::MalformedKey);
        }
        let first_byte = self.bytes[0];
        let rest = slice_to_vec(slice_subrange(self.bytes.as_slice(), 1, len));
        assert(rest@ =~= self@.skip(1));
        match string_from_utf8(rest) {
            None => Err(CwAssetError::MalformedKey),
            Some(text) => {
                if first_byte == CW20_TAG {
                    Ok(AssetInfoBase::Cw20(Addr::unchecked(text.as_str())))
                } else if first_byte == NATIVE_TAG {
                    Ok(AssetInfoBase::Native(text))
                } else {
                    Err(CwAssetError::MalformedKey)
                }
            },
        }
    }

    /// Whether this is the key of the given asset kind.
    pub fn is_key_of(&self, asset_info: &AssetInfo) -> (r: bool)
        ensures
            r == (self@ == encode_info(asset_info@)),
            r == (decode_key(self@) == Some(asset_info@)),
    {
        let other = AssetInfoKey::from_asset_info(asset_info);
        proof {
            lemma_key_decodes_to(self@, asset_info@);
        }
        self.same(&other)
    }

    /// Whether the two keys hold the same bytes.
    pub fn same(&self, other: &AssetInfoKey) -> (r: bool)
        ensures
            r == (self@ == other@),
    {
        if self.bytes.len() != other.bytes.len() {
            return false;
        }
        let mut i: usize = 0;
        while i < self.bytes.len()
            invariant
                i <= self.bytes.len(),
                self.bytes.len() == other.bytes.len(),
                forall|j: int| 0 <= j < i ==> self.bytes@[j] == other.bytes@[j],
            decreases self.bytes.len() - i,
        {
            if self.bytes[i] != other.bytes[i] {
                return false;
            }
            i += 1;
        }
        assert(self.bytes@ =~= other.bytes@);
        true
    }
}

/// A key that decodes to an asset kind is the key of that kind.
pub proof fn lemma_key_decodes_to(bytes: Seq<u8>, info: InfoView)
    ensures
        (decode_key(bytes) == Some(info)) <==> (bytes == encode_info(info)),
{
    lemma_decode_encode(info);
    if decode_key(bytes) == Some(info) {
        let rest = bytes.skip(1);
        vstd::utf8::decode_utf8_encode_utf8(rest);
        assert(bytes =~= seq![bytes[0]] + rest);
        assert(bytes =~= encode_info(info));
    }
}

} // verus!
