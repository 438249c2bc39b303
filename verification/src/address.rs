use vstd::prelude::*;
use crate::error::CwAssetError;

verus! {

/// An address of the platform: a string that the platform's validator has
/// accepted, or that the caller vouches for.
#[derive(Clone, Debug, PartialEq, Eq, Hash)]
pub struct Addr {
    text: String,
}

impl View for Addr {
    type V = Seq<char>;

    closed spec fn view(&self) -> Seq<char> {
        self.text@
    }
}

impl Addr {
    /// Wraps a string without asking the platform about it.
    pub fn unchecked(text: &str) -> (r: Addr)
        ensures
            r@ == text@,
    {
        Addr { text: text.to_owned() }
    }

    /// The address as text.
    pub fn as_str(&self) -> (r: &str)
        ensures
            r@ == self@,
    {
        self.text.as_str()
    }

    /// The address as an owned string.
    pub fn into_string(self) -> (r: String)
        ensures
            r@ == self@,
    {
        self.text
    }

    /// A copy with the same text.
    pub fn duplicate(&self) -> (r: Addr)
        ensures
            r@ == self@,
    {
        Addr { text: self.text.clone() }
    }

    /// Whether the two addresses hold the same text.
    pub fn same(&self, other: &Addr) -> (r: bool)
        ensures
            r == (self@ == other@),
    {
        self.text == other.text
    }
}

/// Whether `r` is what becomes of `text` when `validate`, which stands for the
/// platform's address validator, is asked about it: the address that it
/// accepted, or `InvalidAddress` with the text and the validator's reason.
pub open spec fn validated_as<F: Fn(&String) -> Result<Addr, String>>(
    validate: F,
    text: Seq<char>,
    r: Result<Addr, CwAssetError>,
) -> bool {
    exists|raw: String, answer: Result<Addr, String>|
        {
            &&& raw@ == text
            &&& call_ensures(validate, (&raw,), answer)
            &&& address_from_answer(text, answer, r)
        }
}

/// Whether `r` is what the validator's answer about `text` amounts to.
pub open spec fn address_from_answer(
    text: Seq<char>,
    answer: Result<Addr, String>,
    r: Result<Addr, CwAssetError>,
) -> bool {
    match answer {
        Ok(addr) => r == Ok::<Addr, CwAssetError>(addr),
        Err(reason) => r matches Err(CwAssetError::InvalidAddress { address, reason: why })
            && address@ == text && why == reason,
    }
}

/// What the validator's answer about `raw` amounts to: the address that it
/// accepted, or `InvalidAddress` with `raw` and the validator's reason.
pub fn from_validation(raw: &String, answer: Result<Addr, String>) -> (r: Result<
    Addr,
    CwAssetError,
>)
    ensures
        address_from_answer(raw@, answer, r),
{
    match answer {
        Ok(addr) => Ok(addr),
        Err(reason) => Err(CwAssetError::InvalidAddress { address: raw.clone(), reason }),
    }
}

/// Asks `validate` about `raw`.
pub fn validate_address<F: Fn(&String) -> Result<Addr, String>>(validate: &F, raw: &String) -> (r:
    Result<Addr, CwAssetError>)
    requires
        call_requires(*validate, (raw,)),
    ensures
        validated_as(*validate, raw@, r),
{
    let answer = validate(raw);
    from_validation(raw, answer)
}

} // verus!
