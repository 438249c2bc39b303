use vstd::prelude::*;
use crate::error::CwAssetError;
use crate::search::first_index;
use crate::search::is_first;
use crate::search::lemma_first_index;
use crate::search::same_text;

verus! {

/// A named, text-valued attribute of an event.
#[derive(Clone, Debug, PartialEq, Eq)]
pub struct Attribute {
    pub key: String,
    pub value: String,
}

/// An event that the platform recorded while it carried out an instruction.
#[derive(Clone, Debug, PartialEq, Eq)]
pub struct Event {
    pub ty: String,
    pub attributes: Vec<Attribute>,
}

/// What an instruction that succeeded left behind.
#[derive(Clone, Debug, PartialEq, Eq)]
pub struct SubMsgResponse {
    pub events: Vec<Event>,
    pub data: Option<Vec<u8>>,
}

/// The platform's report on an instruction that was sent with the tag `id`: what
/// the instruction left behind, or why it failed.
#[derive(Debug, PartialEq, Eq)]
pub struct Reply {
    pub id: u64,
    pub result: Result<SubMsgResponse, String>,
}

/// The place of the first event of type `ty`.
pub open spec fn event_index(events: Seq<Event>, ty: Seq<char>) -> Option<int> {
    first_index(events, |e: Event| e.ty@ == ty)
}

/// The place of the first attribute named `key`.
pub open spec fn attribute_index(attributes: Seq<Attribute>, key: Seq<char>) -> Option<int> {
    first_index(attributes, |a: Attribute| a.key@ == key)
}

/// The value of the first attribute named `key` of the first event of type
/// `ty`, or the name of what is missing: `ty` where there is no such event, `key`
/// where that event has no such attribute. Later events of the type are not
/// looked at.
pub open spec fn event_attribute(events: Seq<Event>, ty: Seq<char>, key: Seq<char>) -> Result<
    Seq<char>,
    Seq<char>,
> {
    match event_index(events, ty) {
        None => Err(ty),
        Some(i) => match attribute_index(events[i].attributes@, key) {
            None => Err(key),
            Some(j) => Ok(events[i].attributes@[j].value@),
        },
    }
}

/// The response of a reply that reports success, or `ProvisioningFailed` with
/// the platform's reason.
pub fn unwrap_reply(reply: Reply) -> (r: Result<SubMsgResponse, CwAssetError>)
    ensures
        match reply.result {
            Ok(response) => r == Ok::<SubMsgResponse, CwAssetError>(response),
            Err(reason) => r == Err::<SubMsgResponse, CwAssetError>(
                CwAssetError::ProvisioningFailed { reason },
            ),
        },
{
    match reply.result {
        Ok(response) => Ok(response),
        Err(reason) => Err(CwAssetError::ProvisioningFailed { reason }),
    }
}

/// The first event of type `ty`.
fn find_event<'a>(events: &'a Vec<Event>, ty: &str) -> (r: Option<&'a Event>)
    ensures
        match event_index(events@, ty@) {
            Some(i) => r == Some(&events@[i]),
            None => r is None,
        },
{
    let ghost p = |e: Event| e.ty@ == ty@;
    let mut i: usize = 0;
    while i < events.len()
        invariant
            i <= events.len(),
            p == |e: Event| e.ty@ == ty@,
            forall|j: int| 0 <= j < i ==> !p(#[trigger] events@[j]),
        decreases events.len() - i,
    {
        if same_text(events[i].ty.as_str(), ty) {
            proof {
                assert(is_first(events@, p, i as int));
                lemma_first_index(events@, p);
            }
            return Some(&events[i]);
        }
        i += 1;
    }
    proof {
        lemma_first_index(events@, p);
    }
    None
}

/// The first attribute named `key`.
fn find_attribute<'a>(attributes: &'a Vec<Attribute>, key: &str) -> (r: Option<&'a Attribute>)
    ensures
        match attribute_index(attributes@, key@) {
            Some(i) => r == Some(&attributes@[i]),
            None => r is None,
        },
{
    let ghost p = |a: Attribute| a.key@ == key@;
    let mut i: usize = 0;
    while i < attributes.len()
        invariant
            i <= attributes.len(),
            p == |a: Attribute| a.key@ == key@,
            forall|j: int| 0 <= j < i ==> !p(#[trigger] attributes@[j]),
        decreases attributes.len() - i,
    {
        if same_text(attributes[i].key.as_str(), key) {
            proof {
                assert(is_first(attributes@, p, i as int));
                lemma_first_index(attributes@, p);
            }
            return Some(&attributes[i]);
        }
        i += 1;
    }
    proof {
        lemma_first_index(attributes@, p);
    }
    None
}

/// The value of the attribute `key` of the first event of type `ty`, or
/// `MalformedCallback` with the name of what is missing.
pub fn parse_event_attribute(response: &SubMsgResponse, ty: &str, key: &str) -> (r: Result<
    String,
    CwAssetError,
>)
    ensures
        match event_attribute(response.events@, ty@, key@) {
            Ok(value) => r is Ok && r->Ok_0@ == value,
            Err(name) => r matches Err(CwAssetError::MalformedCallback { missing }) && missing@
                == name,
        },
{
    match find_event(&response.events, ty) {
        None => Err(CwAssetError::MalformedCallback { missing: ty.to_owned() }),
        Some(event) => match find_attribute(&event.attributes, key) {
            None => Err(CwAssetError::MalformedCallback { missing: key.to_owned() }),
            Some(attribute) => Ok(attribute.value.clone()),
        },
    }
}

} // verus!
