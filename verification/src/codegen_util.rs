//! Pieces shared by the code generators: concatenation over a sequence, the
//! identifiers and Rust types that stand for each property value type.
use vstd::prelude::*;
use crate::model::{PropertyValueTypeTag, PropertyView};

verus! {

/// The concatenation of `f(x)` over the elements `x` of `s`, in order.
pub open spec fn concat_map<A>(s: Seq<A>, f: spec_fn(A) -> Seq<char>) -> Seq<char>
    decreases s.len(),
{
    if s.len() == 0 {
        Seq::empty()
    } else {
        concat_map(s.drop_last(), f) + f(s.last())
    }
}

pub proof fn lemma_concat_map_step<A>(s: Seq<A>, f: spec_fn(A) -> Seq<char>, i: int)
    requires
        0 <= i < s.len(),
    ensures
        concat_map(s.take(i + 1), f) == concat_map(s.take(i), f) + f(s[i]),
{
    assert(s.take(i + 1).drop_last() =~= s.take(i));
    assert(s.take(i + 1).last() == s[i]);
}

pub proof fn lemma_concat_map_all<A>(s: Seq<A>, f: spec_fn(A) -> Seq<char>)
    ensures
        concat_map(s.take(s.len() as int), f) == concat_map(s, f),
{
    assert(s.take(s.len() as int) =~= s);
}

/// The concatenation of `f(i, x)` over the elements `x` of `s` and their indices `i`, in order.
pub open spec fn concat_map_indexed<A>(s: Seq<A>, f: spec_fn(int, A) -> Seq<char>) -> Seq<char>
    decreases s.len(),
{
    if s.len() == 0 {
        Seq::empty()
    } else {
        concat_map_indexed(s.drop_last(), f) + f(s.len() - 1, s.last())
    }
}

pub proof fn lemma_concat_map_indexed_step<A>(s: Seq<A>, f: spec_fn(int, A) -> Seq<char>, i: int)
    requires
        0 <= i < s.len(),
    ensures
        concat_map_indexed(s.take(i + 1), f) == concat_map_indexed(s.take(i), f) + f(i, s[i]),
{
    assert(s.take(i + 1).drop_last() =~= s.take(i));
    assert(s.take(i + 1).last() == s[i]);
}

pub proof fn lemma_concat_map_indexed_all<A>(s: Seq<A>, f: spec_fn(int, A) -> Seq<char>)
    ensures
        concat_map_indexed(s.take(s.len() as int), f) == concat_map_indexed(s, f),
{
    assert(s.take(s.len() as int) =~= s);
}

/// The variant name under which a value type appears in `PropertyValue` and
/// `PropertyValueType`. Enum-valued properties have no such single name.
pub open spec fn tag_ident(t: PropertyValueTypeTag) -> Seq<char> {
    match t {
        PropertyValueTypeTag::Stringy => "Stringy"@,
        PropertyValueTypeTag::Enummy => Seq::empty(),
        PropertyValueTypeTag::Numbery => "Numbery"@,
        PropertyValueTypeTag::Floaty => "Floaty"@,
        PropertyValueTypeTag::Booly => "Booly"@,
        PropertyValueTypeTag::SockAddr => "SockAddr"@,
        PropertyValueTypeTag::IpAddr => "IpAddr"@,
        PropertyValueTypeTag::PortNumber => "PortNumber"@,
        PropertyValueTypeTag::Path => "Path"@,
        PropertyValueTypeTag::Uri => "Uri"@,
        PropertyValueTypeTag::Duration => "Duration"@,
        PropertyValueTypeTag::ChildNode => "ChildNode"@,
        PropertyValueTypeTag::BytesBuffer => "BytesBuffer"@,
    }
}

/// The variant name of a non-enum value type.
pub fn tag_ident_str(t: PropertyValueTypeTag) -> (r: &'static str)
    requires
        t != PropertyValueTypeTag::Enummy,
    ensures
        r@ == tag_ident(t),
{
    match t {
        PropertyValueTypeTag::Stringy => "Stringy",
        PropertyValueTypeTag::Enummy => "",
        PropertyValueTypeTag::Numbery => "Numbery",
        PropertyValueTypeTag::Floaty => "Floaty",
        PropertyValueTypeTag::Booly => "Booly",
        PropertyValueTypeTag::SockAddr => "SockAddr",
        PropertyValueTypeTag::IpAddr => "IpAddr",
        PropertyValueTypeTag::PortNumber => "PortNumber",
        PropertyValueTypeTag::Path => "Path",
        PropertyValueTypeTag::Uri => "Uri",
        PropertyValueTypeTag::Duration => "Duration",
        PropertyValueTypeTag::ChildNode => "ChildNode",
        PropertyValueTypeTag::BytesBuffer => "BytesBuffer",
    }
}

/// The Rust type that holds a property of the given value type; for an enum
/// type, the enum type's own text.
pub open spec fn proptype(t: PropertyValueTypeTag, enbt: Option<Seq<char>>) -> Seq<char> {
    match t {
        PropertyValueTypeTag::Stringy => "::std::string::String"@,
        PropertyValueTypeTag::Enummy => enbt.unwrap(),
        PropertyValueTypeTag::Numbery => "i64"@,
        PropertyValueTypeTag::Floaty => "f64"@,
        PropertyValueTypeTag::Booly => "bool"@,
        PropertyValueTypeTag::SockAddr => "::std::net::SocketAddr"@,
        PropertyValueTypeTag::IpAddr => "::std::net::IpAddr"@,
        PropertyValueTypeTag::PortNumber => "u16"@,
        PropertyValueTypeTag::Path => "::std::path::PathBuf"@,
        PropertyValueTypeTag::Uri => "::websocat_api::http::Uri"@,
        PropertyValueTypeTag::Duration => "::std::time::Duration"@,
        PropertyValueTypeTag::ChildNode => "::websocat_api::NodeId"@,
        PropertyValueTypeTag::BytesBuffer => "::websocat_api::bytes::Bytes"@,
    }
}

/// The Rust type for a property, as text.
pub fn proptype_text(t: PropertyValueTypeTag, enbt: &Option<String>) -> (r: String)
    requires
        t == PropertyValueTypeTag::Enummy ==> enbt is Some,
    ensures
        r@ == proptype(t, crate::model::opt_view(*enbt)),
{
    match t {
        PropertyValueTypeTag::Stringy => "::std::string::String".to_owned(),
        PropertyValueTypeTag::Enummy => match enbt {
            Some(e) => e.clone(),
            None => vstd::pervasive::unreached(),
        },
        PropertyValueTypeTag::Numbery => "i64".to_owned(),
        PropertyValueTypeTag::Floaty => "f64".to_owned(),
        PropertyValueTypeTag::Booly => "bool".to_owned(),
        PropertyValueTypeTag::SockAddr => "::std::net::SocketAddr".to_owned(),
        PropertyValueTypeTag::IpAddr => "::std::net::IpAddr".to_owned(),
        PropertyValueTypeTag::PortNumber => "u16".to_owned(),
        PropertyValueTypeTag::Path => "::std::path::PathBuf".to_owned(),
        PropertyValueTypeTag::Uri => "::websocat_api::http::Uri".to_owned(),
        PropertyValueTypeTag::Duration => "::std::time::Duration".to_owned(),
        PropertyValueTypeTag::ChildNode => "::websocat_api::NodeId".to_owned(),
        PropertyValueTypeTag::BytesBuffer => "::websocat_api::bytes::Bytes".to_owned(),
    }
}

/// A property whose value type is an enum names that enum.
pub open spec fn property_wf(p: PropertyView) -> bool {
    p.typ == PropertyValueTypeTag::Enummy ==> p.enumname is Some
}

/// The property is stored unwrapped in the node: it is required, or it has a default.
pub open spec fn stored_directly(p: PropertyView) -> bool {
    !p.optional || p.default is Some
}

} // verus!
