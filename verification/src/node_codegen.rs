//! The Rust code that `#[derive(WebsocatNode)]` emits for a class: the
//! `DataNode` impl, the builder struct, its `NodeInProgressOfParsing` impl and
//! the `NodeClass` impl. Each generator's result is stated as the text of the
//! code it emits.
use vstd::prelude::*;
use crate::codegen_util::{
    concat_map, lemma_concat_map_all, lemma_concat_map_step, property_wf, proptype, proptype_text,
    stored_directly, tag_ident, tag_ident_str,
};
use crate::model::{ClassInfo, ClassView, PropertyInfo, PropertyValueTypeTag, PropertyView};
use crate::text::{contains_sub, debug_str_literal, str_literal};

verus! {

/// Every property of the class, and its array, names its enum type when enum-valued.
pub open spec fn class_wf(ci: ClassView) -> bool {
    &&& forall|i: int| 0 <= i < ci.properties.len() ==> property_wf(#[trigger] ci.properties[i])
    &&& (ci.array_type matches Some(a) ==> property_wf(a))
}

// ---------------------------------------------------------------- DataNode

/// The `get_property` match arm for a property.
pub open spec fn accessor_code(p: PropertyView) -> Seq<char> {
    let qn = debug_str_literal(p.ident);
    if p.typ != PropertyValueTypeTag::Enummy {
        if stored_directly(p) {
            qn + " => Some(::websocat_api::PropertyValue::"@ + tag_ident(p.typ) + "(self."@ + p.ident
                + ".clone())),\n"@
        } else {
            qn + " => self."@ + p.ident + ".clone().map(::websocat_api::PropertyValue::"@ + tag_ident(
                p.typ,
            ) + "),\n"@
        }
    } else {
        if stored_directly(p) {
            qn + " => Some(::websocat_api::PropertyValue::Enummy(::websocat_api::Enum::variant_to_index(&self."@
                + p.ident + "))),\n"@
        } else {
            qn + " => self."@ + p.ident
                + ".as_ref().map(::websocat_api::Enum::variant_to_index).map(::websocat_api::PropertyValue::Enummy),\n"@
        }
    }
}

/// The body of `get_array`.
pub open spec fn array_accessor_code(a: Option<PropertyView>) -> Seq<char> {
    match a {
        Some(p) => if p.typ == PropertyValueTypeTag::Enummy {
            "self."@ + p.ident
                + ".iter().map(|x| ::websocat_api::PropertyValue::Enummy(::websocat_api::Enum::variant_to_index(x))).collect()"@
        } else {
            "self."@ + p.ident + ".iter().map(|x| ::websocat_api::PropertyValue::"@ + tag_ident(p.typ)
                + "(x.clone())).collect()"@
        },
        None => "vec![]"@,
    }
}

/// The body of `upgrade`: data-only nodes refuse to become runnable.
pub open spec fn upgrade_code(data_only: bool) -> Seq<char> {
    if data_only {
        "::std::result::Result::Err(::websocat_api::PurelyDataNodeError)"@
    } else {
        "::std::result::Result::Ok(self)"@
    }
}

/// The `DataNode` impl for the class.
pub open spec fn data_node_code(ci: ClassView) -> Seq<char> {
    "impl ::websocat_api::DataNode for "@ + ci.name + " {\nfn class(&self) -> ::websocat_api::DNodeClass { Box::new("@
        + ci.name
        + "Class) }\nfn get_property(&self, name: &str) -> ::std::option::Option<::websocat_api::PropertyValue> {\nmatch name {\n"@
        + concat_map(ci.properties, |p: PropertyView| accessor_code(p))
        + "_ => None,\n}\n}\nfn get_array(&self) -> ::std::vec::Vec<::websocat_api::PropertyValue> {\n"@
        + array_accessor_code(ci.array_type)
        + "\n}\nfn deep_clone(&self) -> ::websocat_api::DDataNode { ::std::sync::Arc::pin(::std::clone::Clone::clone(self)) }\nfn upgrade(self: ::std::pin::Pin<::std::sync::Arc<Self>>) -> std::result::Result<::websocat_api::DRunnableNode, ::websocat_api::PurelyDataNodeError> {\n"@
        + upgrade_code(ci.data_only) + "\n}\n}\n"@
}

fn accessor_text(p: &PropertyInfo) -> (r: String)
    ensures
        r@ == accessor_code(p@),
{
    let mut s = str_literal(p.ident.as_str());
    let direct = !p.optional || p.default.is_some();
    if p.typ != PropertyValueTypeTag::Enummy {
        let typ = tag_ident_str(p.typ);
        if direct {
            s.append(" => Some(::websocat_api::PropertyValue::");
            s.append(typ);
            s.append("(self.");
            s.append(p.ident.as_str());
            s.append(".clone())),\n");
        } else {
            s.append(" => self.");
            s.append(p.ident.as_str());
            s.append(".clone().map(::websocat_api::PropertyValue::");
            s.append(typ);
            s.append("),\n");
        }
    } else {
        if direct {
            s.append(
                " => Some(::websocat_api::PropertyValue::Enummy(::websocat_api::Enum::variant_to_index(&self.",
            );
            s.append(p.ident.as_str());
            s.append("))),\n");
        } else {
            s.append(" => self.");
            s.append(p.ident.as_str());
            s.append(
                ".as_ref().map(::websocat_api::Enum::variant_to_index).map(::websocat_api::PropertyValue::Enummy),\n",
            );
        }
    }
    s
}

fn array_accessor_text(a: &Option<PropertyInfo>) -> (r: String)
    ensures
        r@ == array_accessor_code(crate::model::opt_property_view(*a)),
{
    match a {
        Some(p) => {
            let mut s = "self.".to_owned();
            s.append(p.ident.as_str());
            if p.typ == PropertyValueTypeTag::Enummy {
                s.append(
                    ".iter().map(|x| ::websocat_api::PropertyValue::Enummy(::websocat_api::Enum::variant_to_index(x))).collect()",
                );
            } else {
                s.append(".iter().map(|x| ::websocat_api::PropertyValue::");
                s.append(tag_ident_str(p.typ));
                s.append("(x.clone())).collect()");
            }
            s
        },
        None => "vec![]".to_owned(),
    }
}

/// Appends `f(p)` for every property, in order.
fn accessors_text(props: &Vec<PropertyInfo>) -> (r: String)
    ensures
        r@ == concat_map(crate::model::properties_view(props@), |p: PropertyView| accessor_code(p)),
{
    let ghost pv = crate::model::properties_view(props@);
    let ghost f = |p: PropertyView| accessor_code(p);
    let mut s = String::new();
    let mut i: usize = 0;
    while i < props.len()
        invariant
            i <= props@.len(),
            pv == crate::model::properties_view(props@),
            f == (|p: PropertyView| accessor_code(p)),
            s@ == concat_map(pv.take(i as int), f),
        decreases props@.len() - i,
    {
        let piece = accessor_text(&props[i]);
        proof {
            lemma_concat_map_step(pv, f, i as int);
        }
        s.append(piece.as_str());
        i += 1;
    }
    proof {
        lemma_concat_map_all(pv, f);
    }
    s
}

fn upgrade_text(data_only: bool) -> (r: &'static str)
    ensures
        r@ == upgrade_code(data_only),
{
    if data_only {
        "::std::result::Result::Err(::websocat_api::PurelyDataNodeError)"
    } else {
        "::std::result::Result::Ok(self)"
    }
}

// ---------------------------------------------------------------- builder struct

/// The builder field for a property: every property starts out unset.
pub open spec fn builder_field_code(p: PropertyView) -> Seq<char> {
    p.ident + ": ::std::option::Option<"@ + proptype(p.typ, p.enumname) + ">,\n"@
}

/// The builder field for the array, if the class has one.
pub open spec fn builder_array_field_code(a: Option<PropertyView>) -> Seq<char> {
    match a {
        Some(p) => p.ident + ": ::std::vec::Vec<"@ + proptype(p.typ, p.enumname) + ">,\n"@,
        None => Seq::empty(),
    }
}

/// The `{Name}Builder` struct that collects property values while a node is parsed.
pub open spec fn builder_struct_code(ci: ClassView) -> Seq<char> {
    "#[derive(Default)]\nstruct "@ + ci.name + "Builder {\n"@ + concat_map(
        ci.properties,
        |p: PropertyView| builder_field_code(p),
    ) + builder_array_field_code(ci.array_type) + "}\n"@
}

fn builder_fields_text(props: &Vec<PropertyInfo>) -> (r: String)
    requires
        forall|i: int| 0 <= i < props@.len() ==> property_wf(#[trigger] props@[i]@),
    ensures
        r@ == concat_map(crate::model::properties_view(props@), |p: PropertyView| builder_field_code(p)),
{
    let ghost pv = crate::model::properties_view(props@);
    let ghost f = |p: PropertyView| builder_field_code(p);
    let mut s = String::new();
    let mut i: usize = 0;
    while i < props.len()
        invariant
            i <= props@.len(),
            forall|i: int| 0 <= i < props@.len() ==> property_wf(#[trigger] props@[i]@),
            pv == crate::model::properties_view(props@),
            f == (|p: PropertyView| builder_field_code(p)),
            s@ == concat_map(pv.take(i as int), f),
        decreases props@.len() - i,
    {
        let p = &props[i];
        assert(property_wf(props@[i as int]@));
        let mut piece = p.ident.clone();
        piece.append(": ::std::option::Option<");
        let t = proptype_text(p.typ, &p.enumname);
        piece.append(t.as_str());
        piece.append(">,\n");
        proof {
            lemma_concat_map_step(pv, f, i as int);
        }
        s.append(piece.as_str());
        i += 1;
    }
    proof {
        lemma_concat_map_all(pv, f);
    }
    s
}

impl ClassInfo {
    /// The `DataNode` impl: property getters by name, the array getter, deep
    /// cloning, and the upgrade to a runnable node.
    #[allow(non_snake_case)]
    pub fn generate_DataNode(&self) -> (r: String)
        ensures
            r@ == data_node_code(self@),
    {
        let mut s = "impl ::websocat_api::DataNode for ".to_owned();
        s.append(self.name.as_str());
        s.append(" {\nfn class(&self) -> ::websocat_api::DNodeClass { Box::new(");
        s.append(self.name.as_str());
        s.append(
            "Class) }\nfn get_property(&self, name: &str) -> ::std::option::Option<::websocat_api::PropertyValue> {\nmatch name {\n",
        );
        let acc = accessors_text(&self.properties);
        s.append(acc.as_str());
        s.append("_ => None,\n}\n}\nfn get_array(&self) -> ::std::vec::Vec<::websocat_api::PropertyValue> {\n");
        let arr = array_accessor_text(&self.array_type);
        s.append(arr.as_str());
        s.append(
            "\n}\nfn deep_clone(&self) -> ::websocat_api::DDataNode { ::std::sync::Arc::pin(::std::clone::Clone::clone(self)) }\nfn upgrade(self: ::std::pin::Pin<::std::sync::Arc<Self>>) -> std::result::Result<::websocat_api::DRunnableNode, ::websocat_api::PurelyDataNodeError> {\n",
        );
        s.append(upgrade_text(self.data_only));
        s.append("\n}\n}\n");
        s
    }

    /// The builder struct: one optional slot per property and a vector for the array.
    pub fn generate_builder(&self) -> (r: String)
        requires
            class_wf(self@),
        ensures
            r@ == builder_struct_code(self@),
    {
        let mut s = "#[derive(Default)]\nstruct ".to_owned();
        s.append(self.name.as_str());
        s.append("Builder {\n");
        proof {
            assert forall|i: int| 0 <= i < self.properties@.len() implies property_wf(
                #[trigger] self.properties@[i]@,
            ) by {
                assert(self@.properties[i] == self.properties@[i]@);
            }
        }
        let fields = builder_fields_text(&self.properties);
        s.append(fields.as_str());
        match &self.array_type {
            Some(a) => {
                s.append(a.ident.as_str());
                s.append(": ::std::vec::Vec<");
                let t = proptype_text(a.typ, &a.enumname);
                s.append(t.as_str());
                s.append(">,\n");
            },
            None => {
                assert(s@ + Seq::<char>::empty() =~= s@);
            },
        }
        s.append("}\n");
        s
    }
}

/// `get_array` reads the class's array field, whatever its element type: for
/// a class with an array property `p`, the body iterates over `self.<p>`,
/// turns each element into a `PropertyValue` and collects them; a non-enum
/// element becomes the `PropertyValue` variant of its value type, holding a
/// clone of the element. The empty `vec![]` is the body exactly when the class
/// has no array.
pub proof fn lemma_get_array_reads_the_array(a: Option<PropertyView>)
    ensures
        a matches Some(p) ==> ({
            let code = array_accessor_code(a);
            let head = "self."@ + p.ident + ".iter().map(|x| ::websocat_api::PropertyValue::"@;
            let tail = ".collect()"@;
            &&& head.len() + tail.len() <= code.len()
            &&& code.subrange(0, head.len() as int) == head
            &&& code.subrange(code.len() - tail.len(), code.len() as int) == tail
            &&& p.typ != PropertyValueTypeTag::Enummy ==> contains_sub(
                code,
                "::websocat_api::PropertyValue::"@ + tag_ident(p.typ) + "(x.clone())"@,
            )
        }),
        array_accessor_code(a) == "vec![]"@ <==> a is None,
{
    reveal_strlit("self.");
    reveal_strlit("vec![]");
    reveal_strlit(".collect()");
    reveal_strlit(".iter().map(|x| ::websocat_api::PropertyValue::");
    reveal_strlit(
        ".iter().map(|x| ::websocat_api::PropertyValue::Enummy(::websocat_api::Enum::variant_to_index(x))).collect()",
    );
    reveal_strlit("(x.clone())).collect()");
    reveal_strlit("::websocat_api::PropertyValue::");
    reveal_strlit("(x.clone())");
    if let Some(p) = a {
        let code = array_accessor_code(a);
        let head = "self."@ + p.ident + ".iter().map(|x| ::websocat_api::PropertyValue::"@;
        let tail = ".collect()"@;
        assert(code[0] == 's');
        assert(code.subrange(0, head.len() as int) =~= head);
        assert(code.subrange(code.len() - tail.len(), code.len() as int) =~= tail);
        if p.typ != PropertyValueTypeTag::Enummy {
            let pat = "::websocat_api::PropertyValue::"@ + tag_ident(p.typ) + "(x.clone())"@;
            let at: int = 5 + p.ident.len() as int + 16;
            assert(code.subrange(at, at + pat.len()) =~= pat);
        }
    }
}

} // verus!
