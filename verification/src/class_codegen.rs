//! The `NodeClass` impl that `#[derive(WebsocatNode)]` emits for classes with
//! an official name, and the whole derive: declaration in, Rust code out.
use vstd::prelude::*;
use crate::builder_codegen::builder_impl_code;
use crate::codegen_util::{
    concat_map, lemma_concat_map_all, lemma_concat_map_step, property_wf, tag_ident, tag_ident_str,
};
use crate::model::{
    class_of, field_shape, properties_view, resolved_type, scan_fields, strings_view, ClassData, ClassDecl,
    ClassInfo, ClassView, FieldDecl, FieldTypeDecl, PropertyInfo, PropertyValueTypeTag, PropertyView,
};
use crate::node_codegen::{builder_struct_code, class_wf, data_node_code};
use crate::text::{debug_str_literal, str_literal};

verus! {

/// `Some("...".to_owned())` for a CLI long option, `None` otherwise.
pub open spec fn cli_option_code(o: Option<Seq<char>>) -> Seq<char> {
    match o {
        Some(x) => "::std::option::Option::Some("@ + debug_str_literal(x) + ".to_owned())"@,
        None => "::std::option::Option::None"@,
    }
}

/// The `PropertyValueType` of a property.
pub open spec fn value_type_code(p: PropertyView) -> Seq<char> {
    if p.typ != PropertyValueTypeTag::Enummy {
        "websocat_api::PropertyValueType::"@ + tag_ident(p.typ)
    } else {
        "websocat_api::PropertyValueType::Enummy(<"@ + p.enumname.unwrap()
            + " as ::websocat_api::Enum>::interner())"@
    }
}

/// The `PropertyInfo` entry of a property in `properties()`.
pub open spec fn property_info_code(p: PropertyView) -> Seq<char> {
    "::websocat_api::PropertyInfo {\nname: "@ + debug_str_literal(p.ident) + ".to_owned(),\nr#type: "@
        + value_type_code(p) + ",\nhelp: ::std::boxed::Box::new(||"@ + debug_str_literal(p.help)
        + ".to_owned()),\ninject_cli_long_option: "@ + cli_option_code(p.inject_cli_long_option)
        + ",\n},\n"@
}

/// The body of `array_type()`.
pub open spec fn array_type_code(a: Option<PropertyView>) -> Seq<char> {
    match a {
        Some(p) => "Some("@ + value_type_code(p) + ")"@,
        None => "None"@,
    }
}

/// The body of `array_help()`.
pub open spec fn array_help_code(a: Option<PropertyView>) -> Seq<char> {
    match a {
        Some(p) => "Some("@ + debug_str_literal(p.help) + ".to_owned())"@,
        None => "None"@,
    }
}

/// An element of `prefixes()`.
pub open spec fn prefix_code(pr: Seq<char>) -> Seq<char> {
    debug_str_literal(pr) + ".to_owned(),\n"@
}

/// The `{Name}Class` unit struct, its `NodeClass` impl, and the
/// `GetClassOfNode` impl that ties the node type to it.
pub open spec fn node_class_code(ci: ClassView) -> Seq<char> {
    "#[derive(Default,Debug)]\npub struct "@ + ci.name + "Class;\nimpl ::websocat_api::NodeClass for "@
        + ci.name
        + "Class {\nfn official_name(&self) -> ::std::string::String { "@
        + debug_str_literal(ci.official_name.unwrap())
        + ".to_owned() }\nfn prefixes(&self) -> ::std::vec::Vec<::std::string::String> { vec![\n"@
        + concat_map(ci.prefixes, |pr: Seq<char>| prefix_code(pr))
        + "] }\nfn properties(&self) -> ::std::vec::Vec<::websocat_api::PropertyInfo> {\nvec![\n"@
        + concat_map(ci.properties, |p: PropertyView| property_info_code(p))
        + "]\n}\nfn array_type(&self) -> ::std::option::Option<::websocat_api::PropertyValueType> {\n"@
        + array_type_code(ci.array_type)
        + "\n}\nfn array_help(&self) -> ::std::option::Option<::std::string::String> {\n"@
        + array_help_code(ci.array_type)
        + "\n}\nfn new_node(&self) -> ::websocat_api::DNodeInProgressOfParsing {\n::std::boxed::Box::new("@
        + ci.name
        + "Builder::default())\n}\nfn run_lints(&self, nodeid: ::websocat_api::NodeId, placement: ::websocat_api::NodePlacement, context: &::websocat_api::Session) -> ::websocat_api::Result<::std::vec::Vec<::std::string::String>> {\nOk(vec![])\n}\n}\nimpl ::websocat_api::GetClassOfNode for "@
        + ci.name + " {\ntype Class = "@ + ci.name + "Class;\n}\n"@
}

/// Everything the derive emits for a class: the `DataNode` impl, the builder
/// and its impl, and, for classes with an official name, the `NodeClass`.
pub open spec fn node_code(ci: ClassView) -> Seq<char> {
    data_node_code(ci) + builder_struct_code(ci) + builder_impl_code(ci) + if ci.official_name is Some {
        node_class_code(ci)
    } else {
        Seq::empty()
    }
}

fn cli_option_text(o: &Option<String>) -> (r: String)
    ensures
        r@ == cli_option_code(crate::model::opt_view(*o)),
{
    match o {
        Some(x) => {
            let mut s = "::std::option::Option::Some(".to_owned();
            let lit = str_literal(x.as_str());
            s.append(lit.as_str());
            s.append(".to_owned())");
            s
        },
        None => "::std::option::Option::None".to_owned(),
    }
}

fn value_type_text(p: &PropertyInfo) -> (r: String)
    requires
        property_wf(p@),
    ensures
        r@ == value_type_code(p@),
{
    if p.typ != PropertyValueTypeTag::Enummy {
        let mut s = "websocat_api::PropertyValueType::".to_owned();
        s.append(tag_ident_str(p.typ));
        s
    } else {
        let mut s = "websocat_api::PropertyValueType::Enummy(<".to_owned();
        match &p.enumname {
            Some(e) => s.append(e.as_str()),
            None => vstd::pervasive::unreached(),
        }
        s.append(" as ::websocat_api::Enum>::interner())");
        s
    }
}

fn property_info_text(p: &PropertyInfo) -> (r: String)
    requires
        property_wf(p@),
    ensures
        r@ == property_info_code(p@),
{
    let mut s = "::websocat_api::PropertyInfo {\nname: ".to_owned();
    let name_lit = str_literal(p.ident.as_str());
    s.append(name_lit.as_str());
    s.append(".to_owned(),\nr#type: ");
    let vt = value_type_text(p);
    s.append(vt.as_str());
    s.append(",\nhelp: ::std::boxed::Box::new(||");
    let help_lit = str_literal(p.help.as_str());
    s.append(help_lit.as_str());
    s.append(".to_owned()),\ninject_cli_long_option: ");
    let iclo = cli_option_text(&p.inject_cli_long_option);
    s.append(iclo.as_str());
    s.append(",\n},\n");
    s
}

fn property_infos_text(props: &Vec<PropertyInfo>) -> (r: String)
    requires
        forall|i: int| 0 <= i < props@.len() ==> property_wf(#[trigger] props@[i]@),
    ensures
        r@ == concat_map(properties_view(props@), |p: PropertyView| property_info_code(p)),
{
    let ghost pv = properties_view(props@);
    let ghost f = |p: PropertyView| property_info_code(p);
    let mut s = String::new();
    let mut i: usize = 0;
    while i < props.len()
        invariant
            i <= props@.len(),
            forall|i: int| 0 <= i < props@.len() ==> property_wf(#[trigger] props@[i]@),
            pv == properties_view(props@),
            f == (|p: PropertyView| property_info_code(p)),
            s@ == concat_map(pv.take(i as int), f),
        decreases props@.len() - i,
    {
        assert(property_wf(props@[i as int]@));
        let piece = property_info_text(&props[i]);
        proof {
            lemma_concat_map_step(pv, f, i as int);
        }
        s.append(piece.as_str());
        i += 1;
    }
    proof {
        lemma_concat_map_all(pv, f);
    }
    s
}

fn prefixes_text(prefixes: &Vec<String>) -> (r: String)
    ensures
        r@ == concat_map(strings_view(prefixes@), |pr: Seq<char>| prefix_code(pr)),
{
    let ghost sv = strings_view(prefixes@);
    let ghost f = |pr: Seq<char>| prefix_code(pr);
    let mut s = String::new();
    let mut i: usize = 0;
    while i < prefixes.len()
        invariant
            i <= prefixes@.len(),
            sv == strings_view(prefixes@),
            f == (|pr: Seq<char>| prefix_code(pr)),
            s@ == concat_map(sv.take(i as int), f),
        decreases prefixes@.len() - i,
    {
        let mut piece = str_literal(prefixes[i].as_str());
        piece.append(".to_owned(),\n");
        proof {
            lemma_concat_map_step(sv, f, i as int);
        }
        s.append(piece.as_str());
        i += 1;
    }
    proof {
        lemma_concat_map_all(sv, f);
    }
    s
}

impl ClassInfo {
    /// The `NodeClass` impl of a class with an official name.
    #[allow(non_snake_case)]
    pub fn generate_NodeClass(&self) -> (r: String)
        requires
            class_wf(self@),
            self.official_name is Some,
        ensures
            r@ == node_class_code(self@),
    {
        proof {
            assert forall|i: int| 0 <= i < self.properties@.len() implies property_wf(
                #[trigger] self.properties@[i]@,
            ) by {
                assert(self@.properties[i] == self.properties@[i]@);
            }
        }
        let offiname = match &self.official_name {
            Some(n) => n,
            None => vstd::pervasive::unreached(),
        };
        let mut s = "#[derive(Default,Debug)]\npub struct ".to_owned();
        s.append(self.name.as_str());
        s.append("Class;\nimpl ::websocat_api::NodeClass for ");
        s.append(self.name.as_str());
        s.append("Class {\nfn official_name(&self) -> ::std::string::String { ");
        let off_lit = str_literal(offiname.as_str());
        s.append(off_lit.as_str());
        s.append(".to_owned() }\nfn prefixes(&self) -> ::std::vec::Vec<::std::string::String> { vec![\n");
        let prefixes = prefixes_text(&self.prefixes);
        s.append(prefixes.as_str());
        s.append("] }\nfn properties(&self) -> ::std::vec::Vec<::websocat_api::PropertyInfo> {\nvec![\n");
        let infos = property_infos_text(&self.properties);
        s.append(infos.as_str());
        s.append("]\n}\nfn array_type(&self) -> ::std::option::Option<::websocat_api::PropertyValueType> {\n");
        let (at, ah) = match &self.array_type {
            Some(p) => {
                let mut at = "Some(".to_owned();
                let vt = value_type_text(p);
                at.append(vt.as_str());
                at.append(")");
                let mut ah = "Some(".to_owned();
                let help_lit = str_literal(p.help.as_str());
                ah.append(help_lit.as_str());
                ah.append(".to_owned())");
                (at, ah)
            },
            None => ("None".to_owned(), "None".to_owned()),
        };
        s.append(at.as_str());
        s.append("\n}\nfn array_help(&self) -> ::std::option::Option<::std::string::String> {\n");
        s.append(ah.as_str());
        s.append(
            "\n}\nfn new_node(&self) -> ::websocat_api::DNodeInProgressOfParsing {\n::std::boxed::Box::new(",
        );
        s.append(self.name.as_str());
        s.append(
            "Builder::default())\n}\nfn run_lints(&self, nodeid: ::websocat_api::NodeId, placement: ::websocat_api::NodePlacement, context: &::websocat_api::Session) -> ::websocat_api::Result<::std::vec::Vec<::std::string::String>> {\nOk(vec![])\n}\n}\nimpl ::websocat_api::GetClassOfNode for ",
        );
        s.append(self.name.as_str());
        s.append(" {\ntype Class = ");
        s.append(self.name.as_str());
        s.append("Class;\n}\n");
        s
    }

    /// All the code the derive emits for this class.
    pub fn generate_all(&self) -> (r: String)
        requires
            class_wf(self@),
        ensures
            r@ == node_code(self@),
    {
        let mut code = self.generate_DataNode();
        let b = self.generate_builder();
        code.append(b.as_str());
        let n = self.generate_NodeInProgressOfParsing();
        code.append(n.as_str());
        if self.official_name.is_some() {
            let c = self.generate_NodeClass();
            code.append(c.as_str());
        } else {
            assert(code@ + Seq::<char>::empty() =~= code@);
        }
        code
    }
}

/// A field type that the derive accepts never gives an enum-valued property
/// without its enum type, nor names an enum type for another value type.
pub proof fn lemma_field_shape_enum(ty: FieldTypeDecl, is_enum: bool, ident: Seq<char>)
    ensures
        field_shape(ty, is_enum, ident) matches Ok(s) ==> (s.typ == PropertyValueTypeTag::Enummy
            <==> s.enumname is Some),
{
    assert forall|n: Seq<char>| #[trigger] resolved_type(n) is Some implies resolved_type(n)->0
        != PropertyValueTypeTag::Enummy by {}
}

/// Scanning the fields only ever records well-formed properties.
proof fn lemma_scan_fields_wf(fields: Seq<FieldDecl>)
    ensures
        scan_fields(fields) matches Ok(st) ==> {
            &&& forall|i: int| 0 <= i < st.properties.len() ==> property_wf(#[trigger] st.properties[i])
            &&& (st.array_type matches Some(a) ==> property_wf(a))
        },
    decreases fields.len(),
{
    if fields.len() > 0 {
        lemma_scan_fields_wf(fields.drop_last());
        let f = fields.last();
        if let Some(id) = f.ident {
            lemma_field_shape_enum(f.ty, f.is_enum, id@);
        }
    }
}

/// Every class description that the derive builds from a declaration is
/// well-formed: enum-valued properties, and an enum-valued array, carry the
/// enum type they convert through.
pub proof fn lemma_parsed_class_wf(d: ClassDecl)
    ensures
        class_of(d) matches Ok(cv) ==> class_wf(cv),
{
    if let ClassData::Struct(fields) = d.data {
        lemma_scan_fields_wf(fields@);
    }
}

/// The whole `#[derive(WebsocatNode)]`: the class description of an accepted
/// declaration, rendered as the impls listed in `node_code`.
pub fn derive_websocat_node(input: &ClassDecl) -> (r: String)
    requires
        class_of(*input) is Ok,
    ensures
        class_of(*input) matches Ok(cv) && r@ == node_code(cv),
{
    let ci = ClassInfo::parse(input);
    proof {
        lemma_parsed_class_wf(*input);
    }
    ci.generate_all()
}

/// The derive on any declaration: its code, or the first reason it is refused.
pub fn try_derive_websocat_node(input: &ClassDecl) -> (r: Result<String, crate::model::DeriveError>)
    ensures
        match class_of(*input) {
            Ok(cv) => r matches Ok(code) && code@ == node_code(cv),
            Err(ev) => r matches Err(e) && e@ == ev,
        },
{
    match ClassInfo::try_parse(input) {
        Ok(ci) => {
            proof {
                lemma_parsed_class_wf(*input);
            }
            Ok(ci.generate_all())
        },
        Err(e) => Err(e),
    }
}

} // verus!
