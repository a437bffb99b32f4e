//! Building the class description of a `#[derive(WebsocatNode)]` type from its
//! declaration, with every refusal of the derive as an error value.
use vstd::prelude::*;
use crate::model::{
    class_of, field_shape, inner_shape, opt_property_view, opt_view, properties_view, property_of,
    scan_attrs, scan_fields, header_ok, strings_view, resolved_type, field_step, AttrDecl, AttrToken, ClassData,
    ClassDecl, ClassInfo, ClassView, DeriveError, DeriveErrorView, FieldDecl, FieldShape, FieldTypeDecl,
    FieldsSoFar, GenericArgDecl, PathArgsDecl, PropertyInfo, PropertyValueTypeTag, PropertyView,
};
use crate::codegen_util::proptype;
use crate::text::{contains_str, str_eq, to_lowercase};

verus! {

pub(crate) fn clone_opt_string(o: &Option<String>) -> (r: Option<String>)
    ensures
        opt_view(r) == opt_view(*o),
{
    match o {
        Some(s) => Some(s.clone()),
        None => None,
    }
}

pub(crate) fn clone_strings(v: &Vec<String>) -> (r: Vec<String>)
    ensures
        strings_view(r@) == strings_view(v@),
{
    let mut r: Vec<String> = Vec::new();
    let mut i: usize = 0;
    while i < v.len()
        invariant
            i <= v@.len(),
            r@.len() == i,
            forall|k: int| 0 <= k < i ==> #[trigger] r@[k]@ == v@[k]@,
        decreases v@.len() - i,
    {
        r.push(v[i].clone());
        i += 1;
    }
    assert(strings_view(r@) =~= strings_view(v@));
    r
}

/// The property type a type name stands for (`None` for a name the derive does not know).
fn resolve_type(name: &String) -> (r: Option<PropertyValueTypeTag>)
    ensures
        r == resolved_type(name@),
{
    let n = name.as_str();
    if str_eq(n, "i64") {
        Some(PropertyValueTypeTag::Numbery)
    } else if str_eq(n, "f64") {
        Some(PropertyValueTypeTag::Floaty)
    } else if str_eq(n, "NodeId") {
        Some(PropertyValueTypeTag::ChildNode)
    } else if str_eq(n, "String") {
        Some(PropertyValueTypeTag::Stringy)
    } else if str_eq(n, "SocketAddr") {
        Some(PropertyValueTypeTag::SockAddr)
    } else if str_eq(n, "u16") {
        Some(PropertyValueTypeTag::PortNumber)
    } else if str_eq(n, "bool") {
        Some(PropertyValueTypeTag::Booly)
    } else if str_eq(n, "Bytes") {
        Some(PropertyValueTypeTag::BytesBuffer)
    } else if str_eq(n, "Uri") {
        Some(PropertyValueTypeTag::Uri)
    } else {
        None
    }
}

/// `s` ends with `suffix`.
pub open spec fn ends_with(s: Seq<char>, suffix: Seq<char>) -> bool {
    suffix.len() <= s.len() && s.subrange(s.len() - suffix.len(), s.len() as int) == suffix
}

/// A type name the derive knows stands for the value type whose Rust type it
/// names: the Rust type of the resulting property ends with that very name,
/// and it is never an enum. The known names are exactly the names of the nine
/// Rust types the derive maps to value types.
pub proof fn lemma_resolved_type_names_its_rust_type(name: Seq<char>)
    ensures
        resolved_type(name) matches Some(t) ==> t != PropertyValueTypeTag::Enummy && ends_with(
            proptype(t, None),
            name,
        ),
        name == "i64"@ || name == "f64"@ || name == "NodeId"@ || name == "String"@ || name == "SocketAddr"@
            || name == "u16"@ || name == "bool"@ || name == "Bytes"@ || name == "Uri"@ <==> resolved_type(
            name,
        ) is Some,
{
    reveal_strlit("i64");
    reveal_strlit("f64");
    reveal_strlit("NodeId");
    reveal_strlit("String");
    reveal_strlit("SocketAddr");
    reveal_strlit("u16");
    reveal_strlit("bool");
    reveal_strlit("Bytes");
    reveal_strlit("Uri");
    reveal_strlit("::std::string::String");
    reveal_strlit("::std::net::SocketAddr");
    reveal_strlit("::websocat_api::http::Uri");
    reveal_strlit("::websocat_api::NodeId");
    reveal_strlit("::websocat_api::bytes::Bytes");
    if let Some(t) = resolved_type(name) {
        let ty = proptype(t, None);
        assert(ty.subrange(ty.len() - name.len(), ty.len() as int) =~= name);
    }
}

fn inner_shape_of(args: &PathArgsDecl, is_enum: bool, in_vec: bool) -> (r: Result<
    (PropertyValueTypeTag, Option<String>),
    DeriveError,
>)
    ensures
        match inner_shape(*args, is_enum, in_vec) {
            Ok((t, e)) => r matches Ok((t2, e2)) && t2 == t && opt_view(e2) == e,
            Err(ev) => r matches Err(e) && e@ == ev,
        },
{
    match args {
        PathArgsDecl::AngleBracketed { last_arg } => match last_arg {
            Some(GenericArgDecl::TypePath { last_ident, text }) => {
                if is_enum {
                    Ok((PropertyValueTypeTag::Enummy, Some(text.clone())))
                } else {
                    match last_ident {
                        Some(n) => match resolve_type(n) {
                            Some(t) => Ok((t, None)),
                            None => Err(DeriveError::UnknownType(n.clone())),
                        },
                        None => Err(DeriveError::InnerLeafMissing),
                    }
                }
            },
            Some(GenericArgDecl::Other) => if in_vec {
                Err(DeriveError::VecInnerNotTypePath)
            } else {
                Err(DeriveError::OptionInnerNotTypePath)
            },
            None => if in_vec {
                Err(DeriveError::VecLeafMissing)
            } else {
                Err(DeriveError::OptionLeafMissing)
            },
        },
        _ => if in_vec {
            Err(DeriveError::VecArgsNotAngleBracketed)
        } else {
            Err(DeriveError::OptionArgsNotAngleBracketed)
        },
    }
}

/// The shape of a field's type: (value type, optional, enum type text, array).
fn shape_of(ty: &FieldTypeDecl, is_enum: bool, ident: &String) -> (r: Result<
    (PropertyValueTypeTag, bool, Option<String>, bool),
    DeriveError,
>)
    ensures
        match field_shape(*ty, is_enum, ident@) {
            Ok(s) => r matches Ok((t, o, e, v)) && t == s.typ && o == s.optional && opt_view(e)
                == s.enumname && v == s.vector,
            Err(ev) => r matches Err(e) && e@ == ev,
        },
{
    match ty {
        FieldTypeDecl::Other => Err(DeriveError::UnknownFieldType(ident.clone())),
        FieldTypeDecl::Path { text, last_segment } => match last_segment {
            None => Err(DeriveError::LeafTypeMissing),
            Some(seg) => {
                let n = seg.ident.as_str();
                if str_eq(n, "Result") {
                    Err(DeriveError::ResultNotSupported)
                } else if str_eq(n, "HashSet") {
                    Err(DeriveError::HashSetNotSupported)
                } else if str_eq(n, "Option") {
                    match inner_shape_of(&seg.args, is_enum, false) {
                        Ok((t, e)) => Ok((t, true, e, false)),
                        Err(err) => Err(err),
                    }
                } else if str_eq(n, "Vec") {
                    match inner_shape_of(&seg.args, is_enum, true) {
                        Ok((t, e)) => Ok((t, false, e, true)),
                        Err(err) => Err(err),
                    }
                } else if is_enum {
                    Ok((PropertyValueTypeTag::Enummy, false, Some(text.clone()), false))
                } else {
                    match resolve_type(&seg.ident) {
                        Some(t) => Ok((t, false, None, false)),
                        None => Err(DeriveError::UnknownType(seg.ident.clone())),
                    }
                }
            },
        },
    }
}

proof fn lemma_scan_attrs_err_sticks(s: Seq<AttrDecl>, i: int)
    requires
        0 <= i <= s.len(),
        scan_attrs(s.take(i)) is Err,
    ensures
        scan_attrs(s) == scan_attrs(s.take(i)),
    decreases s.len() - i,
{
    if s.len() == i {
        assert(s.take(i) =~= s);
    } else {
        assert(s.drop_last().take(i) =~= s.take(i));
        lemma_scan_attrs_err_sticks(s.drop_last(), i);
    }
}

proof fn lemma_scan_fields_err_sticks(s: Seq<FieldDecl>, i: int)
    requires
        0 <= i <= s.len(),
        scan_fields(s.take(i)) is Err,
    ensures
        scan_fields(s) == scan_fields(s.take(i)),
    decreases s.len() - i,
{
    if s.len() == i {
        assert(s.take(i) =~= s);
    } else {
        assert(s.drop_last().take(i) =~= s.take(i));
        lemma_scan_fields_err_sticks(s.drop_last(), i);
    }
}

/// Collects the help text and CLI option from a field's `doc` and `cli` attributes.
fn help_of(attrs: &Vec<AttrDecl>) -> (r: Result<(String, Option<String>), DeriveError>)
    ensures
        match scan_attrs(attrs@) {
            Ok((h, c)) => r matches Ok((h2, c2)) && h2@ == h && opt_view(c2) == c,
            Err(ev) => r matches Err(e) && e@ == ev,
        },
{
    let mut help = String::new();
    let mut cli: Option<String> = None;
    let mut i: usize = 0;
    while i < attrs.len()
        invariant
            i <= attrs@.len(),
            scan_attrs(attrs@.take(i as int)) == Ok::<(Seq<char>, Option<Seq<char>>), DeriveErrorView>(
                (help@, opt_view(cli)),
            ),
        decreases attrs@.len() - i,
    {
        let a = &attrs[i];
        assert(attrs@.take(i + 1).drop_last() =~= attrs@.take(i as int));
        let is_doc = str_eq(a.name.as_str(), "doc");
        let is_cli = str_eq(a.name.as_str(), "cli");
        if is_doc || is_cli {
            match &a.last_token {
                AttrToken::Str(v) => {
                    if is_doc {
                        if help.as_str().is_empty() {
                            help = v.clone();
                        } else {
                            help.append("\n");
                            help.append(v.as_str());
                        }
                    } else {
                        cli = Some(v.clone());
                    }
                },
                _ => {
                    proof {
                        lemma_scan_attrs_err_sticks(attrs@, i + 1);
                    }
                    return Err(DeriveError::AttrNotStringLiteral);
                },
            }
        }
        i += 1;
    }
    assert(attrs@.take(attrs@.len() as int) =~= attrs@);
    Ok((help, cli))
}

/// The spec state that the exec state of the field scan stands for.
pub open spec fn state_view(
    props: Seq<PropertyInfo>,
    array: Option<PropertyInfo>,
    ignored: Seq<String>,
    flattened: Seq<String>,
) -> FieldsSoFar {
    FieldsSoFar {
        properties: properties_view(props),
        array_type: opt_property_view(array),
        ignored_fields: strings_view(ignored),
        flattened_fields: strings_view(flattened),
    }
}

fn make_property(
    f: &FieldDecl,
    ident: &String,
    typ: PropertyValueTypeTag,
    enumname: Option<String>,
    optional: bool,
    help: String,
    cli: Option<String>,
) -> (p: PropertyInfo)
    ensures
        p@ == property_of(
            *f,
            ident@,
            FieldShape { typ, optional: p.optional, enumname: opt_view(enumname), vector: false },
            optional,
            help@,
            opt_view(cli),
        ),
{
    PropertyInfo {
        ident: ident.clone(),
        typ,
        enumname,
        optional,
        help,
        inject_cli_long_option: cli,
        strict_min: f.strict_min,
        strict_max: f.strict_max,
        reasonable_min: f.reasonable_min,
        reasonable_max: f.reasonable_max,
        default: clone_opt_string(&f.default),
    }
}

/// Adds one field to the class being built, as `field_step` says.
fn add_field(
    f: &FieldDecl,
    props: &mut Vec<PropertyInfo>,
    array: &mut Option<PropertyInfo>,
    ignored: &mut Vec<String>,
    flattened: &mut Vec<String>,
) -> (r: Result<(), DeriveError>)
    ensures
        match field_step(state_view(old(props)@, *old(array), old(ignored)@, old(flattened)@), *f) {
            Ok(st) => r is Ok && state_view(final(props)@, *final(array), final(ignored)@, final(flattened)@)
                == st,
            Err(ev) => r matches Err(e) && e@ == ev,
        },
{
    let ghost st0 = state_view(props@, *array, ignored@, flattened@);
    let ident = match &f.ident {
        None => return Err(DeriveError::UnnamedField),
        Some(id) => id,
    };
    if f.ignored {
        ignored.push(ident.clone());
        assert(strings_view(ignored@) =~= strings_view(old(ignored)@).push(ident@));
        return Ok(());
    }
    if f.flatten {
        flattened.push(ident.clone());
        assert(strings_view(flattened@) =~= strings_view(old(flattened)@).push(ident@));
        return Ok(());
    }
    let (typ, optional0, enumname, vector) = match shape_of(&f.ty, f.is_enum, ident) {
        Ok(s) => s,
        Err(e) => return Err(e),
    };
    let has_default = f.default.is_some();
    if has_default && optional0 {
        return Err(DeriveError::DefaultOnOption(ident.clone()));
    }
    let optional = optional0 || has_default;
    let (help, cli) = match help_of(&f.attrs) {
        Ok(hc) => hc,
        Err(e) => return Err(e),
    };
    if help.as_str().is_empty() {
        return Err(DeriveError::Undocumented(ident.clone()));
    }
    if vector {
        if array.is_some() {
            return Err(DeriveError::MultipleArrays);
        }
        if optional {
            return Err(DeriveError::VecWithDefault);
        }
        let p = make_property(f, ident, typ, enumname, false, help, None);
        *array = Some(p);
        return Ok(());
    }
    if typ == PropertyValueTypeTag::PortNumber {
        let lower = to_lowercase(ident.as_str());
        if !contains_str(lower.as_str(), "port") {
            return Err(DeriveError::PortNumberNotNamedPort);
        }
    }
    let p = make_property(f, ident, typ, enumname, optional, help, cli);
    props.push(p);
    assert(properties_view(props@) =~= properties_view(old(props)@).push(p@));
    Ok(())
}

/// How many fields the scan has placed somewhere.
pub open spec fn placed_count(st: FieldsSoFar) -> int {
    st.properties.len() + (if st.array_type is Some { 1int } else { 0int }) + st.ignored_fields.len()
        + st.flattened_fields.len()
}

proof fn lemma_scan_places_every_field(fields: Seq<FieldDecl>)
    ensures
        scan_fields(fields) matches Ok(st) ==> placed_count(st) == fields.len(),
    decreases fields.len(),
{
    if fields.len() > 0 {
        lemma_scan_places_every_field(fields.drop_last());
    }
}

/// Every field of an accepted struct is accounted for exactly once: as a
/// property, as the node's array, as an ignored field, or as a flattened field.
pub proof fn lemma_fields_accounted(d: ClassDecl)
    ensures
        class_of(d) matches Ok(cv) ==> d.data matches ClassData::Struct(fields) && cv.properties.len() + (
        if cv.array_type is Some {
            1int
        } else {
            0int
        }) + cv.ignored_fields.len() + cv.flattened_fields.len() == fields@.len(),
{
    if let ClassData::Struct(fields) = d.data {
        lemma_scan_places_every_field(fields@);
    }
}

impl ClassInfo {
    /// The class description of a declaration, or the first reason the derive
    /// refuses it (the refusals come in the order the derive checks them).
    pub fn try_parse(x: &ClassDecl) -> (r: Result<ClassInfo, DeriveError>)
        ensures
            match class_of(*x) {
                Ok(cv) => r matches Ok(ci) && ci@ == cv,
                Err(ev) => r matches Err(e) && e@ == ev,
            },
    {
        let has_name = x.official_name.is_some();
        if has_name == x.no_class {
            return Err(DeriveError::OfficialNameXorNoClass);
        }
        let fields = match &x.data {
            ClassData::Enum => return Err(DeriveError::EnumsNotSupported),
            ClassData::Struct(fields) => fields,
        };
        let mut properties: Vec<PropertyInfo> = Vec::new();
        let mut array_type: Option<PropertyInfo> = None;
        let mut ignored_fields: Vec<String> = Vec::new();
        let mut flattened_fields: Vec<String> = Vec::new();
        let mut i: usize = 0;
        proof {
            assert(strings_view(ignored_fields@) =~= Seq::<Seq<char>>::empty());
            assert(properties_view(properties@) =~= Seq::<PropertyView>::empty());
            assert(fields@.take(0) =~= Seq::<FieldDecl>::empty());
        }
        while i < fields.len()
            invariant
                i <= fields@.len(),
                x.data == ClassData::Struct(*fields),
                header_ok(*x),
                scan_fields(fields@.take(i as int)) == Ok::<FieldsSoFar, DeriveErrorView>(
                    state_view(properties@, array_type, ignored_fields@, flattened_fields@),
                ),
            decreases fields@.len() - i,
        {
            assert(fields@.take(i + 1).drop_last() =~= fields@.take(i as int));
            assert(fields@.take(i + 1).last() == fields@[i as int]);
            let ghost st = state_view(properties@, array_type, ignored_fields@, flattened_fields@);
            match add_field(
                &fields[i],
                &mut properties,
                &mut array_type,
                &mut ignored_fields,
                &mut flattened_fields,
            ) {
                Ok(()) => {},
                Err(e) => {
                    proof {
                        assert(scan_fields(fields@.take(i + 1)) == field_step(st, fields@[i as int]));
                        assert(scan_fields(fields@.take(i + 1)) == Err::<FieldsSoFar, DeriveErrorView>(e@));
                        lemma_scan_fields_err_sticks(fields@, i + 1);
                        assert(x.data == ClassData::Struct(*fields));
                    }
                    return Err(e);
                },
            }
            i += 1;
        }
        assert(fields@.take(fields@.len() as int) =~= fields@);
        Ok(
            ClassInfo {
                name: x.ident.clone(),
                properties,
                ignored_fields,
                array_type,
                prefixes: clone_strings(&x.prefixes),
                official_name: clone_opt_string(&x.official_name),
                debug_derive: x.debug_derive,
                validate: x.validate,
                data_only: x.data_only,
                flattened_fields,
            },
        )
    }

    /// The class description of a declaration that the derive accepts.
    pub fn parse(x: &ClassDecl) -> (r: ClassInfo)
        requires
            class_of(*x) is Ok,
        ensures
            class_of(*x) == Ok::<ClassView, DeriveErrorView>(r@),
    {
        match ClassInfo::try_parse(x) {
            Ok(ci) => ci,
            Err(_) => vstd::pervasive::unreached(),
        }
    }
}

} // verus!
