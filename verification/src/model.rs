//! The declaration model that the derives work from, and the property model
//! they build. A declaration holds, as plain values, what the derive reads from
//! the annotated type: field names, the shape of each field's type, the
//! `#[websocat_prop(..)]` settings and the `doc` / `cli` attributes.
use vstd::prelude::*;

verus! {

/// The kind of value a node property holds.
#[derive(Clone, Copy, Debug, PartialEq, Eq, Structural)]
pub enum PropertyValueTypeTag {
    Stringy,
    Enummy,
    Numbery,
    Floaty,
    Booly,
    SockAddr,
    IpAddr,
    PortNumber,
    Path,
    Uri,
    Duration,
    ChildNode,
    BytesBuffer,
}

/// The last token of a forwarded attribute such as `#[doc = "..."]`.
pub enum AttrToken {
    /// A string literal, with its value.
    Str(String),
    /// A literal of another kind.
    OtherLiteral,
    /// A token that is not a literal.
    NotLiteral,
    /// The attribute has no tokens.
    Missing,
}

/// A forwarded field attribute: the last segment of its path and its last token.
pub struct AttrDecl {
    pub name: String,
    pub last_token: AttrToken,
}

/// The last generic argument of a path segment.
pub enum GenericArgDecl {
    /// A type path, with the identifier of its last segment (if it has one)
    /// and its source text.
    TypePath { last_ident: Option<String>, text: String },
    /// Any other generic argument.
    Other,
}

/// The arguments of a path segment.
pub enum PathArgsDecl {
    Bare,
    /// `<...>`, with the last argument if there is one.
    AngleBracketed { last_arg: Option<GenericArgDecl> },
    Parenthesized,
}

/// One segment of a type path.
pub struct SegmentDecl {
    pub ident: String,
    pub args: PathArgsDecl,
}

/// The type of a field.
pub enum FieldTypeDecl {
    /// A type path, with its source text and its last segment.
    Path { text: String, last_segment: Option<SegmentDecl> },
    /// Any type that is not a path.
    Other,
}

/// A field of the annotated struct.
pub struct FieldDecl {
    pub ident: Option<String>,
    pub ty: FieldTypeDecl,
    pub attrs: Vec<AttrDecl>,
    /// `#[websocat_prop(enum)]`
    pub is_enum: bool,
    /// `#[websocat_prop(ignore)]`
    pub ignored: bool,
    /// `#[websocat_prop(min = ..)]`
    pub strict_min: Option<i64>,
    /// `#[websocat_prop(max = ..)]`
    pub strict_max: Option<i64>,
    /// `#[websocat_prop(reasonable_min = ..)]`
    pub reasonable_min: Option<i64>,
    /// `#[websocat_prop(reasonable_max = ..)]`
    pub reasonable_max: Option<i64>,
    /// `#[websocat_prop(default = ..)]`: the source text of the literal.
    pub default: Option<String>,
    /// `#[websocat_prop(flatten)]`
    pub flatten: bool,
}

/// The body of the annotated type.
pub enum ClassData {
    Enum,
    Struct(Vec<FieldDecl>),
}

/// A type annotated with `#[derive(WebsocatNode)]`.
pub struct ClassDecl {
    pub ident: String,
    pub data: ClassData,
    pub official_name: Option<String>,
    pub prefixes: Vec<String>,
    pub debug_derive: bool,
    pub validate: bool,
    pub data_only: bool,
    pub no_class: bool,
}

/// A node property, as the derive records it.
#[derive(Debug)]
pub struct PropertyInfo {
    pub ident: String,
    pub typ: PropertyValueTypeTag,
    pub enumname: Option<String>,
    pub optional: bool,
    pub help: String,
    pub inject_cli_long_option: Option<String>,
    pub strict_min: Option<i64>,
    pub strict_max: Option<i64>,
    pub reasonable_min: Option<i64>,
    pub reasonable_max: Option<i64>,
    pub default: Option<String>,
}

/// Everything the code generators need to know of a node type.
#[derive(Debug)]
pub struct ClassInfo {
    pub name: String,
    pub properties: Vec<PropertyInfo>,
    pub flattened_fields: Vec<String>,
    pub ignored_fields: Vec<String>,
    pub array_type: Option<PropertyInfo>,
    pub official_name: Option<String>,
    pub prefixes: Vec<String>,
    pub validate: bool,
    pub debug_derive: bool,
    pub data_only: bool,
}

/// Why a declaration is refused.
#[derive(Debug)]
pub enum DeriveError {
    /// Neither or both of `official_name` and `no_class` are set.
    OfficialNameXorNoClass,
    EnumsNotSupported,
    UnnamedField,
    /// The field's type is not a path; carries the field name.
    UnknownFieldType(String),
    /// The field's type path has no segments.
    LeafTypeMissing,
    ResultNotSupported,
    HashSetNotSupported,
    OptionArgsNotAngleBracketed,
    OptionLeafMissing,
    OptionInnerNotTypePath,
    VecArgsNotAngleBracketed,
    VecLeafMissing,
    VecInnerNotTypePath,
    /// The type path inside `Option<..>` or `Vec<..>` has no segments.
    InnerLeafMissing,
    /// The type name is none of the known property types; carries the name.
    UnknownType(String),
    /// An `Option<..>` field that also has a default; carries the field name.
    DefaultOnOption(String),
    AttrNotStringLiteral,
    /// A field without a doc comment; carries the field name.
    Undocumented(String),
    MultipleArrays,
    /// A `Vec<..>` field with a default.
    VecWithDefault,
    PortNumberNotNamedPort,
}

/// A property with its strings taken as character sequences.
pub struct PropertyView {
    pub ident: Seq<char>,
    pub typ: PropertyValueTypeTag,
    pub enumname: Option<Seq<char>>,
    pub optional: bool,
    pub help: Seq<char>,
    pub inject_cli_long_option: Option<Seq<char>>,
    pub strict_min: Option<i64>,
    pub strict_max: Option<i64>,
    pub reasonable_min: Option<i64>,
    pub reasonable_max: Option<i64>,
    pub default: Option<Seq<char>>,
}

/// A class description with its strings taken as character sequences.
pub struct ClassView {
    pub name: Seq<char>,
    pub properties: Seq<PropertyView>,
    pub flattened_fields: Seq<Seq<char>>,
    pub ignored_fields: Seq<Seq<char>>,
    pub array_type: Option<PropertyView>,
    pub official_name: Option<Seq<char>>,
    pub prefixes: Seq<Seq<char>>,
    pub validate: bool,
    pub debug_derive: bool,
    pub data_only: bool,
}

/// A refusal with its strings taken as character sequences.
pub enum DeriveErrorView {
    OfficialNameXorNoClass,
    EnumsNotSupported,
    UnnamedField,
    UnknownFieldType(Seq<char>),
    LeafTypeMissing,
    ResultNotSupported,
    HashSetNotSupported,
    OptionArgsNotAngleBracketed,
    OptionLeafMissing,
    OptionInnerNotTypePath,
    VecArgsNotAngleBracketed,
    VecLeafMissing,
    VecInnerNotTypePath,
    InnerLeafMissing,
    UnknownType(Seq<char>),
    DefaultOnOption(Seq<char>),
    AttrNotStringLiteral,
    Undocumented(Seq<char>),
    MultipleArrays,
    VecWithDefault,
    PortNumberNotNamedPort,
}

pub open spec fn opt_view(o: Option<String>) -> Option<Seq<char>> {
    match o {
        Some(s) => Some(s@),
        None => None,
    }
}

pub open spec fn strings_view(v: Seq<String>) -> Seq<Seq<char>> {
    v.map_values(|s: String| s@)
}

impl View for PropertyInfo {
    type V = PropertyView;

    open spec fn view(&self) -> PropertyView {
        PropertyView {
            ident: self.ident@,
            typ: self.typ,
            enumname: opt_view(self.enumname),
            optional: self.optional,
            help: self.help@,
            inject_cli_long_option: opt_view(self.inject_cli_long_option),
            strict_min: self.strict_min,
            strict_max: self.strict_max,
            reasonable_min: self.reasonable_min,
            reasonable_max: self.reasonable_max,
            default: opt_view(self.default),
        }
    }
}

pub open spec fn opt_property_view(o: Option<PropertyInfo>) -> Option<PropertyView> {
    match o {
        Some(p) => Some(p@),
        None => None,
    }
}

pub open spec fn properties_view(v: Seq<PropertyInfo>) -> Seq<PropertyView> {
    v.map_values(|p: PropertyInfo| p@)
}

impl View for ClassInfo {
    type V = ClassView;

    open spec fn view(&self) -> ClassView {
        ClassView {
            name: self.name@,
            properties: properties_view(self.properties@),
            flattened_fields: strings_view(self.flattened_fields@),
            ignored_fields: strings_view(self.ignored_fields@),
            array_type: opt_property_view(self.array_type),
            official_name: opt_view(self.official_name),
            prefixes: strings_view(self.prefixes@),
            validate: self.validate,
            debug_derive: self.debug_derive,
            data_only: self.data_only,
        }
    }
}

impl View for DeriveError {
    type V = DeriveErrorView;

    open spec fn view(&self) -> DeriveErrorView {
        match self {
            DeriveError::OfficialNameXorNoClass => DeriveErrorView::OfficialNameXorNoClass,
            DeriveError::EnumsNotSupported => DeriveErrorView::EnumsNotSupported,
            DeriveError::UnnamedField => DeriveErrorView::UnnamedField,
            DeriveError::UnknownFieldType(s) => DeriveErrorView::UnknownFieldType(s@),
            DeriveError::LeafTypeMissing => DeriveErrorView::LeafTypeMissing,
            DeriveError::ResultNotSupported => DeriveErrorView::ResultNotSupported,
            DeriveError::HashSetNotSupported => DeriveErrorView::HashSetNotSupported,
            DeriveError::OptionArgsNotAngleBracketed => DeriveErrorView::OptionArgsNotAngleBracketed,
            DeriveError::OptionLeafMissing => DeriveErrorView::OptionLeafMissing,
            DeriveError::OptionInnerNotTypePath => DeriveErrorView::OptionInnerNotTypePath,
            DeriveError::VecArgsNotAngleBracketed => DeriveErrorView::VecArgsNotAngleBracketed,
            DeriveError::VecLeafMissing => DeriveErrorView::VecLeafMissing,
            DeriveError::VecInnerNotTypePath => DeriveErrorView::VecInnerNotTypePath,
            DeriveError::InnerLeafMissing => DeriveErrorView::InnerLeafMissing,
            DeriveError::UnknownType(s) => DeriveErrorView::UnknownType(s@),
            DeriveError::DefaultOnOption(s) => DeriveErrorView::DefaultOnOption(s@),
            DeriveError::AttrNotStringLiteral => DeriveErrorView::AttrNotStringLiteral,
            DeriveError::Undocumented(s) => DeriveErrorView::Undocumented(s@),
            DeriveError::MultipleArrays => DeriveErrorView::MultipleArrays,
            DeriveError::VecWithDefault => DeriveErrorView::VecWithDefault,
            DeriveError::PortNumberNotNamedPort => DeriveErrorView::PortNumberNotNamedPort,
        }
    }
}

/// The property type that a type name stands for, if it is one of the known ones.
pub open spec fn resolved_type(name: Seq<char>) -> Option<PropertyValueTypeTag> {
    if name == "i64"@ {
        Some(PropertyValueTypeTag::Numbery)
    } else if name == "f64"@ {
        Some(PropertyValueTypeTag::Floaty)
    } else if name == "NodeId"@ {
        Some(PropertyValueTypeTag::ChildNode)
    } else if name == "String"@ {
        Some(PropertyValueTypeTag::Stringy)
    } else if name == "SocketAddr"@ {
        Some(PropertyValueTypeTag::SockAddr)
    } else if name == "u16"@ {
        Some(PropertyValueTypeTag::PortNumber)
    } else if name == "bool"@ {
        Some(PropertyValueTypeTag::Booly)
    } else if name == "Bytes"@ {
        Some(PropertyValueTypeTag::BytesBuffer)
    } else if name == "Uri"@ {
        Some(PropertyValueTypeTag::Uri)
    } else {
        None
    }
}

/// How a field's type maps to a property: its value type, whether it is
/// optional by being an `Option<..>`, the enum type's text for enum-valued
/// properties, and whether it is the node's array (`Vec<..>`).
pub struct FieldShape {
    pub typ: PropertyValueTypeTag,
    pub optional: bool,
    pub enumname: Option<Seq<char>>,
    pub vector: bool,
}

/// The element type inside `Option<..>` (when `in_vec` is false) or `Vec<..>`.
pub open spec fn inner_shape(args: PathArgsDecl, is_enum: bool, in_vec: bool) -> Result<
    (PropertyValueTypeTag, Option<Seq<char>>),
    DeriveErrorView,
> {
    match args {
        PathArgsDecl::AngleBracketed { last_arg } => match last_arg {
            Some(GenericArgDecl::TypePath { last_ident, text }) => {
                if is_enum {
                    Ok((PropertyValueTypeTag::Enummy, Some(text@)))
                } else {
                    match last_ident {
                        Some(n) => match resolved_type(n@) {
                            Some(t) => Ok((t, None)),
                            None => Err(DeriveErrorView::UnknownType(n@)),
                        },
                        None => Err(DeriveErrorView::InnerLeafMissing),
                    }
                }
            },
            Some(GenericArgDecl::Other) => if in_vec {
                Err(DeriveErrorView::VecInnerNotTypePath)
            } else {
                Err(DeriveErrorView::OptionInnerNotTypePath)
            },
            None => if in_vec {
                Err(DeriveErrorView::VecLeafMissing)
            } else {
                Err(DeriveErrorView::OptionLeafMissing)
            },
        },
        _ => if in_vec {
            Err(DeriveErrorView::VecArgsNotAngleBracketed)
        } else {
            Err(DeriveErrorView::OptionArgsNotAngleBracketed)
        },
    }
}

/// The shape of a named field's type, or why it is refused.
pub open spec fn field_shape(ty: FieldTypeDecl, is_enum: bool, ident: Seq<char>) -> Result<
    FieldShape,
    DeriveErrorView,
> {
    match ty {
        FieldTypeDecl::Other => Err(DeriveErrorView::UnknownFieldType(ident)),
        FieldTypeDecl::Path { text, last_segment } => match last_segment {
            None => Err(DeriveErrorView::LeafTypeMissing),
            Some(seg) => {
                let n = seg.ident@;
                if n == "Result"@ {
                    Err(DeriveErrorView::ResultNotSupported)
                } else if n == "HashSet"@ {
                    Err(DeriveErrorView::HashSetNotSupported)
                } else if n == "Option"@ {
                    match inner_shape(seg.args, is_enum, false) {
                        Ok((t, e)) => Ok(FieldShape { typ: t, optional: true, enumname: e, vector: false }),
                        Err(err) => Err(err),
                    }
                } else if n == "Vec"@ {
                    match inner_shape(seg.args, is_enum, true) {
                        Ok((t, e)) => Ok(FieldShape { typ: t, optional: false, enumname: e, vector: true }),
                        Err(err) => Err(err),
                    }
                } else if is_enum {
                    Ok(FieldShape {
                        typ: PropertyValueTypeTag::Enummy,
                        optional: false,
                        enumname: Some(text@),
                        vector: false,
                    })
                } else {
                    match resolved_type(n) {
                        Some(t) => Ok(FieldShape { typ: t, optional: false, enumname: None, vector: false }),
                        None => Err(DeriveErrorView::UnknownType(n)),
                    }
                }
            },
        },
    }
}

/// The help text and the CLI long option that a field's `doc` and `cli`
/// attributes give: doc lines joined by newlines, the last `cli` value.
pub open spec fn scan_attrs(attrs: Seq<AttrDecl>) -> Result<(Seq<char>, Option<Seq<char>>), DeriveErrorView>
    decreases attrs.len(),
{
    if attrs.len() == 0 {
        Ok((Seq::empty(), None))
    } else {
        match scan_attrs(attrs.drop_last()) {
            Err(e) => Err(e),
            Ok((help, cli)) => {
                let a = attrs.last();
                if a.name@ == "doc"@ || a.name@ == "cli"@ {
                    match a.last_token {
                        AttrToken::Str(v) => if a.name@ == "doc"@ {
                            if help.len() == 0 {
                                Ok((v@, cli))
                            } else {
                                Ok((help + "\n"@ + v@, cli))
                            }
                        } else {
                            Ok((help, Some(v@)))
                        },
                        _ => Err(DeriveErrorView::AttrNotStringLiteral),
                    }
                } else {
                    Ok((help, cli))
                }
            },
        }
    }
}

/// What the fields seen so far have contributed.
pub struct FieldsSoFar {
    pub properties: Seq<PropertyView>,
    pub array_type: Option<PropertyView>,
    pub ignored_fields: Seq<Seq<char>>,
    pub flattened_fields: Seq<Seq<char>>,
}

pub open spec fn no_fields() -> FieldsSoFar {
    FieldsSoFar {
        properties: Seq::empty(),
        array_type: None,
        ignored_fields: Seq::empty(),
        flattened_fields: Seq::empty(),
    }
}

/// The property recorded for a field.
pub open spec fn property_of(
    f: FieldDecl,
    ident: Seq<char>,
    shape: FieldShape,
    optional: bool,
    help: Seq<char>,
    cli: Option<Seq<char>>,
) -> PropertyView {
    PropertyView {
        ident,
        typ: shape.typ,
        enumname: shape.enumname,
        optional,
        help,
        inject_cli_long_option: cli,
        strict_min: f.strict_min,
        strict_max: f.strict_max,
        reasonable_min: f.reasonable_min,
        reasonable_max: f.reasonable_max,
        default: opt_view(f.default),
    }
}

/// What one field adds to the class, or why it is refused.
pub open spec fn field_step(st: FieldsSoFar, f: FieldDecl) -> Result<FieldsSoFar, DeriveErrorView> {
    match f.ident {
        None => Err(DeriveErrorView::UnnamedField),
        Some(id) => {
            let ident = id@;
            if f.ignored {
                Ok(FieldsSoFar { ignored_fields: st.ignored_fields.push(ident), ..st })
            } else if f.flatten {
                Ok(FieldsSoFar { flattened_fields: st.flattened_fields.push(ident), ..st })
            } else {
                match field_shape(f.ty, f.is_enum, ident) {
                    Err(e) => Err(e),
                    Ok(shape) => if f.default is Some && shape.optional {
                        Err(DeriveErrorView::DefaultOnOption(ident))
                    } else {
                        let optional = shape.optional || f.default is Some;
                        match scan_attrs(f.attrs@) {
                            Err(e) => Err(e),
                            Ok((help, cli)) => if help.len() == 0 {
                                Err(DeriveErrorView::Undocumented(ident))
                            } else if shape.vector {
                                if st.array_type is Some {
                                    Err(DeriveErrorView::MultipleArrays)
                                } else if optional {
                                    Err(DeriveErrorView::VecWithDefault)
                                } else {
                                    Ok(
                                        FieldsSoFar {
                                            array_type: Some(property_of(f, ident, shape, false, help, None)),
                                            ..st
                                        },
                                    )
                                }
                            } else if shape.typ == PropertyValueTypeTag::PortNumber && !crate::text::contains_sub(
                                crate::text::lowercase(ident),
                                "port"@,
                            ) {
                                Err(DeriveErrorView::PortNumberNotNamedPort)
                            } else {
                                Ok(
                                    FieldsSoFar {
                                        properties: st.properties.push(
                                            property_of(f, ident, shape, optional, help, cli),
                                        ),
                                        ..st
                                    },
                                )
                            },
                        }
                    },
                }
            }
        },
    }
}

/// The fields, taken in order; the first refusal stops the scan.
pub open spec fn scan_fields(fields: Seq<FieldDecl>) -> Result<FieldsSoFar, DeriveErrorView>
    decreases fields.len(),
{
    if fields.len() == 0 {
        Ok(no_fields())
    } else {
        match scan_fields(fields.drop_last()) {
            Err(e) => Err(e),
            Ok(st) => field_step(st, fields.last()),
        }
    }
}

/// A declaration must set exactly one of `official_name` and `no_class`.
pub open spec fn header_ok(d: ClassDecl) -> bool {
    d.official_name is Some != d.no_class
}

/// The class description a declaration gives, or the first reason it is refused.
pub open spec fn class_of(d: ClassDecl) -> Result<ClassView, DeriveErrorView> {
    if !header_ok(d) {
        Err(DeriveErrorView::OfficialNameXorNoClass)
    } else {
        match d.data {
            ClassData::Enum => Err(DeriveErrorView::EnumsNotSupported),
            ClassData::Struct(fields) => match scan_fields(fields@) {
                Err(e) => Err(e),
                Ok(st) => Ok(
                    ClassView {
                        name: d.ident@,
                        properties: st.properties,
                        flattened_fields: st.flattened_fields,
                        ignored_fields: st.ignored_fields,
                        array_type: st.array_type,
                        official_name: opt_view(d.official_name),
                        prefixes: strings_view(d.prefixes@),
                        validate: d.validate,
                        debug_derive: d.debug_derive,
                        data_only: d.data_only,
                    },
                ),
            },
        }
    }
}

} // verus!
