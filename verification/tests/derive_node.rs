use websocat_nodes::class_codegen::{derive_websocat_node, try_derive_websocat_node};
use websocat_nodes::model::{
    AttrDecl, AttrToken, ClassData, ClassDecl, ClassInfo, DeriveError, FieldDecl, FieldTypeDecl,
    GenericArgDecl, PathArgsDecl, PropertyValueTypeTag, SegmentDecl,
};

fn doc(text: &str) -> AttrDecl {
    AttrDecl { name: "doc".to_string(), last_token: AttrToken::Str(text.to_string()) }
}

fn plain_type(name: &str) -> FieldTypeDecl {
    FieldTypeDecl::Path {
        text: name.to_string(),
        last_segment: Some(SegmentDecl { ident: name.to_string(), args: PathArgsDecl::Bare }),
    }
}

fn wrapped_type(outer: &str, inner: &str) -> FieldTypeDecl {
    FieldTypeDecl::Path {
        text: format!("{}<{}>", outer, inner),
        last_segment: Some(SegmentDecl {
            ident: outer.to_string(),
            args: PathArgsDecl::AngleBracketed {
                last_arg: Some(GenericArgDecl::TypePath {
                    last_ident: Some(inner.rsplit("::").next().unwrap().to_string()),
                    text: inner.to_string(),
                }),
            },
        }),
    }
}

fn field(name: &str, ty: FieldTypeDecl, help: &str) -> FieldDecl {
    FieldDecl {
        ident: Some(name.to_string()),
        ty,
        attrs: vec![doc(help)],
        is_enum: false,
        ignored: false,
        strict_min: None,
        strict_max: None,
        reasonable_min: None,
        reasonable_max: None,
        default: None,
        flatten: false,
    }
}

fn class(name: &str, official: Option<&str>, fields: Vec<FieldDecl>) -> ClassDecl {
    ClassDecl {
        ident: name.to_string(),
        data: ClassData::Struct(fields),
        official_name: official.map(|s| s.to_string()),
        prefixes: vec![],
        debug_derive: false,
        validate: false,
        data_only: false,
        no_class: official.is_none(),
    }
}

/// The declaration of the HTTP client node, as its derive sees it.
fn http_client_decl() -> ClassDecl {
    let mut client = field("client", plain_type("Mutex"), "");
    client.attrs = vec![];
    client.ignored = true;
    let mut d = class(
        "HttpClient",
        Some("http-highlevel-client"),
        vec![
            field("upgrade", wrapped_type("Option", "bool"), " Expect and work upon upgrades"),
            field("stream_request_body", wrapped_type("Option", "bool"), " Immediately return connection, stream bytes into request body."),
            field("request_body", wrapped_type("Option", "NodeId"), " Subnode to read request body from"),
            field("buffer_request_body", wrapped_type("Option", "bool"), " Fully read request body into memory prior to sending it"),
            field("buffer_request_body_size_hint", wrapped_type("Option", "i64"), " Preallocate this amount of memory for caching request body"),
            field("method", wrapped_type("Option", "String"), " Override HTTP request verb"),
            field("json", wrapped_type("Option", "bool"), " Set request content_type to `application/json`"),
            field("textplain", wrapped_type("Option", "bool"), " Set request content_type to `text/plain`"),
            field("request_headers", wrapped_type("Vec", "NodeId"), " Add these headers to HTTP request"),
            field("uri", wrapped_type("Option", "websocat_api::http::Uri"), " Request URI"),
            field("websocket", wrapped_type("Option", "bool"), " Request WebSocket upgrade from server"),
            client,
        ],
    );
    d.validate = true;
    d
}

#[test]
fn http_client_class_info() {
    let ci = ClassInfo::parse(&http_client_decl());
    assert_eq!(ci.name, "HttpClient");
    assert_eq!(ci.properties.len(), 10);
    assert_eq!(ci.ignored_fields, vec!["client".to_string()]);
    assert!(ci.flattened_fields.is_empty());
    let arr = ci.array_type.as_ref().unwrap();
    assert_eq!(arr.ident, "request_headers");
    assert_eq!(arr.typ, PropertyValueTypeTag::ChildNode);
    assert!(!arr.optional);
    assert_eq!(ci.properties[0].ident, "upgrade");
    assert_eq!(ci.properties[0].typ, PropertyValueTypeTag::Booly);
    assert!(ci.properties[0].optional);
    assert_eq!(ci.properties[0].help, " Expect and work upon upgrades");
    assert_eq!(ci.properties[2].typ, PropertyValueTypeTag::ChildNode);
    assert_eq!(ci.properties[4].typ, PropertyValueTypeTag::Numbery);
    assert_eq!(ci.properties[5].typ, PropertyValueTypeTag::Stringy);
    assert_eq!(ci.properties[8].ident, "uri");
    assert_eq!(ci.properties[8].typ, PropertyValueTypeTag::Uri);
    assert_eq!(ci.official_name.as_deref(), Some("http-highlevel-client"));
    assert!(ci.validate);
    // every one of the twelve fields is placed exactly once
    let placed = ci.properties.len() + ci.array_type.iter().count() + ci.ignored_fields.len()
        + ci.flattened_fields.len();
    assert_eq!(placed, 12);
}

#[test]
fn http_client_code_is_rust() {
    let code = derive_websocat_node(&http_client_decl());
    let file = syn::parse_file(&code).expect("generated code parses as a Rust file");
    // DataNode impl, builder struct, builder impl, class struct, NodeClass impl, GetClassOfNode impl
    assert_eq!(file.items.len(), 6);
    assert!(code.contains("impl ::websocat_api::DataNode for HttpClient {"));
    assert!(code.contains("\"upgrade\" => self.upgrade.clone().map(::websocat_api::PropertyValue::Booly),"));
    assert!(code.contains("request_headers: ::std::vec::Vec<::websocat_api::NodeId>,"));
    assert!(code.contains("uri: ::std::option::Option<::websocat_api::http::Uri>,"));
    assert!(code.contains("(\"json\", ::websocat_api::PropertyValue::Booly(n)) => self.json = ::std::option::Option::Some(n),"));
    assert!(code.contains("::websocat_api::PropertyValue::ChildNode(x) => self.request_headers.push(x),"));
    assert!(code.contains("client: ::std::default::Default::default(),"));
    assert!(code.contains("x.validate()?;"));
    assert!(code.contains("fn official_name(&self) -> ::std::string::String { \"http-highlevel-client\".to_owned() }"));
    assert!(code.contains("help: ::std::boxed::Box::new(||\" Request URI\".to_owned()),"));
    assert!(code.contains("fn array_type(&self) -> ::std::option::Option<::websocat_api::PropertyValueType> {\nSome(websocat_api::PropertyValueType::ChildNode)\n}"));
    assert!(code.contains("impl ::websocat_api::GetClassOfNode for HttpClient {\ntype Class = HttpClientClass;\n}"));
    assert!(code.contains("::std::result::Result::Ok(self)"));
}

#[test]
fn required_and_default_properties() {
    let required = field("count", plain_type("i64"), "how many");
    let mut with_default = field("flag", plain_type("bool"), "a flag");
    with_default.default = Some("true".to_string());
    let mut bounded = field("level", plain_type("i64"), "level");
    bounded.strict_min = Some(-5);
    bounded.strict_max = Some(10);
    bounded.reasonable_min = Some(0);
    bounded.reasonable_max = Some(3);
    let d = class("Thing", None, vec![required, with_default, bounded]);
    let ci = ClassInfo::parse(&d);
    assert!(!ci.properties[0].optional);
    assert!(ci.properties[1].optional);
    assert_eq!(ci.properties[1].default.as_deref(), Some("true"));
    let code = ci.generate_all();
    syn::parse_file(&code).expect("generated code parses");
    assert!(code.contains("if self.count.is_none() {\n::websocat_api::anyhow::bail!(\"Property `{}` must be set in node of type `{}`\", \"count\", \"Thing\",);\n}"));
    assert!(code.contains("if self.flag.is_none() {\nself.flag = Some(true);\n}"));
    assert!(code.contains("if (*j as i64) < -5i64 {"));
    assert!(code.contains("\"level\", -5i64, \"Thing\",);"));
    assert!(code.contains("if (*j as i64) > 10i64 {"));
    assert!(code.contains("has suspiciously low value, lower than `{}`\", \"level\", \"Thing\", 0i64,);"));
    assert!(code.contains("if (*j as i64) > 3i64 {"));
    assert!(code.contains("count: self.count.unwrap(),"));
    assert!(code.contains("flag: self.flag.unwrap(),"));
    assert!(code.contains("\"count\" => Some(::websocat_api::PropertyValue::Numbery(self.count.clone())),"));
    assert!(code.contains("::websocat_api::anyhow::bail!(\"No array elements are expected here\");"));
    assert!(code.contains("fn get_array(&self) -> ::std::vec::Vec<::websocat_api::PropertyValue> {\nvec![]\n}"));
    // no official name: no NodeClass
    assert!(!code.contains("NodeClass for"));
}

#[test]
fn enum_valued_properties() {
    let mut mode = field("mode", plain_type("Mode"), "mode");
    mode.is_enum = true;
    let mut modes = field("modes", wrapped_type("Vec", "crate::Mode"), "modes");
    modes.is_enum = true;
    let mut maybe = field("maybe", wrapped_type("Option", "Mode"), "maybe");
    maybe.is_enum = true;
    let mut d = class("Sw", Some("sw"), vec![mode, modes, maybe]);
    d.prefixes = vec!["sw:".to_string(), "switch:".to_string()];
    d.data_only = true;
    let ci = ClassInfo::parse(&d);
    assert_eq!(ci.properties[0].typ, PropertyValueTypeTag::Enummy);
    assert_eq!(ci.properties[0].enumname.as_deref(), Some("Mode"));
    assert_eq!(ci.array_type.as_ref().unwrap().enumname.as_deref(), Some("crate::Mode"));
    let code = ci.generate_all();
    syn::parse_file(&code).expect("generated code parses");
    assert!(code.contains("\"mode\" => Some(::websocat_api::PropertyValue::Enummy(::websocat_api::Enum::variant_to_index(&self.mode))),"));
    assert!(code.contains("\"maybe\" => self.maybe.as_ref().map(::websocat_api::Enum::variant_to_index).map(::websocat_api::PropertyValue::Enummy),"));
    assert!(code.contains("<Mode as ::websocat_api::Enum>::index_to_variant(sym)"));
    assert!(code.contains("self.modes.push(<crate::Mode as ::websocat_api::Enum>::index_to_variant(sym))"));
    assert!(code.contains("r#type: websocat_api::PropertyValueType::Enummy(<Mode as ::websocat_api::Enum>::interner()),"));
    assert!(code.contains("\"sw:\".to_owned(),\n\"switch:\".to_owned(),\n"));
    assert!(code.contains("::std::result::Result::Err(::websocat_api::PurelyDataNodeError)"));
    assert!(code.contains("mode: ::std::option::Option<Mode>,"));
}

#[test]
fn doc_lines_and_cli_option() {
    let mut f = field("port", plain_type("u16"), "first");
    f.attrs = vec![
        doc(""),
        doc("line one"),
        AttrDecl { name: "cli".to_string(), last_token: AttrToken::Str("p".to_string()) },
        doc("line two"),
        AttrDecl { name: "other".to_string(), last_token: AttrToken::NotLiteral },
    ];
    let ci = ClassInfo::parse(&class("S", None, vec![f]));
    assert_eq!(ci.properties[0].help, "line one\nline two");
    assert_eq!(ci.properties[0].inject_cli_long_option.as_deref(), Some("p"));
    assert_eq!(ci.properties[0].typ, PropertyValueTypeTag::PortNumber);
}

#[test]
fn help_text_is_escaped_in_code() {
    let f = field("name", plain_type("String"), "say \"hi\"\\ now");
    let code = derive_websocat_node(&class("Q", Some("q"), vec![f]));
    syn::parse_file(&code).expect("generated code parses");
    assert!(code.contains(r#"help: ::std::boxed::Box::new(||"say \"hi\"\\ now".to_owned()),"#));
}

#[test]
fn port_numbers_need_port_in_name() {
    let ok = ClassInfo::try_parse(&class("S", None, vec![field("ListenPORT", plain_type("u16"), "p")]));
    assert!(ok.is_ok());
    let bad = ClassInfo::try_parse(&class("S", None, vec![field("timeout", plain_type("u16"), "t")]));
    assert!(matches!(bad, Err(DeriveError::PortNumberNotNamedPort)));
}

#[test]
fn flattened_fields_are_recorded() {
    let mut f = field("inner", plain_type("Inner"), "");
    f.flatten = true;
    f.attrs = vec![];
    let ci = ClassInfo::parse(&class("S", None, vec![f]));
    assert_eq!(ci.flattened_fields, vec!["inner".to_string()]);
    assert!(ci.properties.is_empty());
}

fn refusal(d: ClassDecl) -> DeriveError {
    match try_derive_websocat_node(&d) {
        Ok(_) => panic!("expected a refusal"),
        Err(e) => e,
    }
}

#[test]
fn refusals() {
    // header: both set, neither set
    let mut both = class("S", Some("s"), vec![]);
    both.no_class = true;
    assert!(matches!(refusal(both), DeriveError::OfficialNameXorNoClass));
    let mut neither = class("S", None, vec![]);
    neither.no_class = false;
    assert!(matches!(refusal(neither), DeriveError::OfficialNameXorNoClass));

    let mut e = class("S", None, vec![]);
    e.data = ClassData::Enum;
    assert!(matches!(refusal(e), DeriveError::EnumsNotSupported));

    let mut unnamed = field("x", plain_type("i64"), "x");
    unnamed.ident = None;
    assert!(matches!(refusal(class("S", None, vec![unnamed])), DeriveError::UnnamedField));

    let mut other = field("x", plain_type("i64"), "x");
    other.ty = FieldTypeDecl::Other;
    assert!(matches!(refusal(class("S", None, vec![other])), DeriveError::UnknownFieldType(n) if n == "x"));

    let mut leafless = field("x", plain_type("i64"), "x");
    leafless.ty = FieldTypeDecl::Path { text: String::new(), last_segment: None };
    assert!(matches!(refusal(class("S", None, vec![leafless])), DeriveError::LeafTypeMissing));

    assert!(matches!(refusal(class("S", None, vec![field("x", wrapped_type("Result", "i64"), "x")])), DeriveError::ResultNotSupported));
    assert!(matches!(refusal(class("S", None, vec![field("x", wrapped_type("HashSet", "i64"), "x")])), DeriveError::HashSetNotSupported));

    let bare_option = FieldTypeDecl::Path {
        text: "Option".to_string(),
        last_segment: Some(SegmentDecl { ident: "Option".to_string(), args: PathArgsDecl::Bare }),
    };
    assert!(matches!(refusal(class("S", None, vec![field("x", bare_option, "x")])), DeriveError::OptionArgsNotAngleBracketed));
    let empty_vec = FieldTypeDecl::Path {
        text: "Vec<>".to_string(),
        last_segment: Some(SegmentDecl { ident: "Vec".to_string(), args: PathArgsDecl::AngleBracketed { last_arg: None } }),
    };
    assert!(matches!(refusal(class("S", None, vec![field("x", empty_vec, "x")])), DeriveError::VecLeafMissing));
    let lifetime_option = FieldTypeDecl::Path {
        text: "Option<'a>".to_string(),
        last_segment: Some(SegmentDecl {
            ident: "Option".to_string(),
            args: PathArgsDecl::AngleBracketed { last_arg: Some(GenericArgDecl::Other) },
        }),
    };
    assert!(matches!(refusal(class("S", None, vec![field("x", lifetime_option, "x")])), DeriveError::OptionInnerNotTypePath));
    let paren_vec = FieldTypeDecl::Path {
        text: "Vec(i64)".to_string(),
        last_segment: Some(SegmentDecl { ident: "Vec".to_string(), args: PathArgsDecl::Parenthesized }),
    };
    assert!(matches!(refusal(class("S", None, vec![field("x", paren_vec, "x")])), DeriveError::VecArgsNotAngleBracketed));
    let other_vec = FieldTypeDecl::Path {
        text: "Vec<'a>".to_string(),
        last_segment: Some(SegmentDecl {
            ident: "Vec".to_string(),
            args: PathArgsDecl::AngleBracketed { last_arg: Some(GenericArgDecl::Other) },
        }),
    };
    assert!(matches!(refusal(class("S", None, vec![field("x", other_vec, "x")])), DeriveError::VecInnerNotTypePath));
    let empty_option = FieldTypeDecl::Path {
        text: "Option<>".to_string(),
        last_segment: Some(SegmentDecl { ident: "Option".to_string(), args: PathArgsDecl::AngleBracketed { last_arg: None } }),
    };
    assert!(matches!(refusal(class("S", None, vec![field("x", empty_option, "x")])), DeriveError::OptionLeafMissing));
    let no_inner_leaf = FieldTypeDecl::Path {
        text: "Option<>".to_string(),
        last_segment: Some(SegmentDecl {
            ident: "Option".to_string(),
            args: PathArgsDecl::AngleBracketed {
                last_arg: Some(GenericArgDecl::TypePath { last_ident: None, text: String::new() }),
            },
        }),
    };
    assert!(matches!(refusal(class("S", None, vec![field("x", no_inner_leaf, "x")])), DeriveError::InnerLeafMissing));

    assert!(matches!(refusal(class("S", None, vec![field("x", plain_type("f32"), "x")])), DeriveError::UnknownType(n) if n == "f32"));
    assert!(matches!(refusal(class("S", None, vec![field("x", wrapped_type("Option", "u8"), "x")])), DeriveError::UnknownType(n) if n == "u8"));

    let mut opt_default = field("x", wrapped_type("Option", "i64"), "x");
    opt_default.default = Some("1".to_string());
    assert!(matches!(refusal(class("S", None, vec![opt_default])), DeriveError::DefaultOnOption(n) if n == "x"));

    let mut bad_doc = field("x", plain_type("i64"), "x");
    bad_doc.attrs = vec![AttrDecl { name: "doc".to_string(), last_token: AttrToken::OtherLiteral }];
    assert!(matches!(refusal(class("S", None, vec![bad_doc])), DeriveError::AttrNotStringLiteral));
    let mut bad_cli = field("x", plain_type("i64"), "x");
    bad_cli.attrs.push(AttrDecl { name: "cli".to_string(), last_token: AttrToken::Missing });
    assert!(matches!(refusal(class("S", None, vec![bad_cli])), DeriveError::AttrNotStringLiteral));

    let mut undocumented = field("x", plain_type("i64"), "x");
    undocumented.attrs = vec![doc("")];
    assert!(matches!(refusal(class("S", None, vec![undocumented])), DeriveError::Undocumented(n) if n == "x"));

    let two_arrays = vec![
        field("a", wrapped_type("Vec", "i64"), "a"),
        field("b", wrapped_type("Vec", "String"), "b"),
    ];
    assert!(matches!(refusal(class("S", None, two_arrays)), DeriveError::MultipleArrays));

    let mut vec_default = field("a", wrapped_type("Vec", "i64"), "a");
    vec_default.default = Some("vec![]".to_string());
    assert!(matches!(refusal(class("S", None, vec![vec_default])), DeriveError::VecWithDefault));
}

#[test]
fn first_refusal_wins() {
    // the unknown type of the first field is reported, not the later unnamed field
    let mut unnamed = field("y", plain_type("i64"), "y");
    unnamed.ident = None;
    let d = class("S", None, vec![field("x", plain_type("char"), "x"), unnamed]);
    assert!(matches!(refusal(d), DeriveError::UnknownType(n) if n == "char"));
}
