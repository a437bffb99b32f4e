use websocat_nodes::enum_codegen::{derive_websocat_enum, EnummyData, EnummyEnum, EnummyVariant};

fn variant(ident: &str, rename: Option<&str>) -> EnummyVariant {
    EnummyVariant { ident: ident.to_string(), rename: rename.map(|s| s.to_string()) }
}

#[test]
fn variant_names() {
    assert_eq!(variant("TcpStream", None).get_name(false), "TcpStream");
    assert_eq!(variant("TcpStream", None).get_name(true), "tcpstream");
    assert_eq!(variant("TcpStream", Some("Tcp-Stream")).get_name(true), "Tcp-Stream");
}

#[test]
fn enum_impl() {
    let e = EnummyEnum {
        ident: "Mode".to_string(),
        data: EnummyData::Enum(vec![variant("Fast", None), variant("Slow", Some("sluggish")), variant("Auto", None)]),
        rename_all_lowercase: true,
        debug_derive: false,
    };
    let code = derive_websocat_enum(&e);
    syn::parse_file(&code).expect("generated code parses");
    assert!(code.starts_with("impl ::websocat_api::Enum for Mode {"));
    assert!(code.contains("StringInterner::with_capacity(3usize);"));
    assert!(code.contains("assert_eq!(s.get_or_intern(\"fast\"), ::websocat_api::string_interner::DefaultSymbol::try_from_usize(0usize).unwrap());"));
    assert!(code.contains("assert_eq!(s.get_or_intern(\"sluggish\"), ::websocat_api::string_interner::DefaultSymbol::try_from_usize(1usize).unwrap());"));
    assert!(code.contains("2usize => Self::Auto,"));
    assert!(code.contains("Self::Slow => ::websocat_api::string_interner::DefaultSymbol::try_from_usize(1usize).unwrap(),"));
    assert!(code.contains("x => panic!(\"Invalid numeric value {} for enummy {}\", x, \"Mode\"),"));
}

#[test]
fn empty_enum_impl() {
    let e = EnummyEnum {
        ident: "Never".to_string(),
        data: EnummyData::Enum(vec![]),
        rename_all_lowercase: false,
        debug_derive: false,
    };
    let code = derive_websocat_enum(&e);
    syn::parse_file(&code).expect("generated code parses");
    assert!(code.contains("with_capacity(0usize)"));
}
