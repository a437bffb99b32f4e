//! `#[derive(WebsocatEnum)]`: the `Enum` impl that maps an enum's variants to
//! interned names and indices and back.
use vstd::prelude::*;
use crate::codegen_util::{concat_map_indexed, lemma_concat_map_indexed_all, lemma_concat_map_indexed_step};
use crate::text::{
    ascii_lower, debug_str_literal, lowercase, push_usize_literal, str_literal, to_lowercase, usize_literal,
};

verus! {

/// A variant of the annotated enum, with its `#[websocat_enum(rename = ..)]`.
pub struct EnummyVariant {
    pub ident: String,
    pub rename: Option<String>,
}

/// The body of the annotated type.
pub enum EnummyData {
    Struct,
    Enum(Vec<EnummyVariant>),
}

/// A type annotated with `#[derive(WebsocatEnum)]`.
pub struct EnummyEnum {
    pub ident: String,
    pub data: EnummyData,
    pub rename_all_lowercase: bool,
    pub debug_derive: bool,
}

/// The name a variant is known by: its explicit rename, else its identifier,
/// lowercased when the enum asks for that.
pub open spec fn variant_name(v: EnummyVariant, lowercase_all: bool) -> Seq<char> {
    match v.rename {
        Some(r) => r@,
        None => if lowercase_all {
            lowercase(v.ident@)
        } else {
            v.ident@
        },
    }
}

pub open spec fn symbol_code(n: int) -> Seq<char> {
    "::websocat_api::string_interner::DefaultSymbol::try_from_usize("@ + usize_literal(n as usize)
        + ").unwrap()"@
}

/// In `interner()`: the variant's name is interned as symbol number `n`.
pub open spec fn interner_line_code(n: int, v: EnummyVariant, lowercase_all: bool) -> Seq<char> {
    "assert_eq!(s.get_or_intern("@ + debug_str_literal(variant_name(v, lowercase_all)) + "), "@
        + symbol_code(n) + ");\n"@
}

/// In `index_to_variant`: index `n` gives the variant.
pub open spec fn index_arm_code(n: int, v: EnummyVariant) -> Seq<char> {
    usize_literal(n as usize) + " => Self::"@ + v.ident@ + ",\n"@
}

/// In `variant_to_index`: the variant gives symbol number `n`.
pub open spec fn variant_arm_code(n: int, v: EnummyVariant) -> Seq<char> {
    "Self::"@ + v.ident@ + " => "@ + symbol_code(n) + ",\n"@
}

/// The `Enum` impl for an enum with the given variants.
pub open spec fn enum_code(name: Seq<char>, vs: Seq<EnummyVariant>, lowercase_all: bool) -> Seq<char> {
    "impl ::websocat_api::Enum for "@ + name
        + " {\nfn interner() -> ::websocat_api::string_interner::StringInterner {\nuse ::websocat_api::string_interner::Symbol;\nlet mut s = ::websocat_api::string_interner::StringInterner::with_capacity("@
        + usize_literal(vs.len() as usize) + ");\n"@ + concat_map_indexed(
        vs,
        |n: int, v: EnummyVariant| interner_line_code(n, v, lowercase_all),
    )
        + "s\n}\nfn index_to_variant(sym: ::websocat_api::string_interner::DefaultSymbol) -> Self {\nuse ::websocat_api::string_interner::Symbol;\nmatch sym.to_usize() {\n"@
        + concat_map_indexed(vs, |n: int, v: EnummyVariant| index_arm_code(n, v))
        + "x => panic!(\"Invalid numeric value {} for enummy {}\", x, "@ + debug_str_literal(name)
        + "),\n}\n}\nfn variant_to_index(&self) -> ::websocat_api::string_interner::DefaultSymbol {\nuse ::websocat_api::string_interner::Symbol;\nmatch self {\n"@
        + concat_map_indexed(vs, |n: int, v: EnummyVariant| variant_arm_code(n, v)) + "}\n}\n}\n"@
}

impl EnummyVariant {
    /// The name the variant is interned under.
    pub fn get_name(&self, lowercase: bool) -> (r: String)
        ensures
            r@ == variant_name(*self, lowercase),
            self.rename matches Some(x) ==> r@ == x@,
            self.rename is None && !lowercase ==> r@ == self.ident@,
            self.rename is None && lowercase && (forall|i: int|
                0 <= i < self.ident@.len() ==> (#[trigger] self.ident@[i] as int) < 128) ==> r@
                == self.ident@.map_values(|c: char| ascii_lower(c)),
    {
        match &self.rename {
            Some(x) => x.clone(),
            None => if lowercase {
                to_lowercase(self.ident.as_str())
            } else {
                self.ident.clone()
            },
        }
    }
}

fn symbol_text(out: &mut String, n: usize)
    ensures
        final(out)@ == old(out)@ + symbol_code(n as int),
{
    out.append("::websocat_api::string_interner::DefaultSymbol::try_from_usize(");
    push_usize_literal(out, n);
    out.append(").unwrap()");
}

/// The three per-variant sections of the impl.
fn variant_sections(vs: &Vec<EnummyVariant>, lowercase_all: bool) -> (r: (String, String, String))
    ensures
        r.0@ == concat_map_indexed(vs@, |n: int, v: EnummyVariant| interner_line_code(n, v, lowercase_all)),
        r.1@ == concat_map_indexed(vs@, |n: int, v: EnummyVariant| index_arm_code(n, v)),
        r.2@ == concat_map_indexed(vs@, |n: int, v: EnummyVariant| variant_arm_code(n, v)),
{
    let ghost fi = |n: int, v: EnummyVariant| interner_line_code(n, v, lowercase_all);
    let ghost fx = |n: int, v: EnummyVariant| index_arm_code(n, v);
    let ghost fv = |n: int, v: EnummyVariant| variant_arm_code(n, v);
    let mut interner = String::new();
    let mut to_variant = String::new();
    let mut to_index = String::new();
    let mut n: usize = 0;
    while n < vs.len()
        invariant
            n <= vs@.len(),
            fi == (|n: int, v: EnummyVariant| interner_line_code(n, v, lowercase_all)),
            fx == (|n: int, v: EnummyVariant| index_arm_code(n, v)),
            fv == (|n: int, v: EnummyVariant| variant_arm_code(n, v)),
            interner@ == concat_map_indexed(vs@.take(n as int), fi),
            to_variant@ == concat_map_indexed(vs@.take(n as int), fx),
            to_index@ == concat_map_indexed(vs@.take(n as int), fv),
        decreases vs@.len() - n,
    {
        let v = &vs[n];
        let varname = v.get_name(lowercase_all);
        let mut line = "assert_eq!(s.get_or_intern(".to_owned();
        let lit = str_literal(varname.as_str());
        line.append(lit.as_str());
        line.append("), ");
        symbol_text(&mut line, n);
        line.append(");\n");

        let mut arm = String::new();
        push_usize_literal(&mut arm, n);
        arm.append(" => Self::");
        arm.append(v.ident.as_str());
        arm.append(",\n");

        let mut back = "Self::".to_owned();
        back.append(v.ident.as_str());
        back.append(" => ");
        symbol_text(&mut back, n);
        back.append(",\n");

        proof {
            lemma_concat_map_indexed_step(vs@, fi, n as int);
            lemma_concat_map_indexed_step(vs@, fx, n as int);
            lemma_concat_map_indexed_step(vs@, fv, n as int);
            assert(arm@ =~= index_arm_code(n as int, vs@[n as int]));
        }
        interner.append(line.as_str());
        to_variant.append(arm.as_str());
        to_index.append(back.as_str());
        n += 1;
    }
    proof {
        lemma_concat_map_indexed_all(vs@, fi);
        lemma_concat_map_indexed_all(vs@, fx);
        lemma_concat_map_indexed_all(vs@, fv);
    }
    (interner, to_variant, to_index)
}

/// The whole `#[derive(WebsocatEnum)]` for an enum.
pub fn derive_websocat_enum(input: &EnummyEnum) -> (r: String)
    requires
        input.data is Enum,
    ensures
        input.data matches EnummyData::Enum(vs) && r@ == enum_code(
            input.ident@,
            vs@,
            input.rename_all_lowercase,
        ),
{
    let vs = match &input.data {
        EnummyData::Enum(vs) => vs,
        EnummyData::Struct => vstd::pervasive::unreached(),
    };
    let (interner, to_variant, to_index) = variant_sections(vs, input.rename_all_lowercase);
    let mut s = "impl ::websocat_api::Enum for ".to_owned();
    s.append(input.ident.as_str());
    s.append(
        " {\nfn interner() -> ::websocat_api::string_interner::StringInterner {\nuse ::websocat_api::string_interner::Symbol;\nlet mut s = ::websocat_api::string_interner::StringInterner::with_capacity(",
    );
    push_usize_literal(&mut s, vs.len());
    s.append(");\n");
    s.append(interner.as_str());
    s.append(
        "s\n}\nfn index_to_variant(sym: ::websocat_api::string_interner::DefaultSymbol) -> Self {\nuse ::websocat_api::string_interner::Symbol;\nmatch sym.to_usize() {\n",
    );
    s.append(to_variant.as_str());
    s.append("x => panic!(\"Invalid numeric value {} for enummy {}\", x, ");
    let name_lit = str_literal(input.ident.as_str());
    s.append(name_lit.as_str());
    s.append(
        "),\n}\n}\nfn variant_to_index(&self) -> ::websocat_api::string_interner::DefaultSymbol {\nuse ::websocat_api::string_interner::Symbol;\nmatch self {\n",
    );
    s.append(to_index.as_str());
    s.append("}\n}\n}\n");
    s
}

/// An explicit rename always names the variant, whether or not the enum asks
/// for lowercase names; without one, the name is the identifier, lowercased
/// only when the enum asks for that.
pub proof fn lemma_rename_wins(v: EnummyVariant, lowercase_all: bool)
    ensures
        v.rename matches Some(r) ==> variant_name(v, lowercase_all) == r@,
        v.rename is None && !lowercase_all ==> variant_name(v, lowercase_all) == v.ident@,
        v.rename is None && lowercase_all ==> variant_name(v, lowercase_all) == lowercase(v.ident@),
{
}

} // verus!
