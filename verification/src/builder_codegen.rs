//! The `NodeInProgressOfParsing` impl that `#[derive(WebsocatNode)]` emits for
//! the builder: setting properties by name, pushing array elements, and
//! `finish`, which checks required properties and bounds, fills defaults, and
//! builds the node.
use vstd::prelude::*;
use crate::codegen_util::{
    concat_map, lemma_concat_map_all, lemma_concat_map_step, property_wf, stored_directly, tag_ident,
    tag_ident_str,
};
use crate::model::{
    opt_property_view, properties_view, strings_view, ClassInfo, ClassView, PropertyInfo, PropertyValueTypeTag,
    PropertyView,
};
use crate::node_codegen::class_wf;
use crate::text::{contains_sub, debug_str_literal, i64_literal, push_i64_literal, str_literal};

verus! {

/// In `finish`: a required property without default must have been set; one
/// with a default gets it when unset. Optional properties need no check.
pub open spec fn presence_check_code(p: PropertyView, name_s: Seq<char>) -> Seq<char> {
    if stored_directly(p) {
        match p.default {
            None => "if self."@ + p.ident
                + ".is_none() {\n::websocat_api::anyhow::bail!(\"Property `{}` must be set in node of type `{}`\", "@
                + debug_str_literal(p.ident) + ", "@ + name_s + ",);\n}\n"@,
            Some(def) => "if self."@ + p.ident + ".is_none() {\nself."@ + p.ident + " = Some("@ + def
                + ");\n}\n"@,
        }
    } else {
        Seq::empty()
    }
}

/// The opening of a bound check: `if let Some(ref j) = self.p { if (*j as i64) <op> <x> {`.
pub open spec fn bound_guard_code(p: PropertyView, op: Seq<char>, x: i64) -> Seq<char> {
    "if let Some(ref j) = self."@ + p.ident + " {\nif (*j as i64) "@ + op + " "@ + i64_literal(x)
        + " {\n"@
}

/// A hard bound: a value beyond it makes `finish` fail with `msg`.
pub open spec fn strict_bound_code(
    p: PropertyView,
    bound: Option<i64>,
    op: Seq<char>,
    msg: Seq<char>,
    name_s: Seq<char>,
) -> Seq<char> {
    match bound {
        Some(x) => bound_guard_code(p, op, x) + "::websocat_api::anyhow::bail!(\n"@ + msg + ", "@
            + debug_str_literal(p.ident) + ", "@ + i64_literal(x) + ", "@ + name_s + ",);\n}\n}\n"@,
        None => Seq::empty(),
    }
}

/// A soft bound: a value beyond it only logs the warning `msg`.
pub open spec fn reasonable_bound_code(
    p: PropertyView,
    bound: Option<i64>,
    op: Seq<char>,
    msg: Seq<char>,
    name_s: Seq<char>,
) -> Seq<char> {
    match bound {
        Some(x) => bound_guard_code(p, op, x) + "::websocat_api::tracing::warn!(\n"@ + msg + ", "@
            + debug_str_literal(p.ident) + ", "@ + name_s + ", "@ + i64_literal(x) + ",);\n}\n}\n"@,
        None => Seq::empty(),
    }
}

/// All of `finish`'s checks for one property, in the order the derive emits them.
pub open spec fn check_code(p: PropertyView, name_s: Seq<char>) -> Seq<char> {
    presence_check_code(p, name_s) + strict_bound_code(
        p,
        p.strict_min,
        "<"@,
        "\"Property `{}` must not be less than `{}` in node of type `{}`\""@,
        name_s,
    ) + strict_bound_code(
        p,
        p.strict_max,
        ">"@,
        "\"Property `{}` must not be more than `{}` in node of type `{}`\""@,
        name_s,
    ) + reasonable_bound_code(
        p,
        p.reasonable_min,
        "<"@,
        "\"Property `{}` in node of type `{}` has suspiciously low value, lower than `{}`\""@,
        name_s,
    ) + reasonable_bound_code(
        p,
        p.reasonable_max,
        ">"@,
        "\"Property `{}` in node of type `{}` has suspiciously high value, higher than `{}`\""@,
        name_s,
    )
}

/// The field initializer for a property in the node built by `finish`.
pub open spec fn field_init_code(p: PropertyView) -> Seq<char> {
    if stored_directly(p) {
        p.ident + ": self."@ + p.ident + ".unwrap(),\n"@
    } else {
        p.ident + ": self."@ + p.ident + ",\n"@
    }
}

/// The `set_property` match arm for a property.
pub open spec fn matcher_code(p: PropertyView) -> Seq<char> {
    if p.typ != PropertyValueTypeTag::Enummy {
        "("@ + debug_str_literal(p.ident) + ", ::websocat_api::PropertyValue::"@ + tag_ident(p.typ)
            + "(n)) => self."@ + p.ident + " = ::std::option::Option::Some(n),\n"@
    } else {
        "("@ + debug_str_literal(p.ident) + ", ::websocat_api::PropertyValue::Enummy(sym)) => self."@
            + p.ident + " = ::std::option::Option::Some({\n<"@ + p.enumname.unwrap()
            + " as ::websocat_api::Enum>::index_to_variant(sym)\n}),\n"@
    }
}

/// The body of `push_array_element`.
pub open spec fn push_array_code(a: Option<PropertyView>) -> Seq<char> {
    match a {
        Some(p) => if p.typ != PropertyValueTypeTag::Enummy {
            "match val {\n::websocat_api::PropertyValue::"@ + tag_ident(p.typ) + "(x) => self."@ + p.ident
                + ".push(x),\n_ => ::websocat_api::anyhow::bail!(\"Attempt to push wrong valued element to node's array\"),\n}\nOk(())"@
        } else {
            "match val {\n::websocat_api::PropertyValue::Enummy(sym) => self."@ + p.ident + ".push(<"@
                + p.enumname.unwrap()
                + " as ::websocat_api::Enum>::index_to_variant(sym)),\n_ => ::websocat_api::anyhow::bail!(\"Attempt to push wrong valued element to node's array\"),\n}\nOk(())"@
        },
        None => "::websocat_api::anyhow::bail!(\"No array elements are expected here\");"@,
    }
}

/// The initializer of the array field, if the class has one.
pub open spec fn array_field_init_code(a: Option<PropertyView>) -> Seq<char> {
    match a {
        Some(p) => p.ident + ": self."@ + p.ident + ",\n"@,
        None => Seq::empty(),
    }
}

/// Ignored fields get their default value.
pub open spec fn ignored_init_code(f: Seq<char>) -> Seq<char> {
    f + ": ::std::default::Default::default(),\n"@
}

/// Classes marked `validate` run their own `validate` on the built node.
pub open spec fn validate_code(v: bool) -> Seq<char> {
    if v {
        "x.validate()?;\n"@
    } else {
        Seq::empty()
    }
}

/// The `NodeInProgressOfParsing` impl for the builder of the class.
pub open spec fn builder_impl_code(ci: ClassView) -> Seq<char> {
    let name_s = debug_str_literal(ci.name);
    "impl ::websocat_api::NodeInProgressOfParsing for "@ + ci.name
        + "Builder {\n#[allow(unreachable_code)]\nfn set_property(&mut self, name: &str, val: ::websocat_api::PropertyValue) -> ::websocat_api::Result<()> {\nmatch (name, val) {\n"@
        + concat_map(ci.properties, |p: PropertyView| matcher_code(p))
        + "_ => ::websocat_api::anyhow::bail!(\"Unknown property {} or wrong type\", name),\n}\nOk(())\n}\nfn push_array_element(&mut self, val: ::websocat_api::PropertyValue) -> ::websocat_api::Result<()> {\n"@
        + push_array_code(ci.array_type)
        + "\n}\nfn finish(mut self: Box<Self>) -> ::websocat_api::Result<websocat_api::DDataNode> {\n"@
        + concat_map(ci.properties, |p: PropertyView| check_code(p, name_s)) + "let mut x = "@ + ci.name
        + " {\n"@ + concat_map(ci.properties, |p: PropertyView| field_init_code(p))
        + array_field_init_code(ci.array_type) + concat_map(
        ci.ignored_fields,
        |f: Seq<char>| ignored_init_code(f),
    ) + "};\n"@ + validate_code(ci.validate)
        + "::std::result::Result::Ok(::std::sync::Arc::pin(\nx\n))\n}\n}\n"@
}

fn presence_check_text(p: &PropertyInfo, name_s: &String) -> (r: String)
    ensures
        r@ == presence_check_code(p@, name_s@),
{
    if !p.optional || p.default.is_some() {
        match &p.default {
            None => {
                let mut s = "if self.".to_owned();
                s.append(p.ident.as_str());
                s.append(
                    ".is_none() {\n::websocat_api::anyhow::bail!(\"Property `{}` must be set in node of type `{}`\", ",
                );
                let pn_s = str_literal(p.ident.as_str());
                s.append(pn_s.as_str());
                s.append(", ");
                s.append(name_s.as_str());
                s.append(",);\n}\n");
                s
            },
            Some(def) => {
                let mut s = "if self.".to_owned();
                s.append(p.ident.as_str());
                s.append(".is_none() {\nself.");
                s.append(p.ident.as_str());
                s.append(" = Some(");
                s.append(def.as_str());
                s.append(");\n}\n");
                s
            },
        }
    } else {
        String::new()
    }
}

fn bound_guard_text(p: &PropertyInfo, op: &str, x: i64) -> (r: String)
    ensures
        r@ == bound_guard_code(p@, op@, x),
{
    let mut s = "if let Some(ref j) = self.".to_owned();
    s.append(p.ident.as_str());
    s.append(" {\nif (*j as i64) ");
    s.append(op);
    s.append(" ");
    push_i64_literal(&mut s, x);
    s.append(" {\n");
    s
}

fn strict_bound_text(p: &PropertyInfo, bound: Option<i64>, op: &str, msg: &str, name_s: &String) -> (r: String)
    ensures
        r@ == strict_bound_code(p@, bound, op@, msg@, name_s@),
{
    match bound {
        Some(x) => {
            let mut s = bound_guard_text(p, op, x);
            s.append("::websocat_api::anyhow::bail!(\n");
            s.append(msg);
            s.append(", ");
            let pn_s = str_literal(p.ident.as_str());
            s.append(pn_s.as_str());
            s.append(", ");
            push_i64_literal(&mut s, x);
            s.append(", ");
            s.append(name_s.as_str());
            s.append(",);\n}\n}\n");
            s
        },
        None => String::new(),
    }
}

fn reasonable_bound_text(p: &PropertyInfo, bound: Option<i64>, op: &str, msg: &str, name_s: &String) -> (r: String)
    ensures
        r@ == reasonable_bound_code(p@, bound, op@, msg@, name_s@),
{
    match bound {
        Some(x) => {
            let mut s = bound_guard_text(p, op, x);
            s.append("::websocat_api::tracing::warn!(\n");
            s.append(msg);
            s.append(", ");
            let pn_s = str_literal(p.ident.as_str());
            s.append(pn_s.as_str());
            s.append(", ");
            s.append(name_s.as_str());
            s.append(", ");
            push_i64_literal(&mut s, x);
            s.append(",);\n}\n}\n");
            s
        },
        None => String::new(),
    }
}

fn check_text(p: &PropertyInfo, name_s: &String) -> (r: String)
    ensures
        r@ == check_code(p@, name_s@),
{
    let mut s = presence_check_text(p, name_s);
    let a = strict_bound_text(
        p,
        p.strict_min,
        "<",
        "\"Property `{}` must not be less than `{}` in node of type `{}`\"",
        name_s,
    );
    s.append(a.as_str());
    let b = strict_bound_text(
        p,
        p.strict_max,
        ">",
        "\"Property `{}` must not be more than `{}` in node of type `{}`\"",
        name_s,
    );
    s.append(b.as_str());
    let c = reasonable_bound_text(
        p,
        p.reasonable_min,
        "<",
        "\"Property `{}` in node of type `{}` has suspiciously low value, lower than `{}`\"",
        name_s,
    );
    s.append(c.as_str());
    let d = reasonable_bound_text(
        p,
        p.reasonable_max,
        ">",
        "\"Property `{}` in node of type `{}` has suspiciously high value, higher than `{}`\"",
        name_s,
    );
    s.append(d.as_str());
    s
}

fn field_init_text(p: &PropertyInfo) -> (r: String)
    ensures
        r@ == field_init_code(p@),
{
    let mut s = p.ident.clone();
    s.append(": self.");
    s.append(p.ident.as_str());
    if !p.optional || p.default.is_some() {
        s.append(".unwrap(),\n");
    } else {
        s.append(",\n");
    }
    s
}

fn matcher_text(p: &PropertyInfo) -> (r: String)
    requires
        property_wf(p@),
    ensures
        r@ == matcher_code(p@),
{
    let mut s = "(".to_owned();
    let pn_s = str_literal(p.ident.as_str());
    s.append(pn_s.as_str());
    if p.typ != PropertyValueTypeTag::Enummy {
        s.append(", ::websocat_api::PropertyValue::");
        s.append(tag_ident_str(p.typ));
        s.append("(n)) => self.");
        s.append(p.ident.as_str());
        s.append(" = ::std::option::Option::Some(n),\n");
    } else {
        s.append(", ::websocat_api::PropertyValue::Enummy(sym)) => self.");
        s.append(p.ident.as_str());
        s.append(" = ::std::option::Option::Some({\n<");
        match &p.enumname {
            Some(e) => s.append(e.as_str()),
            None => vstd::pervasive::unreached(),
        }
        s.append(" as ::websocat_api::Enum>::index_to_variant(sym)\n}),\n");
    }
    s
}

fn push_array_text(a: &Option<PropertyInfo>) -> (r: String)
    requires
        a matches Some(p) ==> property_wf(p@),
    ensures
        r@ == push_array_code(opt_property_view(*a)),
{
    match a {
        Some(p) => {
            if p.typ != PropertyValueTypeTag::Enummy {
                let mut s = "match val {\n::websocat_api::PropertyValue::".to_owned();
                s.append(tag_ident_str(p.typ));
                s.append("(x) => self.");
                s.append(p.ident.as_str());
                s.append(
                    ".push(x),\n_ => ::websocat_api::anyhow::bail!(\"Attempt to push wrong valued element to node's array\"),\n}\nOk(())",
                );
                s
            } else {
                let mut s = "match val {\n::websocat_api::PropertyValue::Enummy(sym) => self.".to_owned();
                s.append(p.ident.as_str());
                s.append(".push(<");
                match &p.enumname {
                    Some(e) => s.append(e.as_str()),
                    None => vstd::pervasive::unreached(),
                }
                s.append(
                    " as ::websocat_api::Enum>::index_to_variant(sym)),\n_ => ::websocat_api::anyhow::bail!(\"Attempt to push wrong valued element to node's array\"),\n}\nOk(())",
                );
                s
            }
        },
        None => "::websocat_api::anyhow::bail!(\"No array elements are expected here\");".to_owned(),
    }
}

/// The per-property sections: set_property arms, finish checks, field initializers.
fn property_sections(props: &Vec<PropertyInfo>, name_s: &String) -> (r: (String, String, String))
    requires
        forall|i: int| 0 <= i < props@.len() ==> property_wf(#[trigger] props@[i]@),
    ensures
        r.0@ == concat_map(properties_view(props@), |p: PropertyView| matcher_code(p)),
        r.1@ == concat_map(properties_view(props@), |p: PropertyView| check_code(p, name_s@)),
        r.2@ == concat_map(properties_view(props@), |p: PropertyView| field_init_code(p)),
{
    let ghost pv = properties_view(props@);
    let ghost fm = |p: PropertyView| matcher_code(p);
    let ghost fc = |p: PropertyView| check_code(p, name_s@);
    let ghost ff = |p: PropertyView| field_init_code(p);
    let mut m = String::new();
    let mut c = String::new();
    let mut f = String::new();
    let mut i: usize = 0;
    while i < props.len()
        invariant
            i <= props@.len(),
            forall|i: int| 0 <= i < props@.len() ==> property_wf(#[trigger] props@[i]@),
            pv == properties_view(props@),
            fm == (|p: PropertyView| matcher_code(p)),
            fc == (|p: PropertyView| check_code(p, name_s@)),
            ff == (|p: PropertyView| field_init_code(p)),
            m@ == concat_map(pv.take(i as int), fm),
            c@ == concat_map(pv.take(i as int), fc),
            f@ == concat_map(pv.take(i as int), ff),
        decreases props@.len() - i,
    {
        let p = &props[i];
        assert(property_wf(props@[i as int]@));
        let pm = matcher_text(p);
        let pc = check_text(p, name_s);
        let pf = field_init_text(p);
        proof {
            lemma_concat_map_step(pv, fm, i as int);
            lemma_concat_map_step(pv, fc, i as int);
            lemma_concat_map_step(pv, ff, i as int);
        }
        m.append(pm.as_str());
        c.append(pc.as_str());
        f.append(pf.as_str());
        i += 1;
    }
    proof {
        lemma_concat_map_all(pv, fm);
        lemma_concat_map_all(pv, fc);
        lemma_concat_map_all(pv, ff);
    }
    (m, c, f)
}

fn ignored_inits_text(fields: &Vec<String>) -> (r: String)
    ensures
        r@ == concat_map(strings_view(fields@), |f: Seq<char>| ignored_init_code(f)),
{
    let ghost sv = strings_view(fields@);
    let ghost g = |f: Seq<char>| ignored_init_code(f);
    let mut s = String::new();
    let mut i: usize = 0;
    while i < fields.len()
        invariant
            i <= fields@.len(),
            sv == strings_view(fields@),
            g == (|f: Seq<char>| ignored_init_code(f)),
            s@ == concat_map(sv.take(i as int), g),
        decreases fields@.len() - i,
    {
        let mut piece = fields[i].clone();
        piece.append(": ::std::default::Default::default(),\n");
        proof {
            lemma_concat_map_step(sv, g, i as int);
        }
        s.append(piece.as_str());
        i += 1;
    }
    proof {
        lemma_concat_map_all(sv, g);
    }
    s
}

impl ClassInfo {
    /// The `NodeInProgressOfParsing` impl of the builder.
    #[allow(non_snake_case)]
    pub fn generate_NodeInProgressOfParsing(&self) -> (r: String)
        requires
            class_wf(self@),
        ensures
            r@ == builder_impl_code(self@),
    {
        proof {
            assert forall|i: int| 0 <= i < self.properties@.len() implies property_wf(
                #[trigger] self.properties@[i]@,
            ) by {
                assert(self@.properties[i] == self.properties@[i]@);
            }
        }
        let name_s = str_literal(self.name.as_str());
        let (matchers, checks, fields) = property_sections(&self.properties, &name_s);
        let mut s = "impl ::websocat_api::NodeInProgressOfParsing for ".to_owned();
        s.append(self.name.as_str());
        s.append(
            "Builder {\n#[allow(unreachable_code)]\nfn set_property(&mut self, name: &str, val: ::websocat_api::PropertyValue) -> ::websocat_api::Result<()> {\nmatch (name, val) {\n",
        );
        s.append(matchers.as_str());
        s.append(
            "_ => ::websocat_api::anyhow::bail!(\"Unknown property {} or wrong type\", name),\n}\nOk(())\n}\nfn push_array_element(&mut self, val: ::websocat_api::PropertyValue) -> ::websocat_api::Result<()> {\n",
        );
        let push = push_array_text(&self.array_type);
        s.append(push.as_str());
        s.append("\n}\nfn finish(mut self: Box<Self>) -> ::websocat_api::Result<websocat_api::DDataNode> {\n");
        s.append(checks.as_str());
        s.append("let mut x = ");
        s.append(self.name.as_str());
        s.append(" {\n");
        s.append(fields.as_str());
        let arr = match &self.array_type {
            Some(p) => {
                let mut a = p.ident.clone();
                a.append(": self.");
                a.append(p.ident.as_str());
                a.append(",\n");
                a
            },
            None => String::new(),
        };
        s.append(arr.as_str());
        let ign = ignored_inits_text(&self.ignored_fields);
        s.append(ign.as_str());
        s.append("};\n");
        if self.validate {
            s.append("x.validate()?;\n");
        } else {
            assert(s@ + validate_code(false) =~= s@);
        }
        s.append("::std::result::Result::Ok(::std::sync::Arc::pin(\nx\n))\n}\n}\n");
        s
    }
}

/// A piece found inside a text made of pieces.
proof fn lemma_contains_piece(a: Seq<char>, pat: Seq<char>, rest: Seq<char>, b: Seq<char>)
    ensures
        contains_sub(a + (pat + rest) + b, pat),
{
    let s = a + (pat + rest) + b;
    assert(s.subrange(a.len() as int, (a.len() + pat.len()) as int) =~= pat);
}

/// The opening of `finish`'s test of property `p`'s value against `x` with
/// the comparison `op`.
pub open spec fn value_test(p: PropertyView, op: Seq<char>, x: i64) -> Seq<char> {
    "if let Some(ref j) = self."@ + p.ident + " {\nif (*j as i64) "@ + op + " "@ + i64_literal(x) + " {\n"@
}

/// `finish` refuses a value beyond a hard bound and only warns beyond a soft
/// one: for each bound a property sets, its checks test the property's value
/// against exactly that bound, and the test leads to a `bail!` saying "must
/// not be less/more than" for `min`/`max`, and to a `warn!` saying
/// "suspiciously low/high" for `reasonable_min`/`reasonable_max`.
pub proof fn lemma_bounds_checked(p: PropertyView, name_s: Seq<char>)
    ensures
        p.strict_min matches Some(x) ==> contains_sub(
            check_code(p, name_s),
            value_test(p, "<"@, x) + "::websocat_api::anyhow::bail!(\n"@
                + "\"Property `{}` must not be less than `{}` in node of type `{}`\""@,
        ),
        p.strict_max matches Some(x) ==> contains_sub(
            check_code(p, name_s),
            value_test(p, ">"@, x) + "::websocat_api::anyhow::bail!(\n"@
                + "\"Property `{}` must not be more than `{}` in node of type `{}`\""@,
        ),
        p.reasonable_min matches Some(x) ==> contains_sub(
            check_code(p, name_s),
            value_test(p, "<"@, x) + "::websocat_api::tracing::warn!(\n"@
                + "\"Property `{}` in node of type `{}` has suspiciously low value, lower than `{}`\""@,
        ),
        p.reasonable_max matches Some(x) ==> contains_sub(
            check_code(p, name_s),
            value_test(p, ">"@, x) + "::websocat_api::tracing::warn!(\n"@
                + "\"Property `{}` in node of type `{}` has suspiciously high value, higher than `{}`\""@,
        ),
{
    let pc = presence_check_code(p, name_s);
    let smin = "\"Property `{}` must not be less than `{}` in node of type `{}`\""@;
    let smax = "\"Property `{}` must not be more than `{}` in node of type `{}`\""@;
    let rmin = "\"Property `{}` in node of type `{}` has suspiciously low value, lower than `{}`\""@;
    let rmax = "\"Property `{}` in node of type `{}` has suspiciously high value, higher than `{}`\""@;
    let s1 = strict_bound_code(p, p.strict_min, "<"@, smin, name_s);
    let s2 = strict_bound_code(p, p.strict_max, ">"@, smax, name_s);
    let r1 = reasonable_bound_code(p, p.reasonable_min, "<"@, rmin, name_s);
    let r2 = reasonable_bound_code(p, p.reasonable_max, ">"@, rmax, name_s);
    assert(check_code(p, name_s) == pc + s1 + s2 + r1 + r2);
    let bail = "::websocat_api::anyhow::bail!(\n"@;
    let warn = "::websocat_api::tracing::warn!(\n"@;
    if let Some(x) = p.strict_min {
        let pat = value_test(p, "<"@, x) + bail + smin;
        let rest = ", "@ + debug_str_literal(p.ident) + ", "@ + i64_literal(x) + ", "@ + name_s + ",);\n}\n}\n"@;
        assert(s1 =~= pat + rest);
        assert(check_code(p, name_s) =~= pc + (pat + rest) + (s2 + r1 + r2));
        lemma_contains_piece(pc, pat, rest, s2 + r1 + r2);
    }
    if let Some(x) = p.strict_max {
        let pat = value_test(p, ">"@, x) + bail + smax;
        let rest = ", "@ + debug_str_literal(p.ident) + ", "@ + i64_literal(x) + ", "@ + name_s + ",);\n}\n}\n"@;
        assert(s2 =~= pat + rest);
        assert(check_code(p, name_s) =~= (pc + s1) + (pat + rest) + (r1 + r2));
        lemma_contains_piece(pc + s1, pat, rest, r1 + r2);
    }
    if let Some(x) = p.reasonable_min {
        let pat = value_test(p, "<"@, x) + warn + rmin;
        let rest = ", "@ + debug_str_literal(p.ident) + ", "@ + name_s + ", "@ + i64_literal(x) + ",);\n}\n}\n"@;
        assert(r1 =~= pat + rest);
        assert(check_code(p, name_s) =~= (pc + s1 + s2) + (pat + rest) + r2);
        lemma_contains_piece(pc + s1 + s2, pat, rest, r2);
    }
    if let Some(x) = p.reasonable_max {
        let pat = value_test(p, ">"@, x) + warn + rmax;
        let rest = ", "@ + debug_str_literal(p.ident) + ", "@ + name_s + ", "@ + i64_literal(x) + ",);\n}\n}\n"@;
        assert(r2 =~= pat + rest);
        assert(check_code(p, name_s) =~= (pc + s1 + s2 + r1) + (pat + rest) + Seq::<char>::empty());
        lemma_contains_piece(pc + s1 + s2 + r1, pat, rest, Seq::<char>::empty());
    }
}

} // verus!
