//! Lowering an enumeration with a fixed-width representation.

use crate::config::{CSharpConfiguration, Context, Scope, TypeIdentity, context_of};
use crate::docs::{
    docs_of, extract_outer_docs, get_repr_attribute_value, repr_marker, summary, summary_text,
};
use crate::error::{Error, ErrorView};
use crate::resolve::{integer_name, integer_type};
use crate::syntax::{Attribute, Discriminant, Enumeration, Literal, Variant, single_ident};
use crate::text::{clone_opt, opt_text};
use crate::writer::{line, line_text};
use vstd::prelude::*;
use vstd::string::*;

verus! {

/// The message for an enumeration whose representation has no fixed width.
pub open spec fn unsized_message() -> Seq<char> {
    "The size of a repr[C] enum is not specifically defined. Please use repr[u*] to define an actual size"@
}

/// What one attribute says of the width of an enumeration, after `before` was
/// found in the attributes ahead of it. The marker `C` fails, the name of an
/// integer type gives its managed type, and anything else leaves `before`.
pub open spec fn width_step(attr: Attribute, before: Option<Seq<char>>, version: u8) -> Result<
    Option<Seq<char>>,
    ErrorView,
> {
    match repr_marker(attr) {
        Err(e) => Err(e),
        Ok(None) => Ok(before),
        Ok(Some(path)) => match single_ident(path) {
            None => Ok(before),
            Some(ident) => if ident.name@ == "C"@ {
                Err(ErrorView::UnsupportedError(unsized_message(), ident.position))
            } else if integer_type(ident.name@, version) is Some {
                Ok(integer_type(ident.name@, version))
            } else {
                Ok(before)
            },
        },
    }
}

/// The managed integer type that the first `n` attributes select for an
/// enumeration: that of the last width marker among them, if there is one.
pub open spec fn enum_width(attrs: Seq<Attribute>, n: nat, version: u8) -> Result<
    Option<Seq<char>>,
    ErrorView,
>
    decreases n,
{
    if n == 0 || n > attrs.len() {
        Ok(None)
    } else {
        match enum_width(attrs, (n - 1) as nat, version) {
            Err(e) => Err(e),
            Ok(before) => width_step(attrs[n - 1], before, version),
        }
    }
}

/// The assignment written after the name of a variant: its integer literal,
/// as it was written in base ten; nothing for a variant without one.
pub open spec fn discriminant_text(d: Option<Discriminant>) -> Seq<char> {
    match d {
        Some(Discriminant::Literal(Literal::Integer(digits))) => " = "@ + digits@,
        _ => Seq::empty(),
    }
}

/// The text of one variant: its summary and its line. A variant with fields fails.
pub open spec fn variant_text(v: Variant, level: nat) -> Result<Seq<char>, ErrorView> {
    if v.has_fields {
        Err(
            ErrorView::UnsupportedError(
                "Enum with values with fields is not supported"@,
                v.position,
            ),
        )
    } else {
        match docs_of(v.attrs@) {
            Err(e) => Err(e),
            Ok(docs) => Ok(
                summary(docs, level) + line(
                    v.ident.name@ + discriminant_text(v.discriminant) + ","@,
                    level,
                ),
            ),
        }
    }
}

/// The text of the first `n` variants, or the first failure among them.
pub open spec fn variants_text(variants: Seq<Variant>, n: nat, level: nat) -> Result<
    Seq<char>,
    ErrorView,
>
    decreases n,
{
    if n == 0 || n > variants.len() {
        Ok(Seq::empty())
    } else {
        match variants_text(variants, (n - 1) as nat, level) {
            Err(e) => Err(e),
            Ok(before) => match variant_text(variants[n - 1], level) {
                Ok(t) => Ok(before + t),
                Err(e) => Err(e),
            },
        }
    }
}

/// The text that an enumeration lowers to; none if no attribute gives it a
/// width, in which case it is passed over.
pub open spec fn enumeration_text(e: Enumeration, context: Context, level: nat) -> Result<
    Option<Seq<char>>,
    ErrorView,
> {
    match enum_width(e.attrs@, e.attrs.len() as nat, context.version) {
        Err(err) => Err(err),
        Ok(None) => Ok(None),
        Ok(Some(width)) => match docs_of(e.attrs@) {
            Err(err) => Err(err),
            Ok(docs) => match variants_text(e.variants@, e.variants.len() as nat, level + 1) {
                Err(err) => Err(err),
                Ok(body) => Ok(
                    Some(
                        summary(docs, level) + line(
                            "public enum "@ + e.ident.name@ + " : "@ + width,
                            level,
                        ) + line("{"@, level) + body + line("}"@, level) + "\n"@,
                    ),
                ),
            },
        },
    }
}

/// Where a type lives that is declared under its own name in the namespace
/// and enclosing type of a context.
pub open spec fn declared_here(context: Context, name: Seq<char>) -> TypeIdentity {
    TypeIdentity { namespace: context.namespace, enclosing: context.enclosing_type, name }
}

/// Once the first `n` attributes fail, so do the first `m`, for any `m` from
/// `n` on, with the same error.
pub proof fn lemma_enum_width_fails(attrs: Seq<Attribute>, n: nat, m: nat, version: u8)
    requires
        n <= m <= attrs.len(),
        enum_width(attrs, n, version) is Err,
    ensures
        enum_width(attrs, m, version) == enum_width(attrs, n, version),
    decreases m,
{
    if n < m {
        lemma_enum_width_fails(attrs, n, (m - 1) as nat, version);
    }
}

/// Once the first `n` variants fail, so do the first `m`, for any `m` from
/// `n` on, with the same error.
pub proof fn lemma_variants_text_fails(variants: Seq<Variant>, n: nat, m: nat, level: nat)
    requires
        n <= m <= variants.len(),
        variants_text(variants, n, level) is Err,
    ensures
        variants_text(variants, m, level) == variants_text(variants, n, level),
    decreases m,
{
    if n < m {
        lemma_variants_text_fails(variants, n, (m - 1) as nat, level);
    }
}

/// The managed integer type that the attributes select for an enumeration.
pub fn find_width(attrs: &Vec<Attribute>, version: u8) -> (r: Result<Option<String>, Error>)
    ensures
        match r {
            Ok(w) => enum_width(attrs@, attrs.len() as nat, version) == Ok::<
                Option<Seq<char>>,
                ErrorView,
            >(opt_text(w)),
            Err(e) => enum_width(attrs@, attrs.len() as nat, version) == Err::<
                Option<Seq<char>>,
                ErrorView,
            >(e@),
        },
{
    let mut width: Option<String> = None;
    let mut i: usize = 0;
    while i < attrs.len()
        invariant
            i <= attrs.len(),
            enum_width(attrs@, i as nat, version) == Ok::<Option<Seq<char>>, ErrorView>(
                opt_text(width),
            ),
        decreases attrs.len() - i,
    {
        match get_repr_attribute_value(&attrs[i]) {
            Err(e) => {
                proof {
                    lemma_enum_width_fails(attrs@, (i + 1) as nat, attrs.len() as nat, version);
                }
                return Err(e);
            },
            Ok(None) => {},
            Ok(Some(path)) => match path.get_ident() {
                None => {},
                Some(ident) => {
                    if ident.name.as_str().eq("C") {
                        proof {
                            lemma_enum_width_fails(
                                attrs@,
                                (i + 1) as nat,
                                attrs.len() as nat,
                                version,
                            );
                        }
                        return Err(
                            Error::UnsupportedError(
                                String::from_str(
                                    "The size of a repr[C] enum is not specifically defined. Please use repr[u*] to define an actual size",
                                ),
                                ident.position,
                            ),
                        );
                    }
                    if let Some(managed) = integer_name(ident.name.as_str(), version) {
                        width = Some(String::from_str(managed));
                    }
                },
            },
        }
        i = i + 1;
    }
    Ok(width)
}

/// The text of one variant.
pub fn convert_variant(v: &Variant, indents: usize) -> (r: Result<String, Error>)
    ensures
        match r {
            Ok(t) => variant_text(*v, indents as nat) == Ok::<Seq<char>, ErrorView>(t@),
            Err(e) => variant_text(*v, indents as nat) == Err::<Seq<char>, ErrorView>(e@),
        },
{
    if v.has_fields {
        return Err(
            Error::UnsupportedError(
                String::from_str("Enum with values with fields is not supported"),
                v.position,
            ),
        );
    }
    let docs = match extract_outer_docs(&v.attrs) {
        Ok(docs) => docs,
        Err(e) => {
            return Err(e);
        },
    };
    let mut text = summary_text(&docs, indents);
    let mut content = v.ident.name.clone();
    match &v.discriminant {
        Some(Discriminant::Literal(Literal::Integer(digits))) => {
            let mut assignment = String::from_str(" = ");
            assignment.append(digits.as_str());
            content.append(assignment.as_str());
        },
        _ => {
            assert(content@ + Seq::<char>::empty() =~= content@);
        },
    }
    content.append(",");
    text.append(line_text(content.as_str(), indents).as_str());
    Ok(text)
}

/// The text of the variants of an enumeration, in order.
pub fn convert_variants(variants: &Vec<Variant>, indents: usize) -> (r: Result<String, Error>)
    ensures
        match r {
            Ok(t) => variants_text(variants@, variants.len() as nat, indents as nat) == Ok::<
                Seq<char>,
                ErrorView,
            >(t@),
            Err(e) => variants_text(variants@, variants.len() as nat, indents as nat) == Err::<
                Seq<char>,
                ErrorView,
            >(e@),
        },
{
    let mut body = String::new();
    let mut i: usize = 0;
    while i < variants.len()
        invariant
            i <= variants.len(),
            variants_text(variants@, i as nat, indents as nat) == Ok::<Seq<char>, ErrorView>(
                body@,
            ),
        decreases variants.len() - i,
    {
        match convert_variant(&variants[i], indents) {
            Ok(t) => {
                body.append(t.as_str());
            },
            Err(e) => {
                proof {
                    lemma_variants_text_fails(
                        variants@,
                        (i + 1) as nat,
                        variants.len() as nat,
                        indents as nat,
                    );
                }
                return Err(e);
            },
        }
        i = i + 1;
    }
    Ok(body)
}

/// Appends to `out` what an enumeration lowers to, and registers it under its
/// own name. An enumeration without a width, or one that fails, leaves `out`
/// and the configuration as they were.
pub fn write_enum(
    out: &mut String,
    indents: usize,
    en: &Enumeration,
    scope: &Scope,
    configuration: &mut CSharpConfiguration,
) -> (r: Result<(), Error>)
    requires
        indents < usize::MAX,
    ensures
        final(configuration).banner() == old(configuration).banner(),
        match enumeration_text(*en, context_of(*scope, *old(configuration)), indents as nat) {
            Ok(Some(text)) => {
                &&& r is Ok
                &&& final(out)@ == old(out)@ + text
                &&& context_of(*scope, *final(configuration)) == context_of(
                    *scope,
                    *old(configuration),
                ).with(
                    en.ident.name@,
                    declared_here(context_of(*scope, *old(configuration)), en.ident.name@),
                )
            },
            Ok(None) => {
                &&& r is Ok
                &&& final(out)@ == old(out)@
                &&& context_of(*scope, *final(configuration)) == context_of(
                    *scope,
                    *old(configuration),
                )
            },
            Err(e) => {
                &&& r is Err
                &&& r.unwrap_err()@ == e
                &&& final(out)@ == old(out)@
                &&& context_of(*scope, *final(configuration)) == context_of(
                    *scope,
                    *old(configuration),
                )
            },
        },
{
    let width = match find_width(&en.attrs, configuration.csharp_version()) {
        Err(e) => {
            return Err(e);
        },
        Ok(None) => {
            return Ok(());
        },
        Ok(Some(width)) => width,
    };
    let docs = match extract_outer_docs(&en.attrs) {
        Ok(docs) => docs,
        Err(e) => {
            return Err(e);
        },
    };
    let body = match convert_variants(&en.variants, indents + 1) {
        Ok(body) => body,
        Err(e) => {
            return Err(e);
        },
    };
    let mut text = summary_text(&docs, indents);
    let mut header = String::from_str("public enum ");
    header.append(en.ident.name.as_str());
    header.append(" : ");
    header.append(width.as_str());
    text.append(line_text(header.as_str(), indents).as_str());
    text.append(line_text("{", indents).as_str());
    text.append(body.as_str());
    text.append(line_text("}", indents).as_str());
    text.append("\n");
    out.append(text.as_str());
    configuration.add_known_type(
        en.ident.name.as_str(),
        clone_opt(&scope.namespace),
        clone_opt(&scope.enclosing_type),
        en.ident.name.clone(),
    );
    Ok(())
}

} // verus!
