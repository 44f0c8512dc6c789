//! Reading attributes: documentation lines and representation markers.

use crate::error::{Error, ErrorView};
use crate::syntax::{Attribute, Literal, NestedMeta, Path, single_ident};
use crate::text::{lemma_concat_assoc, texts, trim, trimmed};
use crate::writer::{line, line_text};
use vstd::prelude::*;
use vstd::string::*;

verus! {

/// Whether a path is the single identifier `name`.
pub open spec fn is_named(path: Path, name: Seq<char>) -> bool {
    single_ident(path) is Some && single_ident(path).unwrap().name@ == name
}

/// The failure that reading an attribute gives, if it is malformed.
pub open spec fn attribute_error(attr: Attribute) -> Option<ErrorView> {
    match attr {
        Attribute::Malformed(message, position) => Some(
            ErrorView::ParseError(message@, position),
        ),
        _ => None,
    }
}

/// The documentation line that an attribute holds: the text of `#[doc = "text"]`.
pub open spec fn doc_line(attr: Attribute) -> Option<Seq<char>> {
    match attr {
        Attribute::NameValue(path, Literal::Text(text)) => if is_named(path, "doc"@) {
            Some(text@)
        } else {
            None
        },
        _ => None,
    }
}

/// The documentation lines among the first `n` attributes, in order; the
/// failure of the first malformed attribute among them, if there is one.
pub open spec fn outer_docs(attrs: Seq<Attribute>, n: nat) -> Result<Seq<Seq<char>>, ErrorView>
    decreases n,
{
    if n == 0 || n > attrs.len() {
        Ok(Seq::empty())
    } else {
        match outer_docs(attrs, (n - 1) as nat) {
            Err(e) => Err(e),
            Ok(before) => if attribute_error(attrs[n - 1]) is Some {
                Err(attribute_error(attrs[n - 1]).unwrap())
            } else if doc_line(attrs[n - 1]) is Some {
                Ok(before.push(doc_line(attrs[n - 1]).unwrap()))
            } else {
                Ok(before)
            },
        }
    }
}

/// The documentation lines of a list of attributes.
pub open spec fn docs_of(attrs: Seq<Attribute>) -> Result<Seq<Seq<char>>, ErrorView> {
    outer_docs(attrs, attrs.len())
}

/// One comment line for each of the first `n` documentation lines, trimmed.
pub open spec fn summary_lines(docs: Seq<Seq<char>>, n: nat, level: nat) -> Seq<char>
    decreases n,
{
    if n == 0 || n > docs.len() {
        Seq::empty()
    } else {
        summary_lines(docs, (n - 1) as nat, level) + line("/// "@ + trimmed(docs[n - 1]), level)
    }
}

/// The summary block for documentation lines: nothing if there are none, else
/// the lines between an opening and a closing tag.
pub open spec fn summary(docs: Seq<Seq<char>>, level: nat) -> Seq<char> {
    if docs.len() == 0 {
        Seq::empty()
    } else {
        line("/// <summary>"@, level) + summary_lines(docs, docs.len(), level) + line(
            "/// </summary>"@,
            level,
        )
    }
}

/// The path that a representation attribute names first: `p` in
/// `#[repr(p, ..)]`. An attribute of another shape or name gives none, and a
/// malformed one its failure.
pub open spec fn repr_marker(attr: Attribute) -> Result<Option<Path>, ErrorView> {
    match attr {
        Attribute::Malformed(message, position) => Err(ErrorView::ParseError(message@, position)),
        Attribute::List(path, nested) => if is_named(path, "repr"@) && nested.len() > 0 {
            match nested[0] {
                NestedMeta::Path(p) => Ok(Some(p)),
                NestedMeta::Other => Ok(None),
            }
        } else {
            Ok(None)
        },
        _ => Ok(None),
    }
}

/// Once the first `n` attributes hold a malformed one, the first `m` fail in
/// the same way, for any `m` from `n` on.
pub proof fn lemma_outer_docs_fails(attrs: Seq<Attribute>, n: nat, m: nat)
    requires
        n <= m <= attrs.len(),
        outer_docs(attrs, n) is Err,
    ensures
        outer_docs(attrs, m) == outer_docs(attrs, n),
    decreases m,
{
    if n < m {
        lemma_outer_docs_fails(attrs, n, (m - 1) as nat);
    }
}

/// Whether a path is the single identifier `name`.
pub fn path_is(path: &Path, name: &str) -> (r: bool)
    ensures
        r == is_named(*path, name@),
{
    match path.get_ident() {
        Some(ident) => ident.name.as_str().eq(name),
        None => false,
    }
}

/// The documentation lines attached by the given attributes.
pub fn extract_outer_docs(attrs: &Vec<Attribute>) -> (r: Result<Vec<String>, Error>)
    ensures
        match r {
            Ok(v) => docs_of(attrs@) == Ok::<Seq<Seq<char>>, ErrorView>(texts(v@)),
            Err(e) => docs_of(attrs@) == Err::<Seq<Seq<char>>, ErrorView>(e@),
        },
{
    let mut v: Vec<String> = Vec::new();
    let mut i: usize = 0;
    assert(texts(v@) =~= Seq::empty());
    while i < attrs.len()
        invariant
            i <= attrs.len(),
            outer_docs(attrs@, i as nat) == Ok::<Seq<Seq<char>>, ErrorView>(texts(v@)),
        decreases attrs.len() - i,
    {
        match &attrs[i] {
            Attribute::Malformed(message, position) => {
                proof {
                    lemma_outer_docs_fails(attrs@, (i + 1) as nat, attrs.len() as nat);
                }
                return Err(Error::ParseError(message.clone(), *position));
            },
            Attribute::NameValue(path, Literal::Text(text)) => {
                if path_is(path, "doc") {
                    let ghost before = texts(v@);
                    v.push(text.clone());
                    assert(texts(v@) =~= before.push(text@));
                }
            },
            _ => {},
        }
        i = i + 1;
    }
    Ok(v)
}

/// The summary block for documentation lines, as a string.
pub fn summary_text(outer_docs: &Vec<String>, indents: usize) -> (r: String)
    ensures
        r@ == summary(texts(outer_docs@), indents as nat),
{
    let mut r = String::new();
    if outer_docs.len() > 0 {
        let ghost docs = texts(outer_docs@);
        r.append(line_text("/// <summary>", indents).as_str());
        let ghost head = r@;
        let mut i: usize = 0;
        assert(r@ =~= head + summary_lines(docs, 0, indents as nat));
        while i < outer_docs.len()
            invariant
                i <= outer_docs.len(),
                docs == texts(outer_docs@),
                r@ == head + summary_lines(docs, i as nat, indents as nat),
            decreases outer_docs.len() - i,
        {
            let mut content = String::from_str("/// ");
            content.append(trim(outer_docs[i].as_str()).as_str());
            let l = line_text(content.as_str(), indents);
            proof {
                lemma_concat_assoc(head, summary_lines(docs, i as nat, indents as nat), l@);
            }
            r.append(l.as_str());
            i = i + 1;
        }
        r.append(line_text("/// </summary>", indents).as_str());
        assert(head =~= line("/// <summary>"@, indents as nat));
    }
    r
}

/// Appends the summary block for documentation lines to `out`.
pub fn write_summary_from_outer_docs(out: &mut String, outer_docs: &Vec<String>, indents: usize)
    ensures
        final(out)@ == old(out)@ + summary(texts(outer_docs@), indents as nat),
{
    out.append(summary_text(outer_docs, indents).as_str());
}

/// The path that a representation attribute names first.
pub fn get_repr_attribute_value(attr: &Attribute) -> (r: Result<Option<&Path>, Error>)
    ensures
        match r {
            Ok(Some(p)) => repr_marker(*attr) == Ok::<Option<Path>, ErrorView>(Some(*p)),
            Ok(None) => repr_marker(*attr) == Ok::<Option<Path>, ErrorView>(None),
            Err(e) => repr_marker(*attr) == Err::<Option<Path>, ErrorView>(e@),
        },
{
    match attr {
        Attribute::Malformed(message, position) => Err(
            Error::ParseError(message.clone(), *position),
        ),
        Attribute::List(path, nested) => {
            if path_is(path, "repr") && nested.len() > 0 {
                match &nested[0] {
                    NestedMeta::Path(p) => Ok(Some(p)),
                    NestedMeta::Other => Ok(None),
                }
            } else {
                Ok(None)
            }
        },
        _ => Ok(None),
    }
}

} // verus!
