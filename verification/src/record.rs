//! Lowering a record with the sequential native layout.

use crate::config::{CSharpConfiguration, Context, Scope, MODERN_VERSION, context_of};
use crate::docs::{
    docs_of, extract_outer_docs, get_repr_attribute_value, repr_marker, summary, summary_text,
};
use crate::enumeration::declared_here;
use crate::error::{Error, ErrorView, agrees};
use crate::naming::{convert_naming, pascal_case};
use crate::resolve::{
    ResolvedType, TypeNameContainer, convert_type_name, plain, rendered, resolve_type,
};
use crate::syntax::{Attribute, Field, GenericParam, Record, TypeNode, single_ident};
use crate::text::{clone_opt, decapitalize, decapitalized, joined, joined_prefix, texts};
use crate::writer::{line, line_text};
use vstd::prelude::*;
use vstd::string::*;

verus! {

/// A lowered field: the managed text of its type and its managed name.
pub struct MemberView {
    pub declared: Seq<char>,
    pub name: Seq<char>,
}

/// A lowered field.
#[derive(Debug)]
pub struct Member {
    pub declared: String,
    pub name: String,
}

impl View for Member {
    type V = MemberView;

    open spec fn view(&self) -> MemberView {
        MemberView { declared: self.declared@, name: self.name@ }
    }
}

/// The views of a sequence of lowered fields.
pub open spec fn members_of(items: Seq<Member>) -> Seq<MemberView> {
    items.map_values(|m: Member| m@)
}

/// The view of an optional lowered field.
pub open spec fn opt_member(m: Option<Member>) -> Option<MemberView> {
    match m {
        Some(m) => Some(m@),
        None => None,
    }
}

/// Whether an attribute is the marker of the sequential native layout, `#[repr(C)]`.
pub open spec fn layout_step(attr: Attribute) -> Result<bool, ErrorView> {
    match repr_marker(attr) {
        Err(e) => Err(e),
        Ok(None) => Ok(false),
        Ok(Some(path)) => match single_ident(path) {
            None => Ok(false),
            Some(ident) => Ok(ident.name@ == "C"@),
        },
    }
}

/// Whether one of the first `n` attributes is the marker of the sequential
/// native layout; the failure of the first malformed attribute among them, if
/// there is one.
pub open spec fn has_native_layout(attrs: Seq<Attribute>, n: nat) -> Result<bool, ErrorView>
    decreases n,
{
    if n == 0 || n > attrs.len() {
        Ok(false)
    } else {
        match has_native_layout(attrs, (n - 1) as nat) {
            Err(e) => Err(e),
            Ok(before) => match layout_step(attrs[n - 1]) {
                Ok(found) => Ok(before || found),
                Err(e) => Err(e),
            },
        }
    }
}

/// The names of the type parameters among the first `n` generic parameters,
/// each once, in the order they are declared in.
pub open spec fn type_parameters(generics: Seq<GenericParam>, n: nat) -> Seq<Seq<char>>
    decreases n,
{
    if n == 0 || n > generics.len() {
        Seq::empty()
    } else {
        let before = type_parameters(generics, (n - 1) as nat);
        match generics[n - 1] {
            GenericParam::Type(ident) => if before.contains(ident.name@) {
                before
            } else {
                before.push(ident.name@)
            },
            GenericParam::Other => before,
        }
    }
}

/// The list of type parameters after the name of a record; nothing if it has none.
pub open spec fn parameter_list(params: Seq<Seq<char>>) -> Seq<char> {
    if params.len() == 0 {
        Seq::empty()
    } else {
        "<"@ + joined(params, ", "@) + ">"@
    }
}

/// The type parameter of the record that a field's type names, if it is
/// nothing but that name.
pub open spec fn own_parameter(ty: TypeNode, params: Seq<Seq<char>>) -> Option<Seq<char>> {
    match ty {
        TypeNode::Path(path) => match single_ident(path) {
            Some(ident) => if params.contains(ident.name@) {
                Some(ident.name@)
            } else {
                None
            },
            None => None,
        },
        _ => None,
    }
}

/// The type of a field: a type parameter of the record stays as it is, any
/// other type is resolved.
pub open spec fn field_type(field: Field, params: Seq<Seq<char>>, context: Context) -> Result<
    ResolvedType,
    ErrorView,
> {
    match own_parameter(field.ty, params) {
        Some(name) => Ok(plain(name, name)),
        None => resolve_type(field.ty, context),
    }
}

/// The declaration of a field: an immutable field before [`MODERN_VERSION`],
/// an initialisation-only property from it on.
pub open spec fn member_line(m: MemberView, version: u8, level: nat) -> Seq<char> {
    if version >= MODERN_VERSION {
        line("public "@ + m.declared + " "@ + m.name + " { get; init; }"@, level)
    } else {
        line("public readonly "@ + m.declared + " "@ + m.name + ";"@, level)
    }
}

/// What a field lowers to: its text, and the member it declares if it has a name.
pub struct FieldView {
    pub text: Seq<char>,
    pub member: Option<MemberView>,
}

/// What one field lowers to: its summary, a remark with the native name of its
/// type and, if it has a name, its declaration.
pub open spec fn lowered_field(
    field: Field,
    params: Seq<Seq<char>>,
    context: Context,
    level: nat,
) -> Result<FieldView, ErrorView> {
    match field_type(field, params, context) {
        Err(e) => Err(e),
        Ok(t) => match docs_of(field.attrs@) {
            Err(e) => Err(e),
            Ok(docs) => {
                let head = summary(docs, level) + line(
                    "/// <remarks>"@ + t.native + "</remarks>"@,
                    level,
                );
                match field.ident {
                    None => Ok(FieldView { text: head, member: None }),
                    Some(ident) => {
                        let m = MemberView {
                            declared: rendered(t),
                            name: pascal_case(ident.name@),
                        };
                        Ok(
                            FieldView {
                                text: head + member_line(m, context.version, level),
                                member: Some(m),
                            },
                        )
                    },
                }
            },
        }
    }
}

/// What the fields of a record lower to: their text, and the members they declare.
pub struct FieldsView {
    pub text: Seq<char>,
    pub members: Seq<MemberView>,
}

/// What the first `n` fields lower to, or the first failure among them.
pub open spec fn lowered_fields(
    fields: Seq<Field>,
    n: nat,
    params: Seq<Seq<char>>,
    context: Context,
    level: nat,
) -> Result<FieldsView, ErrorView>
    decreases n,
{
    if n == 0 || n > fields.len() {
        Ok(FieldsView { text: Seq::empty(), members: Seq::empty() })
    } else {
        match lowered_fields(fields, (n - 1) as nat, params, context, level) {
            Err(e) => Err(e),
            Ok(before) => match lowered_field(fields[n - 1], params, context, level) {
                Err(e) => Err(e),
                Ok(f) => Ok(
                    FieldsView {
                        text: before.text + f.text,
                        members: match f.member {
                            Some(m) => before.members.push(m),
                            None => before.members,
                        },
                    },
                ),
            },
        }
    }
}

/// Each member as a parameter of the constructor: its type, then its name
/// with the first letter in lower case.
pub open spec fn member_parameters(members: Seq<MemberView>) -> Seq<Seq<char>> {
    members.map_values(|m: MemberView| m.declared + " "@ + decapitalized(m.name))
}

/// One assignment for each of the first `n` members, from its parameter.
pub open spec fn assignments(members: Seq<MemberView>, n: nat, level: nat) -> Seq<char>
    decreases n,
{
    if n == 0 || n > members.len() {
        Seq::empty()
    } else {
        assignments(members, (n - 1) as nat, level) + line(
            members[n - 1].name + " = "@ + decapitalized(members[n - 1].name) + ";"@,
            level,
        )
    }
}

/// The constructor of a record: one parameter for each member, assigned to it.
pub open spec fn constructor_text(name: Seq<char>, members: Seq<MemberView>, level: nat) -> Seq<
    char,
> {
    line("public "@ + name + "("@ + joined(member_parameters(members), ", "@) + ")"@, level)
        + line("{"@, level) + assignments(members, members.len(), level + 1) + line("}"@, level)
}

/// The text that a record lowers to; none if it lacks the marker of the
/// sequential native layout, in which case it is passed over.
pub open spec fn record_text(r: Record, context: Context, level: nat) -> Result<
    Option<Seq<char>>,
    ErrorView,
> {
    match has_native_layout(r.attrs@, r.attrs.len() as nat) {
        Err(e) => Err(e),
        Ok(false) => Ok(None),
        Ok(true) => match docs_of(r.attrs@) {
            Err(e) => Err(e),
            Ok(docs) => {
                let params = type_parameters(r.generics@, r.generics.len() as nat);
                match lowered_fields(r.fields@, r.fields.len() as nat, params, context, level + 1) {
                    Err(e) => Err(e),
                    Ok(fields) => Ok(
                        Some(
                            summary(docs, level) + line(
                                "[StructLayout(LayoutKind.Sequential, CharSet = CharSet.Unicode)]"@,
                                level,
                            ) + line(
                                "public struct "@ + r.ident.name@ + parameter_list(params),
                                level,
                            ) + line("{"@, level) + fields.text + "\n"@ + constructor_text(
                                r.ident.name@,
                                fields.members,
                                level + 1,
                            ) + line("}"@, level) + "\n"@,
                        ),
                    ),
                }
            },
        },
    }
}

/// Once the first `n` attributes fail, so do the first `m`, for any `m` from
/// `n` on, with the same error.
pub proof fn lemma_has_native_layout_fails(attrs: Seq<Attribute>, n: nat, m: nat)
    requires
        n <= m <= attrs.len(),
        has_native_layout(attrs, n) is Err,
    ensures
        has_native_layout(attrs, m) == has_native_layout(attrs, n),
    decreases m,
{
    if n < m {
        lemma_has_native_layout_fails(attrs, n, (m - 1) as nat);
    }
}

/// Once the first `n` fields fail, so do the first `m`, for any `m` from `n`
/// on, with the same error.
pub proof fn lemma_lowered_fields_fails(
    fields: Seq<Field>,
    n: nat,
    m: nat,
    params: Seq<Seq<char>>,
    context: Context,
    level: nat,
)
    requires
        n <= m <= fields.len(),
        lowered_fields(fields, n, params, context, level) is Err,
    ensures
        lowered_fields(fields, m, params, context, level) == lowered_fields(
            fields,
            n,
            params,
            context,
            level,
        ),
    decreases m,
{
    if n < m {
        lemma_lowered_fields_fails(fields, n, (m - 1) as nat, params, context, level);
    }
}

/// Whether one of the attributes is the marker of the sequential native layout.
pub fn find_native_layout(attrs: &Vec<Attribute>) -> (r: Result<bool, Error>)
    ensures
        match r {
            Ok(found) => has_native_layout(attrs@, attrs.len() as nat) == Ok::<bool, ErrorView>(
                found,
            ),
            Err(e) => has_native_layout(attrs@, attrs.len() as nat) == Err::<bool, ErrorView>(e@),
        },
{
    let mut found = false;
    let mut i: usize = 0;
    while i < attrs.len()
        invariant
            i <= attrs.len(),
            has_native_layout(attrs@, i as nat) == Ok::<bool, ErrorView>(found),
        decreases attrs.len() - i,
    {
        match get_repr_attribute_value(&attrs[i]) {
            Err(e) => {
                proof {
                    lemma_has_native_layout_fails(attrs@, (i + 1) as nat, attrs.len() as nat);
                }
                return Err(e);
            },
            Ok(None) => {},
            Ok(Some(path)) => match path.get_ident() {
                None => {},
                Some(ident) => {
                    if ident.name.as_str().eq("C") {
                        found = true;
                    }
                },
            },
        }
        i = i + 1;
    }
    Ok(found)
}

/// Whether one of the strings holds the characters of `name`.
pub fn contains_text(items: &Vec<String>, name: &str) -> (r: bool)
    ensures
        r == texts(items@).contains(name@),
{
    let mut i: usize = 0;
    while i < items.len()
        invariant
            i <= items.len(),
            forall|k: int| 0 <= k < i ==> texts(items@)[k] != name@,
        decreases items.len() - i,
    {
        if items[i].as_str().eq(name) {
            assert(texts(items@)[i as int] == name@);
            return true;
        }
        i = i + 1;
    }
    false
}

/// The names of the type parameters of a record, each once, in the order
/// they are declared in.
pub fn type_parameter_names(generics: &Vec<GenericParam>) -> (r: Vec<String>)
    ensures
        texts(r@) == type_parameters(generics@, generics.len() as nat),
{
    let mut r: Vec<String> = Vec::new();
    let mut i: usize = 0;
    assert(texts(r@) =~= Seq::empty());
    while i < generics.len()
        invariant
            i <= generics.len(),
            texts(r@) == type_parameters(generics@, i as nat),
        decreases generics.len() - i,
    {
        match &generics[i] {
            GenericParam::Type(ident) => {
                if !contains_text(&r, ident.name.as_str()) {
                    let ghost before = texts(r@);
                    r.push(ident.name.clone());
                    assert(texts(r@) =~= before.push(ident.name@));
                }
            },
            GenericParam::Other => {},
        }
        i = i + 1;
    }
    r
}

/// The given parts, separated by a comma and a space.
pub fn comma_separated(parts: &Vec<String>) -> (r: String)
    ensures
        r@ == joined(texts(parts@), ", "@),
{
    let mut r = String::new();
    let mut i: usize = 0;
    while i < parts.len()
        invariant
            i <= parts.len(),
            r@ == joined_prefix(texts(parts@), ", "@, i as nat),
        decreases parts.len() - i,
    {
        if i != 0 {
            r.append(", ");
        }
        r.append(parts[i].as_str());
        proof {
            if i == 0 {
                assert(r@ =~= texts(parts@)[0]);
            }
        }
        i = i + 1;
    }
    r
}

/// Resolves the type of a field of a record with the given type parameters.
pub fn convert_field_type(
    field: &Field,
    params: &Vec<String>,
    scope: &Scope,
    configuration: &CSharpConfiguration,
) -> (r: Result<TypeNameContainer, Error>)
    ensures
        agrees(r, field_type(*field, texts(params@), context_of(*scope, *configuration))),
{
    if let TypeNode::Path(path) = &field.ty {
        if let Some(ident) = path.get_ident() {
            if contains_text(params, ident.name.as_str()) {
                return Ok(TypeNameContainer::new(ident.name.clone(), ident.name.clone()));
            }
        }
    }
    convert_type_name(&field.ty, scope, configuration)
}

/// Lowers one field.
pub fn convert_field(
    field: &Field,
    params: &Vec<String>,
    scope: &Scope,
    configuration: &CSharpConfiguration,
    indents: usize,
) -> (r: Result<(String, Option<Member>), Error>)
    ensures
        match r {
            Ok(f) => lowered_field(
                *field,
                texts(params@),
                context_of(*scope, *configuration),
                indents as nat,
            ) == Ok::<FieldView, ErrorView>(FieldView { text: f.0@, member: opt_member(f.1) }),
            Err(e) => lowered_field(
                *field,
                texts(params@),
                context_of(*scope, *configuration),
                indents as nat,
            ) == Err::<FieldView, ErrorView>(e@),
        },
{
    let t = match convert_field_type(field, params, scope, configuration) {
        Ok(t) => t,
        Err(e) => {
            return Err(e);
        },
    };
    let docs = match extract_outer_docs(&field.attrs) {
        Ok(docs) => docs,
        Err(e) => {
            return Err(e);
        },
    };
    let mut text = summary_text(&docs, indents);
    let mut remark = String::from_str("/// <remarks>");
    remark.append(t.rust_name.as_str());
    remark.append("</remarks>");
    text.append(line_text(remark.as_str(), indents).as_str());
    match &field.ident {
        None => Ok((text, None)),
        Some(ident) => {
            let m = Member {
                declared: t.stringify(),
                name: convert_naming(ident.name.as_str(), false),
            };
            let mut content: String;
            if configuration.csharp_version() >= MODERN_VERSION {
                content = String::from_str("public ");
                content.append(m.declared.as_str());
                content.append(" ");
                content.append(m.name.as_str());
                content.append(" { get; init; }");
            } else {
                content = String::from_str("public readonly ");
                content.append(m.declared.as_str());
                content.append(" ");
                content.append(m.name.as_str());
                content.append(";");
            }
            text.append(line_text(content.as_str(), indents).as_str());
            Ok((text, Some(m)))
        },
    }
}

/// Lowers the fields of a record, in order.
pub fn convert_fields(
    fields: &Vec<Field>,
    params: &Vec<String>,
    scope: &Scope,
    configuration: &CSharpConfiguration,
    indents: usize,
) -> (r: Result<(String, Vec<Member>), Error>)
    ensures
        match r {
            Ok(f) => lowered_fields(
                fields@,
                fields.len() as nat,
                texts(params@),
                context_of(*scope, *configuration),
                indents as nat,
            ) == Ok::<FieldsView, ErrorView>(FieldsView { text: f.0@, members: members_of(f.1@) }),
            Err(e) => lowered_fields(
                fields@,
                fields.len() as nat,
                texts(params@),
                context_of(*scope, *configuration),
                indents as nat,
            ) == Err::<FieldsView, ErrorView>(e@),
        },
{
    let ghost context = context_of(*scope, *configuration);
    let mut text = String::new();
    let mut members: Vec<Member> = Vec::new();
    let mut i: usize = 0;
    assert(members_of(members@) =~= Seq::empty());
    while i < fields.len()
        invariant
            i <= fields.len(),
            context == context_of(*scope, *configuration),
            lowered_fields(fields@, i as nat, texts(params@), context, indents as nat) == Ok::<
                FieldsView,
                ErrorView,
            >(FieldsView { text: text@, members: members_of(members@) }),
        decreases fields.len() - i,
    {
        match convert_field(&fields[i], params, scope, configuration, indents) {
            Err(e) => {
                proof {
                    lemma_lowered_fields_fails(
                        fields@,
                        (i + 1) as nat,
                        fields.len() as nat,
                        texts(params@),
                        context,
                        indents as nat,
                    );
                }
                return Err(e);
            },
            Ok((t, member)) => {
                text.append(t.as_str());
                match member {
                    Some(m) => {
                        let ghost before = members_of(members@);
                        members.push(m);
                        assert(members_of(members@) =~= before.push(m@));
                    },
                    None => {},
                }
            },
        }
        i = i + 1;
    }
    Ok((text, members))
}

/// The parameters of the constructor, separated by a comma and a space.
pub fn constructor_parameters(members: &Vec<Member>) -> (r: String)
    ensures
        r@ == joined(member_parameters(members_of(members@)), ", "@),
{
    let ghost parts = member_parameters(members_of(members@));
    let mut r = String::new();
    let mut i: usize = 0;
    while i < members.len()
        invariant
            i <= members.len(),
            parts == member_parameters(members_of(members@)),
            r@ == joined_prefix(parts, ", "@, i as nat),
        decreases members.len() - i,
    {
        if i != 0 {
            r.append(", ");
        }
        let mut part = members[i].declared.clone();
        part.append(" ");
        part.append(decapitalize(members[i].name.as_str()).as_str());
        assert(part@ == parts[i as int]);
        r.append(part.as_str());
        proof {
            if i == 0 {
                assert(r@ =~= parts[0]);
            }
        }
        i = i + 1;
    }
    r
}

/// The assignments in the body of the constructor.
pub fn constructor_body(members: &Vec<Member>, indents: usize) -> (r: String)
    ensures
        r@ == assignments(members_of(members@), members.len() as nat, indents as nat),
{
    let ghost views = members_of(members@);
    let mut r = String::new();
    let mut i: usize = 0;
    while i < members.len()
        invariant
            i <= members.len(),
            views == members_of(members@),
            r@ == assignments(views, i as nat, indents as nat),
        decreases members.len() - i,
    {
        let mut content = members[i].name.clone();
        content.append(" = ");
        content.append(decapitalize(members[i].name.as_str()).as_str());
        content.append(";");
        r.append(line_text(content.as_str(), indents).as_str());
        i = i + 1;
    }
    r
}

/// The constructor of a record with the given members.
pub fn constructor(name: &str, members: &Vec<Member>, indents: usize) -> (r: String)
    requires
        indents < usize::MAX,
    ensures
        r@ == constructor_text(name@, members_of(members@), indents as nat),
{
    let mut head = String::from_str("public ");
    head.append(name);
    head.append("(");
    head.append(constructor_parameters(members).as_str());
    head.append(")");
    let mut r = line_text(head.as_str(), indents);
    r.append(line_text("{", indents).as_str());
    r.append(constructor_body(members, indents + 1).as_str());
    r.append(line_text("}", indents).as_str());
    r
}

/// Appends to `out` what a record lowers to, and registers it under its own
/// name. A record without the layout marker, or one that fails, leaves `out`
/// and the configuration as they were.
pub fn write_struct(
    out: &mut String,
    indents: usize,
    strct: &Record,
    scope: &Scope,
    configuration: &mut CSharpConfiguration,
) -> (r: Result<(), Error>)
    requires
        indents < usize::MAX - 1,
    ensures
        final(configuration).banner() == old(configuration).banner(),
        match record_text(*strct, context_of(*scope, *old(configuration)), indents as nat) {
            Ok(Some(text)) => {
                &&& r is Ok
                &&& final(out)@ == old(out)@ + text
                &&& context_of(*scope, *final(configuration)) == context_of(
                    *scope,
                    *old(configuration),
                ).with(
                    strct.ident.name@,
                    declared_here(context_of(*scope, *old(configuration)), strct.ident.name@),
                )
            },
            Ok(None) => {
                &&& r is Ok
                &&& final(out)@ == old(out)@
                &&& context_of(*scope, *final(configuration)) == context_of(
                    *scope,
                    *old(configuration),
                )
            },
            Err(e) => {
                &&& r is Err
                &&& r.unwrap_err()@ == e
                &&& final(out)@ == old(out)@
                &&& context_of(*scope, *final(configuration)) == context_of(
                    *scope,
                    *old(configuration),
                )
            },
        },
{
    match find_native_layout(&strct.attrs) {
        Err(e) => {
            return Err(e);
        },
        Ok(false) => {
            return Ok(());
        },
        Ok(true) => {},
    }
    let docs = match extract_outer_docs(&strct.attrs) {
        Ok(docs) => docs,
        Err(e) => {
            return Err(e);
        },
    };
    let params = type_parameter_names(&strct.generics);
    let (fields_text, members) = match convert_fields(
        &strct.fields,
        &params,
        scope,
        configuration,
        indents + 1,
    ) {
        Ok(f) => f,
        Err(e) => {
            return Err(e);
        },
    };
    let mut text = summary_text(&docs, indents);
    text.append(
        line_text(
            "[StructLayout(LayoutKind.Sequential, CharSet = CharSet.Unicode)]",
            indents,
        ).as_str(),
    );
    let mut header = String::from_str("public struct ");
    header.append(strct.ident.name.as_str());
    if params.len() > 0 {
        let mut list = String::from_str("<");
        list.append(comma_separated(&params).as_str());
        list.append(">");
        header.append(list.as_str());
    } else {
        assert(header@ + Seq::<char>::empty() =~= header@);
    }
    text.append(line_text(header.as_str(), indents).as_str());
    text.append(line_text("{", indents).as_str());
    text.append(fields_text.as_str());
    text.append("\n");
    text.append(constructor(strct.ident.name.as_str(), &members, indents + 1).as_str());
    text.append(line_text("}", indents).as_str());
    text.append("\n");
    out.append(text.as_str());
    configuration.add_known_type(
        strct.ident.name.as_str(),
        clone_opt(&scope.namespace),
        clone_opt(&scope.enclosing_type),
        strct.ident.name.clone(),
    );
    Ok(())
}

} // verus!
