//! What holds of resolving and lowering in general.

use crate::builder::{Lowered, lower_all, lower_declaration};
use crate::config::{Context, TypeIdentity};
use crate::enumeration::{declared_here, enum_width, enumeration_text};
use crate::error::ErrorView;
use crate::function::is_extern_c_spec;
use crate::record::{has_native_layout, record_text};
use crate::resolve::{
    ResolvedType, plain, primitive_type, qualified_name, rejected_primitive,
    rendered_list, resolve_arguments, resolve_path, resolve_type, unknown_message,
};
use crate::syntax::{
    Declaration, Enumeration, Function, Path, Record, TypeAlias, TypeNode, last_segment,
};
use vstd::prelude::*;

verus! {

/// Whether a name is looked up in the registry when it is resolved: it is no
/// primitive, neither `bool` nor `str`, and not the out-parameter marker.
pub open spec fn is_looked_up(name: Seq<char>, context: Context) -> bool {
    &&& primitive_type(name, context.version) is None
    &&& rejected_primitive(name) is None
    &&& context.out_type != Some(name)
}

/// The namespace of a type, followed by a dot, where it has to be written
/// from inside `namespace`: the type has one, and it is another.
pub open spec fn namespace_prefix(t: TypeIdentity, namespace: Option<Seq<char>>) -> Seq<char> {
    if t.namespace is Some && t.namespace != namespace {
        t.namespace.unwrap() + "."@
    } else {
        Seq::empty()
    }
}

/// The enclosing type of a type, followed by a dot, where it has to be
/// written from inside `namespace` and `enclosing`: the type has one, and the
/// place it is written from is not inside that very type.
pub open spec fn enclosing_prefix(
    t: TypeIdentity,
    namespace: Option<Seq<char>>,
    enclosing: Option<Seq<char>>,
) -> Seq<char> {
    if t.enclosing is Some && !(t.namespace == namespace && t.enclosing == enclosing) {
        t.enclosing.unwrap() + "."@
    } else {
        Seq::empty()
    }
}

/// A type that is a path resolves as the path does.
pub proof fn lemma_path_type(path: Path, context: Context)
    ensures
        resolve_type(TypeNode::Path(path), context) == resolve_path(path, context),
{
}

/// A path whose last segment is a name of the primitive table resolves to
/// the managed type that the table gives, with the native name as its
/// remark, whatever is registered and wherever the pass generates to.
pub proof fn law_primitive_resolves(path: Path, context: Context)
    requires
        last_segment(path) is Some,
        primitive_type(last_segment(path).unwrap().ident.name@, context.version) is Some,
    ensures
        resolve_type(TypeNode::Path(path), context) == Ok::<ResolvedType, ErrorView>(
            plain(
                primitive_type(last_segment(path).unwrap().ident.name@, context.version).unwrap(),
                last_segment(path).unwrap().ident.name@,
            ),
        ),
{
    lemma_path_type(path, context);
}

/// A path whose last segment is `bool` or `str` never resolves: it fails as
/// an unsupported construct at that segment.
pub proof fn law_rejected_primitive_fails(path: Path, context: Context)
    requires
        last_segment(path) is Some,
        last_segment(path).unwrap().ident.name@ == "bool"@ || last_segment(
            path,
        ).unwrap().ident.name@ == "str"@,
    ensures
        resolve_type(TypeNode::Path(path), context) == Err::<ResolvedType, ErrorView>(
            ErrorView::UnsupportedError(
                rejected_primitive(last_segment(path).unwrap().ident.name@).unwrap(),
                last_segment(path).unwrap().ident.position,
            ),
        ),
{
    lemma_path_type(path, context);
    reveal_strlit("bool");
    reveal_strlit("str");
    reveal_strlit("u8");
    reveal_strlit("u16");
    reveal_strlit("u32");
    reveal_strlit("u64");
    reveal_strlit("u128");
    reveal_strlit("usize");
    reveal_strlit("i8");
    reveal_strlit("i16");
    reveal_strlit("i32");
    reveal_strlit("i64");
    reveal_strlit("i128");
    reveal_strlit("isize");
    reveal_strlit("f32");
    reveal_strlit("f64");
    reveal_strlit("char");
    reveal_strlit("c_char");
    let name = last_segment(path).unwrap().ident.name@;
    assert(name[0] == 'b' || name[0] == 's');
    assert("u8"@[0] == 'u' && "u16"@[0] == 'u' && "u32"@[0] == 'u' && "u64"@[0] == 'u');
    assert("u128"@[0] == 'u' && "usize"@[0] == 'u');
    assert("i8"@[0] == 'i' && "i16"@[0] == 'i' && "i32"@[0] == 'i' && "i64"@[0] == 'i');
    assert("i128"@[0] == 'i' && "isize"@[0] == 'i');
    assert("f32"@[0] == 'f' && "f64"@[0] == 'f');
    assert("char"@[0] == 'c' && "c_char"@[0] == 'c');
    assert(primitive_type(name, context.version) is None);
}

/// The qualified name of a type is its name behind as much of its path as
/// the place it is written from does not supply: its namespace unless that
/// is the namespace written from, and its enclosing type unless the name is
/// written from inside that very type.
pub proof fn law_minimal_qualification(
    t: TypeIdentity,
    namespace: Option<Seq<char>>,
    enclosing: Option<Seq<char>>,
)
    ensures
        qualified_name(t, namespace, enclosing) == namespace_prefix(t, namespace)
            + enclosing_prefix(t, namespace, enclosing) + t.name,
{
    assert(qualified_name(t, namespace, enclosing) =~= namespace_prefix(t, namespace)
        + enclosing_prefix(t, namespace, enclosing) + t.name);
}

/// A name that is looked up and is not registered fails to resolve, as an
/// unknown type at the segment that names it.
pub proof fn law_unregistered_name_fails(path: Path, context: Context)
    requires
        last_segment(path) is Some,
        is_looked_up(last_segment(path).unwrap().ident.name@, context),
        !context.registry.contains_key(last_segment(path).unwrap().ident.name@),
    ensures
        resolve_type(TypeNode::Path(path), context) == Err::<ResolvedType, ErrorView>(
            ErrorView::UnknownType(
                unknown_message(last_segment(path).unwrap().ident.name@),
                last_segment(path).unwrap().ident.position,
            ),
        ),
{
    lemma_path_type(path, context);
}

/// A registered name without generic arguments resolves to the registered
/// identity, qualified for the place the pass generates to.
pub proof fn law_registered_name_resolves(path: Path, context: Context)
    requires
        last_segment(path) is Some,
        is_looked_up(last_segment(path).unwrap().ident.name@, context),
        context.registry.contains_key(last_segment(path).unwrap().ident.name@),
        !(last_segment(path).unwrap().arguments is AngleBracketed),
    ensures
        resolve_type(TypeNode::Path(path), context) == Ok::<ResolvedType, ErrorView>(
            plain(
                qualified_name(
                    context.registry[last_segment(path).unwrap().ident.name@],
                    context.namespace,
                    context.enclosing_type,
                ),
                last_segment(path).unwrap().ident.name@,
            ),
        ),
{
    lemma_path_type(path, context);
}

/// An enumeration that one pass lowers is known to every later pass on the
/// same registry: its name resolves there to the place the first pass put
/// it, qualified for the place the later pass generates to.
pub proof fn law_lowered_enumeration_resolves_later(
    en: Enumeration,
    before: Lowered,
    level: nat,
    path: Path,
    later: Context,
)
    requires
        before.error is None,
        enumeration_text(en, before.context, level) matches Ok(Some(_)),
        later.registry == lower_declaration(
            Declaration::Enumeration(en),
            before,
            level,
        ).context.registry,
        last_segment(path) is Some,
        last_segment(path).unwrap().ident.name@ == en.ident.name@,
        !(last_segment(path).unwrap().arguments is AngleBracketed),
        is_looked_up(en.ident.name@, later),
    ensures
        resolve_type(TypeNode::Path(path), later) == Ok::<ResolvedType, ErrorView>(
            plain(
                qualified_name(
                    declared_here(before.context, en.ident.name@),
                    later.namespace,
                    later.enclosing_type,
                ),
                en.ident.name@,
            ),
        ),
{
    lemma_path_type(path, later);
}

/// A record that one pass lowers is known to every later pass on the same
/// registry, as an enumeration is.
pub proof fn law_lowered_record_resolves_later(
    r: Record,
    before: Lowered,
    level: nat,
    path: Path,
    later: Context,
)
    requires
        before.error is None,
        record_text(r, before.context, level) matches Ok(Some(_)),
        later.registry == lower_declaration(Declaration::Record(r), before, level).context.registry,
        last_segment(path) is Some,
        last_segment(path).unwrap().ident.name@ == r.ident.name@,
        !(last_segment(path).unwrap().arguments is AngleBracketed),
        is_looked_up(r.ident.name@, later),
    ensures
        resolve_type(TypeNode::Path(path), later) == Ok::<ResolvedType, ErrorView>(
            plain(
                qualified_name(
                    declared_here(before.context, r.ident.name@),
                    later.namespace,
                    later.enclosing_type,
                ),
                r.ident.name@,
            ),
        ),
{
    lemma_path_type(path, later);
}

/// The name of an alias resolves to the type it stands for, not to the alias:
/// after an alias for a generic instantiation of a registered type is
/// lowered, its name resolves to the name of that type with the rendered
/// arguments, at the place where that type lives.
pub proof fn law_alias_resolves_to_target(
    alias: TypeAlias,
    target: Path,
    before: Lowered,
    level: nat,
    path: Path,
)
    requires
        before.error is None,
        alias.ty == TypeNode::Path(target),
        last_segment(target) is Some,
        before.context.registry.contains_key(last_segment(target).unwrap().ident.name@),
        last_segment(target).unwrap().arguments is AngleBracketed,
        resolve_arguments(
            last_segment(target).unwrap().arguments->AngleBracketed_0@,
            last_segment(target).unwrap().arguments->AngleBracketed_0.len() as nat,
            before.context,
        ) is Ok,
        last_segment(path) is Some,
        last_segment(path).unwrap().ident.name@ == alias.ident.name@,
        !(last_segment(path).unwrap().arguments is AngleBracketed),
        is_looked_up(alias.ident.name@, before.context),
    ensures
        ({
            let base = before.context.registry[last_segment(target).unwrap().ident.name@];
            let arguments = resolve_arguments(
                last_segment(target).unwrap().arguments->AngleBracketed_0@,
                last_segment(target).unwrap().arguments->AngleBracketed_0.len() as nat,
                before.context,
            )->Ok_0;
            let after = lower_declaration(Declaration::TypeAlias(alias), before, level);
            &&& after.error is None
            &&& after.text == before.text
            &&& resolve_type(TypeNode::Path(path), after.context) == Ok::<ResolvedType, ErrorView>(
                plain(
                    qualified_name(
                        TypeIdentity {
                            name: base.name + "<"@ + rendered_list(arguments, arguments.len())
                                + ">"@,
                            ..base
                        },
                        before.context.namespace,
                        before.context.enclosing_type,
                    ),
                    alias.ident.name@,
                ),
            )
        }),
{
    lemma_path_type(path, lower_declaration(Declaration::TypeAlias(alias), before, level).context);
}

/// A function without the C calling convention is passed over: it adds no
/// text, registers nothing and cannot fail.
pub proof fn law_unmarked_function_is_passed_over(f: Function, before: Lowered, level: nat)
    requires
        !is_extern_c_spec(f),
    ensures
        lower_declaration(Declaration::Function(f), before, level) == before,
{
    assert(before.text + Seq::<char>::empty() =~= before.text);
}

/// An enumeration whose attributes are well formed and give it no width is
/// passed over: it adds no text and registers nothing.
pub proof fn law_unsized_enumeration_is_passed_over(en: Enumeration, before: Lowered, level: nat)
    requires
        enum_width(en.attrs@, en.attrs.len() as nat, before.context.version) == Ok::<
            Option<Seq<char>>,
            ErrorView,
        >(None),
    ensures
        lower_declaration(Declaration::Enumeration(en), before, level) == before,
{
}

/// A record whose attributes are well formed and hold no marker of the
/// sequential native layout is passed over: it adds no text and registers
/// nothing.
pub proof fn law_unmarked_record_is_passed_over(r: Record, before: Lowered, level: nat)
    requires
        has_native_layout(r.attrs@, r.attrs.len() as nat) == Ok::<bool, ErrorView>(false),
    ensures
        lower_declaration(Declaration::Record(r), before, level) == before,
{
}

/// Lowering never takes a name out of the registry, and it leaves everything
/// of the context but the registry as it was.
pub proof fn law_registry_only_grows(d: Declaration, before: Lowered, level: nat)
    ensures
        before.context.registry.dom().subset_of(
            lower_declaration(d, before, level).context.registry.dom(),
        ),
        lower_declaration(d, before, level).context == (Context {
            registry: lower_declaration(d, before, level).context.registry,
            ..before.context
        }),
    decreases d, 0nat,
{
    if before.error is None {
        match d {
            Declaration::Module(items) => {
                lemma_registry_only_grows_all(items@, items.len() as nat, before, level);
            },
            _ => {},
        }
    }
}

/// What [`law_registry_only_grows`] says, of the first `n` of a list of declarations.
pub proof fn lemma_registry_only_grows_all(
    items: Seq<Declaration>,
    n: nat,
    before: Lowered,
    level: nat,
)
    ensures
        before.context.registry.dom().subset_of(
            lower_all(items, n, before, level).context.registry.dom(),
        ),
        lower_all(items, n, before, level).context == (Context {
            registry: lower_all(items, n, before, level).context.registry,
            ..before.context
        }),
    decreases items, n,
{
    if !(n == 0 || n > items.len()) {
        let previous = lower_all(items, (n - 1) as nat, before, level);
        lemma_registry_only_grows_all(items, (n - 1) as nat, before, level);
        law_registry_only_grows(items[n - 1], previous, level);
    }
}

/// A pass that fails keeps the text and the registry as they stood before
/// the declaration that failed: the failing declaration adds nothing.
pub proof fn law_failure_adds_nothing(d: Declaration, before: Lowered, level: nat)
    requires
        before.error is None,
        !(d is Module),
        lower_declaration(d, before, level).error is Some,
    ensures
        lower_declaration(d, before, level).text == before.text,
        lower_declaration(d, before, level).context == before.context,
{
}

} // verus!
