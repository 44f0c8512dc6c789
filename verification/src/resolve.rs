//! The type resolver: from a type as written in the source to the name of its
//! managed counterpart, qualified for the place it is used from.

use crate::config::{
    CSharpConfiguration, CSharpType, Context, Scope, TypeIdentity, MODERN_VERSION, context_of,
};
use crate::error::{Error, ErrorView, agrees};
use crate::syntax::{
    GenericArgument, Ident, Path, PathArguments, PathSegment, TypeNode, UnsupportedKind,
};
use crate::text::{opt_text, same_opt};
use vstd::prelude::*;
use vstd::string::*;

verus! {

/// A resolved type: its managed name, the native name it was written with, and
/// the resolved generic arguments it is instantiated with.
pub struct ResolvedType {
    pub managed: Seq<char>,
    pub native: Seq<char>,
    pub generics: Seq<ResolvedType>,
}

/// The managed text of a resolved type: its name, followed in angle brackets by
/// the texts of its generic arguments, if it has any.
pub open spec fn rendered(r: ResolvedType) -> Seq<char>
    decreases r, 0nat,
{
    if r.generics.len() == 0 {
        r.managed
    } else {
        r.managed + "<"@ + rendered_list(r.generics, r.generics.len()) + ">"@
    }
}

/// The texts of the first `n` of `items`, separated by a comma and a space.
pub open spec fn rendered_list(items: Seq<ResolvedType>, n: nat) -> Seq<char>
    decreases items, n,
{
    if n == 0 || n > items.len() {
        Seq::empty()
    } else if n == 1 {
        rendered(items[0])
    } else {
        rendered_list(items, (n - 1) as nat) + ", "@ + rendered(items[n - 1])
    }
}

/// The message for a kind of type that is not lowered.
pub open spec fn unsupported_message(kind: UnsupportedKind) -> Seq<char> {
    match kind {
        UnsupportedKind::Array => "Using rust arrays from ffi is not supported."@,
        UnsupportedKind::BareFn => "Using bare functions from ffi is not supported."@,
        UnsupportedKind::Group => "Using type group from ffi is not supported."@,
        UnsupportedKind::ImplTrait => "Using rust impl traits from ffi is not supported."@,
        UnsupportedKind::Infer => "Using type infers is not supported. We can't generate a binding if we do not know the type."@,
        UnsupportedKind::Macro => "Using rust macros from ffi is not supported."@,
        UnsupportedKind::Never => "Using rust never type from ffi is not supported."@,
        UnsupportedKind::Paren => "Using rust parenthesis from ffi is not supported."@,
        UnsupportedKind::Slice => "Using rust slices from ffi is not supported."@,
        UnsupportedKind::TraitObject => "Using rust traits from ffi is not supported."@,
        UnsupportedKind::Tuple => "Using rust tuples from ffi is not supported."@,
        UnsupportedKind::Verbatim => "Using rust verbatim from ffi is not supported."@,
    }
}

/// The managed integer type for a native integer type name.
pub open spec fn integer_type(name: Seq<char>, version: u8) -> Option<Seq<char>> {
    if name == "u8"@ {
        Some("byte"@)
    } else if name == "u16"@ {
        Some("ushort"@)
    } else if name == "u32"@ {
        Some("uint"@)
    } else if name == "u64"@ {
        Some("ulong"@)
    } else if name == "u128"@ {
        Some("System.Numerics.BigInteger"@)
    } else if name == "usize"@ {
        if version >= MODERN_VERSION {
            Some("nuint"@)
        } else {
            Some("ulong"@)
        }
    } else if name == "i8"@ {
        Some("sbyte"@)
    } else if name == "i16"@ {
        Some("short"@)
    } else if name == "i32"@ {
        Some("int"@)
    } else if name == "i64"@ {
        Some("long"@)
    } else if name == "i128"@ {
        Some("System.Numerics.BigInteger"@)
    } else if name == "isize"@ {
        if version >= MODERN_VERSION {
            Some("nint"@)
        } else {
            Some("long"@)
        }
    } else {
        None
    }
}

/// The primitive table: the managed type for a native primitive type name.
/// Pointer-sized integers get their native-width type from [`MODERN_VERSION`]
/// on, and a 64-bit integer before it.
pub open spec fn primitive_type(name: Seq<char>, version: u8) -> Option<Seq<char>> {
    if integer_type(name, version) is Some {
        integer_type(name, version)
    } else if name == "f32"@ {
        Some("float"@)
    } else if name == "f64"@ {
        Some("double"@)
    } else if name == "char"@ {
        Some("char"@)
    } else if name == "c_char"@ {
        Some("char"@)
    } else {
        None
    }
}

/// The message for a primitive that is never lowered: `bool`, whose width
/// depends on the platform, and `str`, which has no fixed layout.
pub open spec fn rejected_primitive(name: Seq<char>) -> Option<Seq<char>> {
    if name == "bool"@ {
        Some(
            "Found a boolean type. Due to differing sizes on different operating systems this is not supported for extern C functions."@,
        )
    } else if name == "str"@ {
        Some("Found a str type. This is not supported, please use a char pointer instead."@)
    } else {
        None
    }
}

/// How a type that lives at `t` is written from inside the given namespace and
/// enclosing type. The cases are tried in this order:
/// the namespaces agree, and the type has no enclosing type or the same one:
/// the bare name; the namespaces agree: the enclosing type and the name; the
/// type has no enclosing type: the name, after its namespace if it has one;
/// the type has no namespace: the enclosing type and the name; else the
/// namespace, the enclosing type and the name.
pub open spec fn qualified_name(
    t: TypeIdentity,
    namespace: Option<Seq<char>>,
    enclosing: Option<Seq<char>>,
) -> Seq<char> {
    if t.namespace == namespace && (enclosing == t.enclosing || t.enclosing is None) {
        t.name
    } else if t.namespace == namespace {
        t.enclosing.unwrap() + "."@ + t.name
    } else if t.enclosing is None {
        if t.namespace is None {
            t.name
        } else {
            t.namespace.unwrap() + "."@ + t.name
        }
    } else if t.namespace is None {
        t.enclosing.unwrap() + "."@ + t.name
    } else {
        t.namespace.unwrap() + "."@ + t.enclosing.unwrap() + "."@ + t.name
    }
}

/// A resolved type without generic arguments.
pub open spec fn plain(managed: Seq<char>, native: Seq<char>) -> ResolvedType {
    ResolvedType { managed, native, generics: Seq::empty() }
}

/// The message for a type name that is not registered.
pub open spec fn unknown_message(name: Seq<char>) -> Seq<char> {
    "Type with name '"@ + name + "' was not found"@
}

/// The registered type that an identifier names, qualified for the
/// context; an unknown-type error if the name is not registered.
pub open spec fn known_type(ident: Ident, context: Context) -> Result<ResolvedType, ErrorView> {
    if context.registry.contains_key(ident.name@) {
        Ok(
            plain(
                qualified_name(
                    context.registry[ident.name@],
                    context.namespace,
                    context.enclosing_type,
                ),
                ident.name@,
            ),
        )
    } else {
        Err(ErrorView::UnknownType(unknown_message(ident.name@), ident.position))
    }
}

/// The error for an out-parameter marker that does not wrap exactly one type.
pub open spec fn out_error(ident: Ident) -> ErrorView {
    ErrorView::UnsupportedError(
        "Out type requires the real type to be angle bracketed."@,
        ident.position,
    )
}

/// What a type resolves to in a context.
///
/// A pointer becomes the opaque handle type, a reference a by-reference
/// marker around the referent; both mark the native name. A path is resolved
/// by [`resolve_path`]. Every other kind of type fails.
pub open spec fn resolve_type(t: TypeNode, context: Context) -> Result<ResolvedType, ErrorView>
    decreases t, 0nat,
{
    match t {
        TypeNode::Path(path) => resolve_path(path, context),
        TypeNode::Pointer(inner) => match resolve_type(*inner, context) {
            Ok(r) => Ok(plain("IntPtr"@, r.native + "*"@)),
            Err(e) => Err(e),
        },
        TypeNode::Reference(inner) => match resolve_type(*inner, context) {
            Ok(r) => Ok(plain("ref "@ + rendered(r), r.native + "&"@)),
            Err(e) => Err(e),
        },
        TypeNode::Unsupported(kind, position) => Err(
            ErrorView::UnsupportedError(unsupported_message(kind), position),
        ),
    }
}

/// What a path resolves to; its last segment names the type.
///
/// A primitive name gives its entry in the primitive table, `bool` and `str`
/// fail, the out-parameter marker is resolved by [`resolve_out`], and any
/// other name is looked up in the registry, qualified, and given the resolved
/// type arguments of the segment.
pub open spec fn resolve_path(path: Path, context: Context) -> Result<ResolvedType, ErrorView>
    decreases path, 0nat,
{
    if path.segments.len() == 0 {
        Err(
            ErrorView::UnsupportedError(
                "Types without a path are not supported"@,
                path.position,
            ),
        )
    } else {
        let segment = path.segments[path.segments.len() - 1];
        let name = segment.ident.name@;
        if primitive_type(name, context.version) is Some {
            Ok(plain(primitive_type(name, context.version).unwrap(), name))
        } else if rejected_primitive(name) is Some {
            Err(
                ErrorView::UnsupportedError(
                    rejected_primitive(name).unwrap(),
                    segment.ident.position,
                ),
            )
        } else if context.out_type == Some(name) {
            resolve_out(segment, context)
        } else {
            match known_type(segment.ident, context) {
                Err(e) => Err(e),
                Ok(base) => match segment.arguments {
                    PathArguments::AngleBracketed(args) => match resolve_arguments(
                        args@,
                        args.len() as nat,
                        context,
                    ) {
                        Ok(generics) => Ok(ResolvedType { generics, ..base }),
                        Err(e) => Err(e),
                    },
                    _ => Ok(base),
                },
            }
        }
    }
}

/// What a segment that names the out-parameter marker resolves to: an out
/// marker around the one type it wraps. It fails unless the segment has
/// exactly one generic argument and that is a type.
pub open spec fn resolve_out(segment: PathSegment, context: Context) -> Result<
    ResolvedType,
    ErrorView,
>
    decreases segment, 0nat,
{
    match segment.arguments {
        PathArguments::AngleBracketed(args) => if args.len() == 1 {
            match args[0] {
                GenericArgument::Type(t) => match resolve_type(t, context) {
                    Ok(inner) => Ok(plain("out "@ + rendered(inner), segment.ident.name@)),
                    Err(e) => Err(e),
                },
                GenericArgument::Other => Err(out_error(segment.ident)),
            }
        } else {
            Err(out_error(segment.ident))
        },
        _ => Err(out_error(segment.ident)),
    }
}

/// The resolved types among the first `n` generic arguments, in order, or the
/// first failure among them. Arguments that are not types are passed over.
pub open spec fn resolve_arguments(args: Seq<GenericArgument>, n: nat, context: Context) -> Result<
    Seq<ResolvedType>,
    ErrorView,
>
    decreases args, n,
{
    if n == 0 || n > args.len() {
        Ok(Seq::empty())
    } else {
        match resolve_arguments(args, (n - 1) as nat, context) {
            Err(e) => Err(e),
            Ok(before) => match args[n - 1] {
                GenericArgument::Type(t) => match resolve_type(t, context) {
                    Ok(r) => Ok(before.push(r)),
                    Err(e) => Err(e),
                },
                GenericArgument::Other => Ok(before),
            },
        }
    }
}

/// A resolved type as the resolver hands it out.
#[derive(Debug)]
pub struct TypeNameContainer {
    pub csharp_name: String,
    pub rust_name: String,
    pub generics: Vec<TypeNameContainer>,
}

impl View for TypeNameContainer {
    type V = ResolvedType;

    open spec fn view(&self) -> ResolvedType
        decreases self,
    {
        ResolvedType {
            managed: self.csharp_name@,
            native: self.rust_name@,
            generics: Seq::new(
                self.generics.len() as nat,
                |i: int|
                    if 0 <= i < self.generics.len() {
                        self.generics[i]@
                    } else {
                        plain(Seq::empty(), Seq::empty())
                    },
            ),
        }
    }
}

impl TypeNameContainer {
    /// A resolved type without generic arguments.
    pub fn new(csharp_name: String, rust_name: String) -> (r: TypeNameContainer)
        ensures
            r@ == plain(csharp_name@, rust_name@),
    {
        let r = TypeNameContainer { csharp_name, rust_name, generics: Vec::new() };
        assert(r@.generics =~= Seq::empty());
        r
    }

    /// The managed text of this type.
    pub fn stringify(&self) -> (r: String)
        ensures
            r@ == rendered(self@),
        decreases self, 0nat,
    {
        let mut r = self.csharp_name.clone();
        if self.generics.len() > 0 {
            assert(self@.generics =~= resolved_of(self.generics@));
            r.append("<");
            r.append(stringify_all(&self.generics).as_str());
            r.append(">");
        }
        r
    }
}

/// The views of a sequence of resolved types.
pub open spec fn resolved_of(items: Seq<TypeNameContainer>) -> Seq<ResolvedType> {
    items.map_values(|g: TypeNameContainer| g@)
}

/// The managed texts of the given types, separated by a comma and a space.
pub fn stringify_all(items: &Vec<TypeNameContainer>) -> (r: String)
    ensures
        r@ == rendered_list(resolved_of(items@), items.len() as nat),
    decreases items, 1nat,
{
    let mut r = String::new();
    let mut i: usize = 0;
    while i < items.len()
        invariant
            i <= items.len(),
            r@ == rendered_list(resolved_of(items@), i as nat),
        decreases items.len() - i,
    {
        if i != 0 {
            r.append(", ");
        }
        let item = items[i].stringify();
        r.append(item.as_str());
        proof {
            if i == 0 {
                assert(r@ =~= rendered(resolved_of(items@)[0]));
            }
        }
        i = i + 1;
    }
    r
}

/// The managed integer type for a native integer type name, if it is one.
pub fn integer_name(name: &str, version: u8) -> (r: Option<&'static str>)
    ensures
        match r {
            Some(m) => integer_type(name@, version) == Some(m@),
            None => integer_type(name@, version) is None,
        },
{
    if name.eq("u8") {
        Some("byte")
    } else if name.eq("u16") {
        Some("ushort")
    } else if name.eq("u32") {
        Some("uint")
    } else if name.eq("u64") {
        Some("ulong")
    } else if name.eq("u128") {
        Some("System.Numerics.BigInteger")
    } else if name.eq("usize") {
        if version >= MODERN_VERSION {
            Some("nuint")
        } else {
            Some("ulong")
        }
    } else if name.eq("i8") {
        Some("sbyte")
    } else if name.eq("i16") {
        Some("short")
    } else if name.eq("i32") {
        Some("int")
    } else if name.eq("i64") {
        Some("long")
    } else if name.eq("i128") {
        Some("System.Numerics.BigInteger")
    } else if name.eq("isize") {
        if version >= MODERN_VERSION {
            Some("nint")
        } else {
            Some("long")
        }
    } else {
        None
    }
}

/// The entry of the primitive table for a name, if it has one.
pub fn primitive_name(name: &str, version: u8) -> (r: Option<&'static str>)
    ensures
        match r {
            Some(m) => primitive_type(name@, version) == Some(m@),
            None => primitive_type(name@, version) is None,
        },
{
    match integer_name(name, version) {
        Some(managed) => Some(managed),
        None => {
            if name.eq("f32") {
                Some("float")
            } else if name.eq("f64") {
                Some("double")
            } else if name.eq("char") {
                Some("char")
            } else if name.eq("c_char") {
                Some("char")
            } else {
                None
            }
        },
    }
}

/// The message for a primitive that is never lowered, if the name is one.
pub fn rejected_message(name: &str) -> (r: Option<&'static str>)
    ensures
        match r {
            Some(m) => rejected_primitive(name@) == Some(m@),
            None => rejected_primitive(name@) is None,
        },
{
    if name.eq("bool") {
        Some(
            "Found a boolean type. Due to differing sizes on different operating systems this is not supported for extern C functions.",
        )
    } else if name.eq("str") {
        Some("Found a str type. This is not supported, please use a char pointer instead.")
    } else {
        None
    }
}

/// The message for a kind of type that is not lowered.
pub fn unsupported_text(kind: UnsupportedKind) -> (r: &'static str)
    ensures
        r@ == unsupported_message(kind),
{
    match kind {
        UnsupportedKind::Array => "Using rust arrays from ffi is not supported.",
        UnsupportedKind::BareFn => "Using bare functions from ffi is not supported.",
        UnsupportedKind::Group => "Using type group from ffi is not supported.",
        UnsupportedKind::ImplTrait => "Using rust impl traits from ffi is not supported.",
        UnsupportedKind::Infer => "Using type infers is not supported. We can't generate a binding if we do not know the type.",
        UnsupportedKind::Macro => "Using rust macros from ffi is not supported.",
        UnsupportedKind::Never => "Using rust never type from ffi is not supported.",
        UnsupportedKind::Paren => "Using rust parenthesis from ffi is not supported.",
        UnsupportedKind::Slice => "Using rust slices from ffi is not supported.",
        UnsupportedKind::TraitObject => "Using rust traits from ffi is not supported.",
        UnsupportedKind::Tuple => "Using rust tuples from ffi is not supported.",
        UnsupportedKind::Verbatim => "Using rust verbatim from ffi is not supported.",
    }
}

/// How the type that lives at `t` is written from inside `scope`.
pub fn qualify(t: &CSharpType, scope: &Scope) -> (r: String)
    ensures
        r@ == qualified_name(t@, opt_text(scope.namespace), opt_text(scope.enclosing_type)),
{
    let same_namespace = same_opt(&scope.namespace, &t.namespace);
    match (&t.namespace, &t.inside_type) {
        (_, None) => {
            if same_namespace {
                t.real_type_name.clone()
            } else {
                match &t.namespace {
                    None => t.real_type_name.clone(),
                    Some(namespace) => {
                        let mut r = namespace.clone();
                        r.append(".");
                        r.append(t.real_type_name.as_str());
                        r
                    },
                }
            }
        },
        (namespace, Some(inside)) => {
            if same_namespace && same_opt(&scope.enclosing_type, &t.inside_type) {
                t.real_type_name.clone()
            } else if same_namespace {
                let mut r = inside.clone();
                r.append(".");
                r.append(t.real_type_name.as_str());
                r
            } else {
                match namespace {
                    None => {
                        let mut r = inside.clone();
                        r.append(".");
                        r.append(t.real_type_name.as_str());
                        r
                    },
                    Some(namespace) => {
                        let mut r = namespace.clone();
                        r.append(".");
                        r.append(inside.as_str());
                        r.append(".");
                        r.append(t.real_type_name.as_str());
                        r
                    },
                }
            }
        },
    }
}

/// Looks an identifier up in the registry and qualifies what it finds.
pub fn resolve_known_type_name(
    ident: &Ident,
    scope: &Scope,
    configuration: &CSharpConfiguration,
) -> (r: Result<TypeNameContainer, Error>)
    ensures
        agrees(r, known_type(*ident, context_of(*scope, *configuration))),
{
    match configuration.get_known_type(ident.name.as_str()) {
        None => {
            let mut message = String::from_str("Type with name '");
            message.append(ident.name.as_str());
            message.append("' was not found");
            Err(Error::UnknownType(message, ident.position))
        },
        Some(t) => Ok(TypeNameContainer::new(qualify(t, scope), ident.name.clone())),
    }
}

/// Resolves a type against a scope and a configuration.
pub fn convert_type_name(t: &TypeNode, scope: &Scope, configuration: &CSharpConfiguration) -> (r:
    Result<TypeNameContainer, Error>)
    ensures
        agrees(r, resolve_type(*t, context_of(*scope, *configuration))),
    decreases t, 0nat,
{
    match t {
        TypeNode::Path(path) => convert_type_path(path, scope, configuration),
        TypeNode::Pointer(inner) => match convert_type_name(inner, scope, configuration) {
            Ok(underlying) => {
                let mut native = underlying.rust_name;
                native.append("*");
                Ok(TypeNameContainer::new(String::from_str("IntPtr"), native))
            },
            Err(e) => Err(e),
        },
        TypeNode::Reference(inner) => match convert_type_name(inner, scope, configuration) {
            Ok(underlying) => {
                let mut managed = String::from_str("ref ");
                managed.append(underlying.stringify().as_str());
                let mut native = underlying.rust_name;
                native.append("&");
                Ok(TypeNameContainer::new(managed, native))
            },
            Err(e) => Err(e),
        },
        TypeNode::Unsupported(kind, position) => Err(
            Error::UnsupportedError(String::from_str(unsupported_text(*kind)), *position),
        ),
    }
}

/// Resolves a path against a scope and a configuration.
pub fn convert_type_path(path: &Path, scope: &Scope, configuration: &CSharpConfiguration) -> (r:
    Result<TypeNameContainer, Error>)
    ensures
        agrees(r, resolve_path(*path, context_of(*scope, *configuration))),
    decreases path, 0nat,
{
    match path.last() {
        None => Err(
            Error::UnsupportedError(
                String::from_str("Types without a path are not supported"),
                path.position,
            ),
        ),
        Some(segment) => {
            let name = segment.ident.name.as_str();
            if let Some(managed) = primitive_name(name, configuration.csharp_version()) {
                return Ok(
                    TypeNameContainer::new(String::from_str(managed), segment.ident.name.clone()),
                );
            }
            if let Some(message) = rejected_message(name) {
                return Err(
                    Error::UnsupportedError(String::from_str(message), segment.ident.position),
                );
            }
            let is_out = match configuration.out_type() {
                Some(marker) => marker.as_str().eq(name),
                None => false,
            };
            if is_out {
                return extract_out_parameter_type(segment, scope, configuration);
            }
            match resolve_known_type_name(&segment.ident, scope, configuration) {
                Err(e) => Err(e),
                Ok(base) => match &segment.arguments {
                    PathArguments::AngleBracketed(args) => match convert_arguments(
                        args,
                        scope,
                        configuration,
                    ) {
                        Ok(generics) => {
                            let r = TypeNameContainer {
                                csharp_name: base.csharp_name,
                                rust_name: base.rust_name,
                                generics,
                            };
                            assert(r@.generics =~= resolved_of(generics@));
                            Ok(r)
                        },
                        Err(e) => Err(e),
                    },
                    _ => Ok(base),
                },
            }
        },
    }
}

/// Resolves the one type that an out-parameter marker wraps.
pub fn extract_out_parameter_type(
    segment: &PathSegment,
    scope: &Scope,
    configuration: &CSharpConfiguration,
) -> (r: Result<TypeNameContainer, Error>)
    ensures
        agrees(r, resolve_out(*segment, context_of(*scope, *configuration))),
    decreases segment, 0nat,
{
    match &segment.arguments {
        PathArguments::AngleBracketed(args) => {
            if args.len() == 1 {
                match &args[0] {
                    GenericArgument::Type(t) => match convert_type_name(t, scope, configuration) {
                        Ok(inner) => {
                            let mut managed = String::from_str("out ");
                            managed.append(inner.stringify().as_str());
                            Ok(TypeNameContainer::new(managed, segment.ident.name.clone()))
                        },
                        Err(e) => Err(e),
                    },
                    GenericArgument::Other => Err(out_failure(&segment.ident)),
                }
            } else {
                Err(out_failure(&segment.ident))
            }
        },
        _ => Err(out_failure(&segment.ident)),
    }
}

/// The error for an out-parameter marker that does not wrap exactly one type.
pub fn out_failure(ident: &Ident) -> (e: Error)
    ensures
        e@ == out_error(*ident),
{
    Error::UnsupportedError(
        String::from_str("Out type requires the real type to be angle bracketed."),
        ident.position,
    )
}

/// Resolves the type arguments among the given generic arguments, in order.
pub fn convert_arguments(
    args: &Vec<GenericArgument>,
    scope: &Scope,
    configuration: &CSharpConfiguration,
) -> (r: Result<Vec<TypeNameContainer>, Error>)
    ensures
        match r {
            Ok(v) => resolve_arguments(
                args@,
                args.len() as nat,
                context_of(*scope, *configuration),
            ) == Ok::<Seq<ResolvedType>, ErrorView>(resolved_of(v@)),
            Err(e) => resolve_arguments(
                args@,
                args.len() as nat,
                context_of(*scope, *configuration),
            ) == Err::<Seq<ResolvedType>, ErrorView>(e@),
        },
    decreases args, 0nat,
{
    let ghost context = context_of(*scope, *configuration);
    let mut v: Vec<TypeNameContainer> = Vec::new();
    let mut i: usize = 0;
    assert(resolved_of(v@) =~= Seq::empty());
    while i < args.len()
        invariant
            i <= args.len(),
            context == context_of(*scope, *configuration),
            resolve_arguments(args@, i as nat, context) == Ok::<Seq<ResolvedType>, ErrorView>(
                resolved_of(v@),
            ),
        decreases args.len() - i,
    {
        match &args[i] {
            GenericArgument::Type(t) => match convert_type_name(t, scope, configuration) {
                Ok(resolved) => {
                    let ghost before = resolved_of(v@);
                    v.push(resolved);
                    assert(resolved_of(v@) =~= before.push(resolved@));
                },
                Err(e) => {
                    proof {
                        lemma_resolve_arguments_fails(
                            args@,
                            (i + 1) as nat,
                            args.len() as nat,
                            context,
                        );
                    }
                    return Err(e);
                },
            },
            GenericArgument::Other => {},
        }
        i = i + 1;
    }
    Ok(v)
}

/// Once the first `n` arguments fail to resolve, so do the first `m`, for any
/// `m` from `n` on, with the same error.
pub proof fn lemma_resolve_arguments_fails(
    args: Seq<GenericArgument>,
    n: nat,
    m: nat,
    context: Context,
)
    requires
        n <= m <= args.len(),
        resolve_arguments(args, n, context) is Err,
    ensures
        resolve_arguments(args, m, context) == resolve_arguments(args, n, context),
    decreases m,
{
    if n < m {
        lemma_resolve_arguments_fails(args, n, (m - 1) as nat, context);
    }
}

} // verus!
