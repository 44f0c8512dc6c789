//! The settings shared by the passes of one caller, with the registry of the
//! types that are known so far.

use crate::text::opt_text;
use vstd::hash_map::StringHashMap;
use vstd::prelude::*;
use vstd::string::*;

verus! {

/// Where a managed type lives.
#[derive(Debug)]
pub struct CSharpType {
    pub namespace: Option<String>,
    pub inside_type: Option<String>,
    pub real_type_name: String,
}

/// Where a managed type lives, as characters.
pub struct TypeIdentity {
    pub namespace: Option<Seq<char>>,
    pub enclosing: Option<Seq<char>>,
    pub name: Seq<char>,
}

impl View for CSharpType {
    type V = TypeIdentity;

    open spec fn view(&self) -> TypeIdentity {
        TypeIdentity {
            namespace: opt_text(self.namespace),
            enclosing: opt_text(self.inside_type),
            name: self.real_type_name@,
        }
    }
}

/// The managed-language version from which records get initialisation-only
/// properties and pointer-sized integers their native-width types.
pub const MODERN_VERSION: u8 = 9;

/// What is shared between passes: the registry of known types, the version of
/// the managed language, the out-parameter marker and the banner.
pub struct CSharpConfiguration {
    known_types: StringHashMap<CSharpType>,
    csharp_version: u8,
    out_type: Option<String>,
    generated_warning: String,
}

impl CSharpConfiguration {
    /// The registry: for each known native type name, where its managed type lives.
    pub closed spec fn registry(&self) -> Map<Seq<char>, TypeIdentity> {
        self.known_types@.map_values(|t: CSharpType| t@)
    }

    /// The version of the managed language that is generated for.
    pub closed spec fn version(&self) -> u8 {
        self.csharp_version
    }

    /// The native type name that marks an out parameter, if one is set.
    pub closed spec fn out_marker(&self) -> Option<Seq<char>> {
        opt_text(self.out_type)
    }

    /// The banner put on top of each generated text.
    pub closed spec fn banner(&self) -> Seq<char> {
        self.generated_warning@
    }

    /// A configuration for the given version, with nothing registered, no
    /// out-parameter marker and the default banner.
    pub fn new(csharp_version: u8) -> (c: Self)
        ensures
            c.registry() == Map::<Seq<char>, TypeIdentity>::empty(),
            c.version() == csharp_version,
            c.out_marker() is None,
            c.banner() == "Automatically generated, do not edit!"@,
    {
        let c = Self {
            known_types: StringHashMap::new(),
            csharp_version,
            out_type: None,
            generated_warning: String::from_str("Automatically generated, do not edit!"),
        };
        assert(c.registry() =~= Map::<Seq<char>, TypeIdentity>::empty());
        c
    }

    /// Registers where the managed type for a native type name lives. A later
    /// registration of the same name replaces the earlier one.
    pub fn add_known_type(
        &mut self,
        rust_type_name: &str,
        csharp_namespace: Option<String>,
        csharp_inside_type: Option<String>,
        csharp_type_name: String,
    )
        ensures
            final(self).registry() == old(self).registry().insert(
                rust_type_name@,
                TypeIdentity {
                    namespace: opt_text(csharp_namespace),
                    enclosing: opt_text(csharp_inside_type),
                    name: csharp_type_name@,
                },
            ),
            final(self).version() == old(self).version(),
            final(self).out_marker() == old(self).out_marker(),
            final(self).banner() == old(self).banner(),
    {
        let t = CSharpType {
            namespace: csharp_namespace,
            inside_type: csharp_inside_type,
            real_type_name: csharp_type_name,
        };
        self.known_types.insert(String::from_str(rust_type_name), t);
        assert(self.registry() =~= old(self).registry().insert(rust_type_name@, t@));
    }

    /// Makes a native type name the marker of out parameters.
    pub fn set_out_type(&mut self, rust_type_name: &str)
        ensures
            final(self).out_marker() == Some(rust_type_name@),
            final(self).registry() == old(self).registry(),
            final(self).version() == old(self).version(),
            final(self).banner() == old(self).banner(),
    {
        self.out_type = Some(String::from_str(rust_type_name));
    }

    /// Replaces the banner. It may have several lines; an empty one leaves the
    /// generated text without a banner.
    pub fn set_generated_warning(&mut self, generated_warning: &str)
        ensures
            final(self).banner() == generated_warning@,
            final(self).registry() == old(self).registry(),
            final(self).version() == old(self).version(),
            final(self).out_marker() == old(self).out_marker(),
    {
        self.generated_warning = String::from_str(generated_warning);
    }

    /// Where the managed type for a native type name lives, if the name is registered.
    pub fn get_known_type(&self, rust_type_name: &str) -> (r: Option<&CSharpType>)
        ensures
            match r {
                Some(t) => self.registry().contains_key(rust_type_name@) && t@
                    == self.registry()[rust_type_name@],
                None => !self.registry().contains_key(rust_type_name@),
            },
    {
        self.known_types.get(rust_type_name)
    }

    /// The version of the managed language that is generated for.
    pub fn csharp_version(&self) -> (v: u8)
        ensures
            v == self.version(),
    {
        self.csharp_version
    }

    /// The out-parameter marker, if one is set.
    pub fn out_type(&self) -> (r: &Option<String>)
        ensures
            opt_text(*r) == self.out_marker(),
    {
        &self.out_type
    }

    /// The banner.
    pub fn generated_warning(&self) -> (r: &str)
        ensures
            r@ == self.banner(),
    {
        self.generated_warning.as_str()
    }
}

/// Where a pass puts what it generates, and the library its calls are bound to.
#[derive(Debug)]
pub struct Scope {
    pub dll_name: String,
    pub namespace: Option<String>,
    pub enclosing_type: Option<String>,
}

/// Everything a pass resolves and emits against: the target namespace and
/// enclosing type, the library name, and the configuration it shares.
pub struct Context {
    pub namespace: Option<Seq<char>>,
    pub enclosing_type: Option<Seq<char>>,
    pub dll_name: Seq<char>,
    pub version: u8,
    pub out_type: Option<Seq<char>>,
    pub registry: Map<Seq<char>, TypeIdentity>,
}

/// The context that a scope and a configuration make together.
pub open spec fn context_of(scope: Scope, configuration: CSharpConfiguration) -> Context {
    Context {
        namespace: opt_text(scope.namespace),
        enclosing_type: opt_text(scope.enclosing_type),
        dll_name: scope.dll_name@,
        version: configuration.version(),
        out_type: configuration.out_marker(),
        registry: configuration.registry(),
    }
}

impl Context {
    /// This context after a type was registered.
    pub open spec fn with(self, name: Seq<char>, identity: TypeIdentity) -> Context {
        Context { registry: self.registry.insert(name, identity), ..self }
    }
}

} // verus!
