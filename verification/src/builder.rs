//! A lowering pass: the declarations of one source module, lowered top to
//! bottom into one managed source text.

use crate::config::{CSharpConfiguration, Context, Scope, TypeIdentity, context_of};
use crate::enumeration::{declared_here, enumeration_text, write_enum};
use crate::error::{Error, ErrorView, fails_as};
use crate::function::{function_text, write_function};
use crate::record::{record_text, write_struct};
use crate::resolve::{convert_arguments, rendered_list, resolve_arguments, stringify_all};
use crate::syntax::{Declaration, PathArguments, TypeAlias, TypeNode, last_segment};
use crate::text::{clone_opt, lines, lines_of, opt_text, texts};
use crate::writer::{line, line_text};
use vstd::prelude::*;
use vstd::string::*;

verus! {

/// Where a pass stands: the context with what is registered so far, the
/// text written so far, and the failure that stopped it, if one did.
pub struct Lowered {
    pub context: Context,
    pub text: Seq<char>,
    pub error: Option<ErrorView>,
}

/// The identity that an alias gets: that of the registered type its target
/// names, with the rendered generic arguments of the target added to the
/// name. None if the target is not a path or its last segment names no
/// registered type; the alias is then passed over.
pub open spec fn alias_identity(a: TypeAlias, context: Context) -> Result<
    Option<TypeIdentity>,
    ErrorView,
> {
    match a.ty {
        TypeNode::Path(path) => match last_segment(path) {
            None => Ok(None),
            Some(segment) => if !context.registry.contains_key(segment.ident.name@) {
                Ok(None)
            } else {
                let base = context.registry[segment.ident.name@];
                match segment.arguments {
                    PathArguments::AngleBracketed(args) => match resolve_arguments(
                        args@,
                        args.len() as nat,
                        context,
                    ) {
                        Err(e) => Err(e),
                        Ok(generics) => Ok(
                            Some(
                                TypeIdentity {
                                    name: base.name + "<"@ + rendered_list(
                                        generics,
                                        generics.len(),
                                    ) + ">"@,
                                    ..base
                                },
                            ),
                        ),
                    },
                    _ => Ok(Some(base)),
                }
            },
        },
        _ => Ok(None),
    }
}

/// A pass after it failed with `e`.
pub open spec fn failed(before: Lowered, e: ErrorView) -> Lowered {
    Lowered { error: Some(e), ..before }
}

/// A pass after one more declaration. A pass that has failed stays as it is.
///
/// A function adds its text. An enumeration and a record add their text and
/// are registered under their own name, in the namespace and enclosing type
/// of the pass. An alias is registered under the identity of its target. A
/// module stands for the declarations inside it. The first failure stops the
/// pass, with the text and the registry as they were before the declaration
/// that failed.
pub open spec fn lower_declaration(d: Declaration, before: Lowered, level: nat) -> Lowered
    decreases d, 0nat,
{
    if before.error is Some {
        before
    } else {
        match d {
            Declaration::Function(f) => match function_text(f, before.context, level) {
                Ok(text) => Lowered { text: before.text + text, ..before },
                Err(e) => failed(before, e),
            },
            Declaration::Enumeration(en) => match enumeration_text(en, before.context, level) {
                Ok(Some(text)) => Lowered {
                    context: before.context.with(
                        en.ident.name@,
                        declared_here(before.context, en.ident.name@),
                    ),
                    text: before.text + text,
                    error: None,
                },
                Ok(None) => before,
                Err(e) => failed(before, e),
            },
            Declaration::Record(r) => match record_text(r, before.context, level) {
                Ok(Some(text)) => Lowered {
                    context: before.context.with(
                        r.ident.name@,
                        declared_here(before.context, r.ident.name@),
                    ),
                    text: before.text + text,
                    error: None,
                },
                Ok(None) => before,
                Err(e) => failed(before, e),
            },
            Declaration::TypeAlias(a) => match alias_identity(a, before.context) {
                Ok(Some(identity)) => Lowered {
                    context: before.context.with(a.ident.name@, identity),
                    ..before
                },
                Ok(None) => before,
                Err(e) => failed(before, e),
            },
            Declaration::Module(items) => lower_all(items@, items.len() as nat, before, level),
            Declaration::Other => before,
        }
    }
}

/// A pass after the first `n` of the given declarations, in order.
pub open spec fn lower_all(items: Seq<Declaration>, n: nat, before: Lowered, level: nat) -> Lowered
    decreases items, n,
{
    if n == 0 || n > items.len() {
        before
    } else {
        lower_declaration(items[n - 1], lower_all(items, (n - 1) as nat, before, level), level)
    }
}

/// One comment line for each of the first `n` lines of a banner.
pub open spec fn banner_lines(lines: Seq<Seq<char>>, n: nat) -> Seq<char>
    decreases n,
{
    if n == 0 || n > lines.len() {
        Seq::empty()
    } else {
        banner_lines(lines, (n - 1) as nat) + line("// "@ + lines[n - 1], 0)
    }
}

/// One import directive for each of the first `n` names.
pub open spec fn using_lines(usings: Seq<Seq<char>>, n: nat) -> Seq<char>
    decreases n,
{
    if n == 0 || n > usings.len() {
        Seq::empty()
    } else {
        using_lines(usings, (n - 1) as nat) + line("using "@ + usings[n - 1] + ";"@, 0)
    }
}

/// What stands on top of a generated text: the banner as comment lines, the
/// import directives and an empty line.
pub open spec fn preamble(banner: Seq<char>, usings: Seq<Seq<char>>) -> Seq<char> {
    banner_lines(lines_of(banner), lines_of(banner).len()) + using_lines(usings, usings.len())
        + "\n"@
}

/// The level of indentation inside the namespace, if there is one.
pub open spec fn namespace_level(context: Context) -> nat {
    if context.namespace is Some {
        1
    } else {
        0
    }
}

/// The level of indentation of the lowered declarations.
pub open spec fn body_level(context: Context) -> nat {
    if context.enclosing_type is Some {
        namespace_level(context) + 1
    } else {
        namespace_level(context)
    }
}

/// The lines that open the namespace, if there is one.
pub open spec fn namespace_opening(context: Context) -> Seq<char> {
    match context.namespace {
        Some(namespace) => line("namespace "@ + namespace, 0) + line("{"@, 0),
        None => Seq::empty(),
    }
}

/// The lines that open the enclosing type, if there is one.
pub open spec fn type_opening(context: Context) -> Seq<char> {
    match context.enclosing_type {
        Some(name) => line("internal static class "@ + name, namespace_level(context)) + line(
            "{"@,
            namespace_level(context),
        ),
        None => Seq::empty(),
    }
}

/// The lines that open the namespace and the enclosing type, as far as there are any.
pub open spec fn opening(context: Context) -> Seq<char> {
    namespace_opening(context) + type_opening(context)
}

/// The lines that close what [`opening`] opened, in reverse order.
pub open spec fn closing(context: Context) -> Seq<char> {
    (if context.enclosing_type is Some {
        line("}"@, namespace_level(context))
    } else {
        Seq::empty()
    }) + (if context.namespace is Some {
        line("}"@, 0)
    } else {
        Seq::empty()
    })
}

/// A whole pass over the given declarations: it starts from the preamble and
/// the opening lines and lowers every declaration in order.
pub open spec fn pass(
    tokens: Seq<Declaration>,
    context: Context,
    banner: Seq<char>,
    usings: Seq<Seq<char>>,
) -> Lowered {
    lower_all(
        tokens,
        tokens.len(),
        Lowered { context, text: preamble(banner, usings) + opening(context), error: None },
        body_level(context),
    )
}

/// What a pass gives back: the failure that stopped it, or the whole text
/// with the closing lines.
pub open spec fn built(
    tokens: Seq<Declaration>,
    context: Context,
    banner: Seq<char>,
    usings: Seq<Seq<char>>,
) -> Result<Seq<char>, ErrorView> {
    let after = pass(tokens, context, banner, usings);
    match after.error {
        Some(e) => Err(e),
        None => Ok(after.text + closing(context)),
    }
}

/// A pass that has failed stays as it is, whatever is lowered after.
pub proof fn lemma_lower_all_fails(
    items: Seq<Declaration>,
    n: nat,
    m: nat,
    before: Lowered,
    level: nat,
)
    requires
        n <= m <= items.len(),
        lower_all(items, n, before, level).error is Some,
    ensures
        lower_all(items, m, before, level) == lower_all(items, n, before, level),
    decreases m,
{
    if n < m {
        lemma_lower_all_fails(items, n, (m - 1) as nat, before, level);
        let previous = lower_all(items, (m - 1) as nat, before, level);
        assert(lower_declaration(items[m - 1], previous, level) == previous);
    }
}

/// Registers an alias under the identity of the registered type its target names.
pub fn write_alias(alias: &TypeAlias, scope: &Scope, configuration: &mut CSharpConfiguration) -> (r:
    Result<(), Error>)
    ensures
        final(configuration).banner() == old(configuration).banner(),
        match alias_identity(*alias, context_of(*scope, *old(configuration))) {
            Ok(Some(identity)) => {
                &&& r is Ok
                &&& context_of(*scope, *final(configuration)) == context_of(
                    *scope,
                    *old(configuration),
                ).with(alias.ident.name@, identity)
            },
            Ok(None) => {
                &&& r is Ok
                &&& context_of(*scope, *final(configuration)) == context_of(
                    *scope,
                    *old(configuration),
                )
            },
            Err(e) => {
                &&& r is Err
                &&& r.unwrap_err()@ == e
                &&& context_of(*scope, *final(configuration)) == context_of(
                    *scope,
                    *old(configuration),
                )
            },
        },
{
    if let TypeNode::Path(path) = &alias.ty {
        if let Some(segment) = path.last() {
            let (namespace, inside, mut name) = match configuration.get_known_type(
                segment.ident.name.as_str(),
            ) {
                None => {
                    return Ok(());
                },
                Some(t) => (
                    clone_opt(&t.namespace),
                    clone_opt(&t.inside_type),
                    t.real_type_name.clone(),
                ),
            };
            if let PathArguments::AngleBracketed(args) = &segment.arguments {
                match convert_arguments(args, scope, configuration) {
                    Err(e) => {
                        return Err(e);
                    },
                    Ok(generics) => {
                        name.append("<");
                        name.append(stringify_all(&generics).as_str());
                        name.append(">");
                    },
                }
            }
            configuration.add_known_type(alias.ident.name.as_str(), namespace, inside, name);
        }
    }
    Ok(())
}

/// Lowers one declaration: appends its text to `out` and registers what it declares.
pub fn write_token(
    out: &mut String,
    token: &Declaration,
    indents: usize,
    scope: &Scope,
    configuration: &mut CSharpConfiguration,
) -> (r: Result<(), Error>)
    requires
        indents < usize::MAX - 1,
    ensures
        final(configuration).banner() == old(configuration).banner(),
        ({
            let after = lower_declaration(
                *token,
                Lowered {
                    context: context_of(*scope, *old(configuration)),
                    text: old(out)@,
                    error: None,
                },
                indents as nat,
            );
            &&& final(out)@ == after.text
            &&& context_of(*scope, *final(configuration)) == after.context
            &&& fails_as(r, after.error)
        }),
    decreases token, 0nat,
{
    proof {
        assert(out@ + Seq::<char>::empty() =~= out@);
    }
    match token {
        Declaration::Function(fun) => write_function(out, indents, scope, configuration, fun),
        Declaration::Enumeration(en) => write_enum(out, indents, en, scope, configuration),
        Declaration::Record(strct) => write_struct(out, indents, strct, scope, configuration),
        Declaration::TypeAlias(alias) => write_alias(alias, scope, configuration),
        Declaration::Module(items) => write_tokens(out, items, indents, scope, configuration),
        Declaration::Other => Ok(()),
    }
}

/// Lowers the given declarations in order, up to the first that fails.
pub fn write_tokens(
    out: &mut String,
    tokens: &Vec<Declaration>,
    indents: usize,
    scope: &Scope,
    configuration: &mut CSharpConfiguration,
) -> (r: Result<(), Error>)
    requires
        indents < usize::MAX - 1,
    ensures
        final(configuration).banner() == old(configuration).banner(),
        ({
            let after = lower_all(
                tokens@,
                tokens.len() as nat,
                Lowered {
                    context: context_of(*scope, *old(configuration)),
                    text: old(out)@,
                    error: None,
                },
                indents as nat,
            );
            &&& final(out)@ == after.text
            &&& context_of(*scope, *final(configuration)) == after.context
            &&& fails_as(r, after.error)
        }),
    decreases tokens, 1nat,
{
    let ghost start = Lowered {
        context: context_of(*scope, *old(configuration)),
        text: old(out)@,
        error: None,
    };
    let mut i: usize = 0;
    while i < tokens.len()
        invariant
            i <= tokens.len(),
            indents < usize::MAX - 1,
            configuration.banner() == old(configuration).banner(),
            start == (Lowered {
                context: context_of(*scope, *old(configuration)),
                text: old(out)@,
                error: None,
            }),
            lower_all(tokens@, i as nat, start, indents as nat) == (Lowered {
                context: context_of(*scope, *configuration),
                text: out@,
                error: None,
            }),
        decreases tokens.len() - i,
    {
        let ghost previous = lower_all(tokens@, i as nat, start, indents as nat);
        assert(lower_all(tokens@, (i + 1) as nat, start, indents as nat) == lower_declaration(
            tokens@[i as int],
            previous,
            indents as nat,
        ));
        match write_token(out, &tokens[i], indents, scope, configuration) {
            Ok(()) => {},
            Err(e) => {
                proof {
                    lemma_lower_all_fails(
                        tokens@,
                        (i + 1) as nat,
                        tokens.len() as nat,
                        start,
                        indents as nat,
                    );
                }
                return Err(e);
            },
        }
        i = i + 1;
    }
    Ok(())
}

/// The banner as comment lines.
pub fn banner_text(banner: &str) -> (r: String)
    ensures
        r@ == banner_lines(lines_of(banner@), lines_of(banner@).len()),
{
    let all = lines(banner);
    let mut r = String::new();
    let mut i: usize = 0;
    while i < all.len()
        invariant
            i <= all.len(),
            texts(all@) == lines_of(banner@),
            r@ == banner_lines(lines_of(banner@), i as nat),
        decreases all.len() - i,
    {
        let mut content = String::from_str("// ");
        content.append(all[i].as_str());
        r.append(line_text(content.as_str(), 0).as_str());
        i = i + 1;
    }
    r
}

/// The import directives, one for each name.
pub fn usings_text(usings: &Vec<String>) -> (r: String)
    ensures
        r@ == using_lines(texts(usings@), usings.len() as nat),
{
    let mut r = String::new();
    let mut i: usize = 0;
    while i < usings.len()
        invariant
            i <= usings.len(),
            r@ == using_lines(texts(usings@), i as nat),
        decreases usings.len() - i,
    {
        let mut content = String::from_str("using ");
        content.append(usings[i].as_str());
        content.append(";");
        r.append(line_text(content.as_str(), 0).as_str());
        i = i + 1;
    }
    r
}

/// The lines that open the namespace and the enclosing type of a scope.
pub fn opening_text(scope: &Scope, configuration: &CSharpConfiguration) -> (r: (String, usize))
    ensures
        r.0@ == opening(context_of(*scope, *configuration)),
        r.1 == body_level(context_of(*scope, *configuration)),
        r.1 <= 2,
{
    let mut r = String::new();
    let mut level: usize = 0;
    match &scope.namespace {
        Some(namespace) => {
            let mut content = String::from_str("namespace ");
            content.append(namespace.as_str());
            r = line_text(content.as_str(), 0);
            r.append(line_text("{", 0).as_str());
            level = 1;
        },
        None => {},
    }
    match &scope.enclosing_type {
        Some(name) => {
            let mut content = String::from_str("internal static class ");
            content.append(name.as_str());
            let mut part = line_text(content.as_str(), level);
            part.append(line_text("{", level).as_str());
            r.append(part.as_str());
            level = level + 1;
        },
        None => {
            assert(r@ + Seq::<char>::empty() =~= r@);
        },
    }
    (r, level)
}

/// The lines that close the enclosing type and the namespace of a scope.
pub fn closing_text(scope: &Scope, configuration: &CSharpConfiguration) -> (r: String)
    ensures
        r@ == closing(context_of(*scope, *configuration)),
{
    let mut r = String::new();
    let level: usize = if scope.namespace.is_some() {
        1
    } else {
        0
    };
    if scope.enclosing_type.is_some() {
        r.append(line_text("}", level).as_str());
    }
    if scope.namespace.is_some() {
        r.append(line_text("}", 0).as_str());
    }
    assert(r@ =~= closing(context_of(*scope, *configuration)));
    r
}

/// Lowers the declarations of one source module into one managed source
/// text, against a configuration that it shares with other passes.
pub struct CSharpBuilder<'a> {
    /// The configuration that this pass reads and registers into.
    pub configuration: &'a mut CSharpConfiguration,
    /// Where the pass puts what it generates, and the library it binds to.
    pub scope: Scope,
    /// The names that the generated text imports.
    pub usings: Vec<String>,
    /// The declarations that the pass lowers.
    pub tokens: Vec<Declaration>,
}

impl<'a> CSharpBuilder<'a> {
    /// The context of the pass as it stands.
    pub open spec fn context(&self) -> Context {
        context_of(self.scope, *self.configuration)
    }

    /// The pass that `build` makes from the state of this builder.
    pub open spec fn outcome(&self) -> Lowered {
        pass(self.tokens@, self.context(), self.configuration.banner(), texts(self.usings@))
    }

    /// What `build` gives back from the state of this builder.
    pub open spec fn output(&self) -> Result<Seq<char>, ErrorView> {
        built(self.tokens@, self.context(), self.configuration.banner(), texts(self.usings@))
    }

    /// A builder for the given declarations, bound to the library `dll_name`,
    /// with no namespace, no enclosing type and the two default imports. The
    /// configuration is borrowed until the builder is let go.
    pub fn new(
        tokens: Vec<Declaration>,
        dll_name: &str,
        configuration: &'a mut CSharpConfiguration,
    ) -> (b: CSharpBuilder<'a>)
        ensures
            *b.configuration == *old(configuration),
            *final(b.configuration) == *final(configuration),
            b.tokens == tokens,
            b.scope.dll_name@ == dll_name@,
            b.scope.namespace is None,
            b.scope.enclosing_type is None,
            texts(b.usings@) == seq!["System"@, "System.Runtime.InteropServices"@],
    {
        let mut usings: Vec<String> = Vec::new();
        usings.push(String::from_str("System"));
        usings.push(String::from_str("System.Runtime.InteropServices"));
        assert(texts(usings@) =~= seq!["System"@, "System.Runtime.InteropServices"@]);
        CSharpBuilder {
            configuration,
            scope: Scope {
                dll_name: String::from_str(dll_name),
                namespace: None,
                enclosing_type: None,
            },
            usings,
            tokens,
        }
    }

    /// Runs the pass and gives back the generated text, or the failure that
    /// stopped it. Either way the configuration holds what was registered up
    /// to that point, and nothing else of the builder changes.
    pub fn build(&mut self) -> (r: Result<String, Error>)
        ensures
            match old(self).output() {
                Ok(text) => r is Ok && r.unwrap()@ == text,
                Err(e) => r is Err && r.unwrap_err()@ == e,
            },
            final(self).context() == old(self).outcome().context,
            final(self).configuration.banner() == old(self).configuration.banner(),
            final(self).scope == old(self).scope,
            final(self).usings == old(self).usings,
            final(self).tokens == old(self).tokens,
            *final(final(self).configuration) == *final(old(self).configuration),
    {
        build_csharp(self)
    }

    /// Sets the namespace that the generated declarations are put in.
    pub fn set_namespace(&mut self, namespace: &str)
        ensures
            opt_text(final(self).scope.namespace) == Some(namespace@),
            final(self).scope.enclosing_type == old(self).scope.enclosing_type,
            final(self).scope.dll_name == old(self).scope.dll_name,
            final(self).usings == old(self).usings,
            final(self).tokens == old(self).tokens,
            *final(self).configuration == *old(self).configuration,
            *final(final(self).configuration) == *final(old(self).configuration),
    {
        self.scope.namespace = Some(String::from_str(namespace));
    }

    /// Sets the type that the generated declarations are wrapped in.
    pub fn set_type(&mut self, name: &str)
        ensures
            opt_text(final(self).scope.enclosing_type) == Some(name@),
            final(self).scope.namespace == old(self).scope.namespace,
            final(self).scope.dll_name == old(self).scope.dll_name,
            final(self).usings == old(self).usings,
            final(self).tokens == old(self).tokens,
            *final(self).configuration == *old(self).configuration,
            *final(final(self).configuration) == *final(old(self).configuration),
    {
        self.scope.enclosing_type = Some(String::from_str(name));
    }

    /// Adds an import to the top of the generated text, after those already there.
    pub fn add_using(&mut self, using: &str)
        ensures
            texts(final(self).usings@) == texts(old(self).usings@).push(using@),
            final(self).scope == old(self).scope,
            final(self).tokens == old(self).tokens,
            *final(self).configuration == *old(self).configuration,
            *final(final(self).configuration) == *final(old(self).configuration),
    {
        self.usings.push(String::from_str(using));
        assert(texts(self.usings@) =~= texts(old(self).usings@).push(using@));
    }
}

/// Runs the pass of a builder and gives back the generated text.
///
/// The text is the preamble, the lines that open the namespace and the
/// enclosing type, what the declarations lower to, and the closing lines.
/// The first failure ends the pass and is given back instead. Either way
/// the configuration holds what was registered up to that point.
pub fn build_csharp(builder: &mut CSharpBuilder) -> (r: Result<String, Error>)
    ensures
        match old(builder).output() {
            Ok(text) => r is Ok && r.unwrap()@ == text,
            Err(e) => r is Err && r.unwrap_err()@ == e,
        },
        final(builder).context() == old(builder).outcome().context,
        final(builder).configuration.banner() == old(builder).configuration.banner(),
        final(builder).scope == old(builder).scope,
        final(builder).usings == old(builder).usings,
        final(builder).tokens == old(builder).tokens,
        *final(final(builder).configuration) == *final(old(builder).configuration),
{
    let mut script = banner_text(builder.configuration.generated_warning());
    script.append(usings_text(&builder.usings).as_str());
    script.append("\n");
    let (open, level) = opening_text(&builder.scope, builder.configuration);
    script.append(open.as_str());
    let close = closing_text(&builder.scope, builder.configuration);
    match write_tokens(&mut script, &builder.tokens, level, &builder.scope, builder.configuration) {
        Err(e) => Err(e),
        Ok(()) => {
            script.append(close.as_str());
            Ok(script)
        },
    }
}

} // verus!
