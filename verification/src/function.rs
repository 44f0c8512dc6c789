//! Lowering a function declaration to a foreign-call declaration.

use crate::config::{CSharpConfiguration, Context, Scope, context_of};
use crate::docs::{docs_of, extract_outer_docs, summary, summary_text};
use crate::error::{Error, ErrorView};
use crate::naming::{convert_naming, managed_name, pascal_case};
use crate::resolve::{
    ResolvedType, TypeNameContainer, convert_type_name, plain, rendered, resolve_type,
};
use crate::syntax::{Function, Parameter, Pattern};
use crate::text::{joined, joined_prefix};
use crate::writer::{line, line_text};
use vstd::prelude::*;
use vstd::string::*;

verus! {

/// A lowered parameter: its managed name, the managed text of its type and
/// the native name of its type.
pub struct ArgumentView {
    pub name: Seq<char>,
    pub declared: Seq<char>,
    pub native: Seq<char>,
}

/// A lowered parameter.
#[derive(Debug)]
pub struct Argument {
    pub name: String,
    pub declared: String,
    pub native: String,
}

impl View for Argument {
    type V = ArgumentView;

    open spec fn view(&self) -> ArgumentView {
        ArgumentView { name: self.name@, declared: self.declared@, native: self.native@ }
    }
}

/// The views of a sequence of lowered parameters.
pub open spec fn arguments_of(items: Seq<Argument>) -> Seq<ArgumentView> {
    items.map_values(|a: Argument| a@)
}

/// Whether a function is tagged with the C calling convention.
pub open spec fn is_extern_c_spec(f: Function) -> bool {
    match f.abi {
        Some(abi) => match abi.name {
            Some(name) => name@ == "C"@,
            None => false,
        },
        None => false,
    }
}

/// What one parameter lowers to. A receiver fails, and so does a parameter
/// that is bound by anything but a plain identifier.
pub open spec fn lowered_parameter(p: Parameter, context: Context) -> Result<
    ArgumentView,
    ErrorView,
> {
    match p {
        Parameter::Receiver(position) => Err(
            ErrorView::UnsupportedError("Receiver parameters aren't supported"@, position),
        ),
        Parameter::Typed(Pattern::Ident(ident), ty, _) => match resolve_type(ty, context) {
            Ok(t) => Ok(
                ArgumentView {
                    name: managed_name(ident.name@, true),
                    declared: rendered(t),
                    native: t.native,
                },
            ),
            Err(e) => Err(e),
        },
        Parameter::Typed(Pattern::Other, _, position) => Err(
            ErrorView::UnsupportedError(
                "Parameters that are not identity aren't supported"@,
                position,
            ),
        ),
    }
}

/// What the first `n` parameters lower to, in order, or the first failure
/// among them.
pub open spec fn lowered_parameters(inputs: Seq<Parameter>, n: nat, context: Context) -> Result<
    Seq<ArgumentView>,
    ErrorView,
>
    decreases n,
{
    if n == 0 || n > inputs.len() {
        Ok(Seq::empty())
    } else {
        match lowered_parameters(inputs, (n - 1) as nat, context) {
            Err(e) => Err(e),
            Ok(before) => match lowered_parameter(inputs[n - 1], context) {
                Ok(a) => Ok(before.push(a)),
                Err(e) => Err(e),
            },
        }
    }
}

/// What the declared return type resolves to; `void` if none is declared.
pub open spec fn return_type(f: Function, context: Context) -> Result<ResolvedType, ErrorView> {
    match f.output {
        None => Ok(plain("void"@, "void"@)),
        Some(t) => resolve_type(t, context),
    }
}

/// One documentation line for each of the first `n` parameters, with the
/// native name of its type.
pub open spec fn parameter_docs(args: Seq<ArgumentView>, n: nat, level: nat) -> Seq<char>
    decreases n,
{
    if n == 0 || n > args.len() {
        Seq::empty()
    } else {
        parameter_docs(args, (n - 1) as nat, level) + line(
            "/// <param name=\""@ + args[n - 1].name + "\">"@ + args[n - 1].native + "</param>"@,
            level,
        )
    }
}

/// Each parameter as it stands in the managed declaration: type, then name.
pub open spec fn declared_arguments(args: Seq<ArgumentView>) -> Seq<Seq<char>> {
    args.map_values(|a: ArgumentView| a.declared + " "@ + a.name)
}

/// The annotation that binds a declaration to the entry point `name` of the
/// library `dll_name`, with the C calling convention.
pub open spec fn import_annotation(dll_name: Seq<char>, name: Seq<char>) -> Seq<char> {
    "[DllImport(\""@ + dll_name + "\", CallingConvention = CallingConvention.Cdecl, EntryPoint=\""@
        + name + "\")]"@
}

/// The managed declaration of a foreign function.
pub open spec fn extern_declaration(
    ret: ResolvedType,
    name: Seq<char>,
    args: Seq<ArgumentView>,
) -> Seq<char> {
    "internal static extern "@ + rendered(ret) + " "@ + pascal_case(name) + "("@ + joined(
        declared_arguments(args),
        ", "@,
    ) + ");"@
}

/// The text that a function lowers to.
///
/// A function without the C calling convention gives no text. Otherwise the
/// return type and the parameters are resolved, in this order, and the text
/// is the summary, a line for each parameter and one for the return type, the
/// import annotation, the declaration and an empty line.
pub open spec fn function_text(f: Function, context: Context, level: nat) -> Result<
    Seq<char>,
    ErrorView,
> {
    if !is_extern_c_spec(f) {
        Ok(Seq::empty())
    } else {
        match return_type(f, context) {
            Err(e) => Err(e),
            Ok(ret) => match lowered_parameters(f.inputs@, f.inputs.len() as nat, context) {
                Err(e) => Err(e),
                Ok(args) => match docs_of(f.attrs@) {
                    Err(e) => Err(e),
                    Ok(docs) => Ok(
                        summary(docs, level) + parameter_docs(args, args.len(), level) + line(
                            "/// <returns>"@ + ret.native + "</returns>"@,
                            level,
                        ) + line(import_annotation(context.dll_name, f.ident.name@), level) + line(
                            extern_declaration(ret, f.ident.name@, args),
                            level,
                        ) + "\n"@,
                    ),
                },
            },
        }
    }
}

/// Once the first `n` parameters fail to lower, so do the first `m`, for any
/// `m` from `n` on, with the same error.
pub proof fn lemma_lowered_parameters_fails(
    inputs: Seq<Parameter>,
    n: nat,
    m: nat,
    context: Context,
)
    requires
        n <= m <= inputs.len(),
        lowered_parameters(inputs, n, context) is Err,
    ensures
        lowered_parameters(inputs, m, context) == lowered_parameters(inputs, n, context),
    decreases m,
{
    if n < m {
        lemma_lowered_parameters_fails(inputs, n, (m - 1) as nat, context);
    }
}

/// Whether a function is tagged with the C calling convention.
pub fn is_extern_c(func: &Function) -> (r: bool)
    ensures
        r == is_extern_c_spec(*func),
{
    match &func.abi {
        None => false,
        Some(abi) => match &abi.name {
            None => false,
            Some(name) => name.as_str().eq("C"),
        },
    }
}

/// Lowers one parameter.
pub fn convert_parameter(p: &Parameter, scope: &Scope, configuration: &CSharpConfiguration) -> (r:
    Result<Argument, Error>)
    ensures
        match r {
            Ok(a) => lowered_parameter(*p, context_of(*scope, *configuration)) == Ok::<
                ArgumentView,
                ErrorView,
            >(a@),
            Err(e) => lowered_parameter(*p, context_of(*scope, *configuration)) == Err::<
                ArgumentView,
                ErrorView,
            >(e@),
        },
{
    match p {
        Parameter::Receiver(position) => Err(
            Error::UnsupportedError(
                String::from_str("Receiver parameters aren't supported"),
                *position,
            ),
        ),
        Parameter::Typed(Pattern::Ident(ident), ty, _) => match convert_type_name(
            ty,
            scope,
            configuration,
        ) {
            Ok(t) => {
                let declared = t.stringify();
                Ok(
                    Argument {
                        name: convert_naming(ident.name.as_str(), true),
                        declared,
                        native: t.rust_name,
                    },
                )
            },
            Err(e) => Err(e),
        },
        Parameter::Typed(Pattern::Other, _, position) => Err(
            Error::UnsupportedError(
                String::from_str("Parameters that are not identity aren't supported"),
                *position,
            ),
        ),
    }
}

/// Lowers the parameters of a function, in order.
pub fn convert_parameters(
    inputs: &Vec<Parameter>,
    scope: &Scope,
    configuration: &CSharpConfiguration,
) -> (r: Result<Vec<Argument>, Error>)
    ensures
        match r {
            Ok(v) => lowered_parameters(
                inputs@,
                inputs.len() as nat,
                context_of(*scope, *configuration),
            ) == Ok::<Seq<ArgumentView>, ErrorView>(arguments_of(v@)),
            Err(e) => lowered_parameters(
                inputs@,
                inputs.len() as nat,
                context_of(*scope, *configuration),
            ) == Err::<Seq<ArgumentView>, ErrorView>(e@),
        },
{
    let ghost context = context_of(*scope, *configuration);
    let mut v: Vec<Argument> = Vec::new();
    let mut i: usize = 0;
    assert(arguments_of(v@) =~= Seq::empty());
    while i < inputs.len()
        invariant
            i <= inputs.len(),
            context == context_of(*scope, *configuration),
            lowered_parameters(inputs@, i as nat, context) == Ok::<Seq<ArgumentView>, ErrorView>(
                arguments_of(v@),
            ),
        decreases inputs.len() - i,
    {
        match convert_parameter(&inputs[i], scope, configuration) {
            Ok(a) => {
                let ghost before = arguments_of(v@);
                v.push(a);
                assert(arguments_of(v@) =~= before.push(a@));
            },
            Err(e) => {
                proof {
                    lemma_lowered_parameters_fails(
                        inputs@,
                        (i + 1) as nat,
                        inputs.len() as nat,
                        context,
                    );
                }
                return Err(e);
            },
        }
        i = i + 1;
    }
    Ok(v)
}

/// The parameters as they stand in the managed declaration, separated by a
/// comma and a space.
pub fn argument_list(args: &Vec<Argument>) -> (r: String)
    ensures
        r@ == joined(declared_arguments(arguments_of(args@)), ", "@),
{
    let ghost parts = declared_arguments(arguments_of(args@));
    let mut r = String::new();
    let mut i: usize = 0;
    while i < args.len()
        invariant
            i <= args.len(),
            parts == declared_arguments(arguments_of(args@)),
            r@ == joined_prefix(parts, ", "@, i as nat),
        decreases args.len() - i,
    {
        if i != 0 {
            r.append(", ");
        }
        let mut part = args[i].declared.clone();
        part.append(" ");
        part.append(args[i].name.as_str());
        assert(part@ == parts[i as int]);
        r.append(part.as_str());
        proof {
            if i == 0 {
                assert(r@ =~= parts[0]);
            }
        }
        i = i + 1;
    }
    r
}

/// The documentation lines of the parameters.
pub fn parameter_doc_text(args: &Vec<Argument>, indents: usize) -> (r: String)
    ensures
        r@ == parameter_docs(arguments_of(args@), args.len() as nat, indents as nat),
{
    let ghost views = arguments_of(args@);
    let mut r = String::new();
    let mut i: usize = 0;
    while i < args.len()
        invariant
            i <= args.len(),
            views == arguments_of(args@),
            r@ == parameter_docs(views, i as nat, indents as nat),
        decreases args.len() - i,
    {
        let mut content = String::from_str("/// <param name=\"");
        content.append(args[i].name.as_str());
        content.append("\">");
        content.append(args[i].native.as_str());
        content.append("</param>");
        r.append(line_text(content.as_str(), indents).as_str());
        i = i + 1;
    }
    r
}

/// Appends to `out` what a function lowers to. On failure `out` is left as it was.
pub fn write_function(
    out: &mut String,
    indents: usize,
    scope: &Scope,
    configuration: &CSharpConfiguration,
    fun: &Function,
) -> (r: Result<(), Error>)
    ensures
        match function_text(*fun, context_of(*scope, *configuration), indents as nat) {
            Ok(text) => r is Ok && final(out)@ == old(out)@ + text,
            Err(e) => r is Err && r.unwrap_err()@ == e && final(out)@ == old(out)@,
        },
{
    if !is_extern_c(fun) {
        assert(out@ + Seq::<char>::empty() =~= out@);
        return Ok(());
    }
    let ret = match &fun.output {
        None => TypeNameContainer::new(String::from_str("void"), String::from_str("void")),
        Some(t) => match convert_type_name(t, scope, configuration) {
            Ok(ret) => ret,
            Err(e) => {
                return Err(e);
            },
        },
    };
    let args = match convert_parameters(&fun.inputs, scope, configuration) {
        Ok(args) => args,
        Err(e) => {
            return Err(e);
        },
    };
    let docs = match extract_outer_docs(&fun.attrs) {
        Ok(docs) => docs,
        Err(e) => {
            return Err(e);
        },
    };
    let mut text = summary_text(&docs, indents);
    text.append(parameter_doc_text(&args, indents).as_str());

    let mut result_doc = String::from_str("/// <returns>");
    result_doc.append(ret.rust_name.as_str());
    result_doc.append("</returns>");
    text.append(line_text(result_doc.as_str(), indents).as_str());

    let mut annotation = String::from_str("[DllImport(\"");
    annotation.append(scope.dll_name.as_str());
    annotation.append("\", CallingConvention = CallingConvention.Cdecl, EntryPoint=\"");
    annotation.append(fun.ident.name.as_str());
    annotation.append("\")]");
    text.append(line_text(annotation.as_str(), indents).as_str());

    let mut declaration = String::from_str("internal static extern ");
    declaration.append(ret.stringify().as_str());
    declaration.append(" ");
    declaration.append(convert_naming(fun.ident.name.as_str(), false).as_str());
    declaration.append("(");
    declaration.append(argument_list(&args).as_str());
    declaration.append(");");
    text.append(line_text(declaration.as_str(), indents).as_str());
    text.append("\n");

    out.append(text.as_str());
    Ok(())
}

} // verus!
