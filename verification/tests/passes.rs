use csharp_binder::syntax::{
    Abi, Attribute, Declaration, Discriminant, Enumeration, Field, Function, GenericArgument,
    GenericParam, Ident, Literal, NestedMeta, Parameter, Path, PathArguments, PathSegment,
    Pattern, Record, SourcePosition, TypeAlias, TypeNode, UnsupportedKind, Variant,
};
use csharp_binder::{CSharpBuilder, CSharpConfiguration, Error};
use syn::spanned::Spanned;

/// The declarations of a source module, as the parser reads them.
fn parse(script: &str) -> Vec<Declaration> {
    let file: syn::File = syn::parse_str(script).unwrap();
    declarations(&file)
}

/// The declarations of a parsed source module, in order.
fn declarations(file: &syn::File) -> Vec<Declaration> {
    file.items.iter().map(declaration).collect()
}

fn position(span: proc_macro2::Span) -> SourcePosition {
    let start = span.start();
    SourcePosition { line: start.line, column: start.column }
}

fn ident(ident: &syn::Ident) -> Ident {
    Ident { name: ident.to_string(), position: position(ident.span()) }
}

fn declaration(item: &syn::Item) -> Declaration {
    match item {
        syn::Item::Enum(en) => Declaration::Enumeration(Enumeration {
            attrs: attributes(&en.attrs),
            ident: ident(&en.ident),
            variants: en.variants.iter().map(variant).collect(),
        }),
        syn::Item::Fn(fun) => Declaration::Function(Function {
            attrs: attributes(&fun.attrs),
            abi: fun
                .sig
                .abi
                .as_ref()
                .map(|abi| Abi { name: abi.name.as_ref().map(|name| name.value()) }),
            ident: ident(&fun.sig.ident),
            inputs: fun.sig.inputs.iter().map(parameter).collect(),
            output: match &fun.sig.output {
                syn::ReturnType::Default => None,
                syn::ReturnType::Type(_, ty) => Some(type_node(ty)),
            },
        }),
        syn::Item::Mod(module) => Declaration::Module(match &module.content {
            Some((_, items)) => items.iter().map(declaration).collect(),
            None => Vec::new(),
        }),
        syn::Item::Struct(strct) => Declaration::Record(Record {
            attrs: attributes(&strct.attrs),
            ident: ident(&strct.ident),
            generics: strct.generics.params.iter().map(generic_param).collect(),
            fields: strct.fields.iter().map(field).collect(),
        }),
        syn::Item::Type(alias) => Declaration::TypeAlias(TypeAlias {
            ident: ident(&alias.ident),
            ty: type_node(&alias.ty),
        }),
        _ => Declaration::Other,
    }
}

fn attributes(attrs: &[syn::Attribute]) -> Vec<Attribute> {
    attrs.iter().map(attribute).collect()
}

fn attribute(attr: &syn::Attribute) -> Attribute {
    match attr.parse_meta() {
        Ok(syn::Meta::Path(p)) => Attribute::Path(path(&p)),
        Ok(syn::Meta::List(list)) => {
            Attribute::List(path(&list.path), list.nested.iter().map(nested_meta).collect())
        }
        Ok(syn::Meta::NameValue(pair)) => {
            Attribute::NameValue(path(&pair.path), literal(&pair.lit))
        }
        Err(e) => Attribute::Malformed(e.to_string(), position(e.span())),
    }
}

fn nested_meta(nested: &syn::NestedMeta) -> NestedMeta {
    match nested {
        syn::NestedMeta::Meta(syn::Meta::Path(p)) => NestedMeta::Path(path(p)),
        _ => NestedMeta::Other,
    }
}

fn literal(lit: &syn::Lit) -> Literal {
    match lit {
        syn::Lit::Str(text) => Literal::Text(text.value()),
        syn::Lit::Int(integer) => Literal::Integer(integer.base10_digits().to_string()),
        _ => Literal::Other,
    }
}

fn parameter(input: &syn::FnArg) -> Parameter {
    match input {
        syn::FnArg::Receiver(_) => Parameter::Receiver(position(input.span())),
        syn::FnArg::Typed(typed) => Parameter::Typed(
            match typed.pat.as_ref() {
                syn::Pat::Ident(binding) => Pattern::Ident(ident(&binding.ident)),
                _ => Pattern::Other,
            },
            type_node(&typed.ty),
            position(input.span()),
        ),
    }
}

fn variant(variant: &syn::Variant) -> Variant {
    Variant {
        attrs: attributes(&variant.attrs),
        ident: ident(&variant.ident),
        has_fields: !variant.fields.is_empty(),
        discriminant: variant.discriminant.as_ref().map(|(_, value)| match value {
            syn::Expr::Lit(value) => Discriminant::Literal(literal(&value.lit)),
            _ => Discriminant::Other,
        }),
        position: position(variant.span()),
    }
}

fn generic_param(param: &syn::GenericParam) -> GenericParam {
    match param {
        syn::GenericParam::Type(type_param) => GenericParam::Type(ident(&type_param.ident)),
        _ => GenericParam::Other,
    }
}

fn field(field: &syn::Field) -> Field {
    Field {
        attrs: attributes(&field.attrs),
        ident: field.ident.as_ref().map(ident),
        ty: type_node(&field.ty),
    }
}

fn path(path: &syn::Path) -> Path {
    Path {
        leading_colon: path.leading_colon.is_some(),
        segments: path
            .segments
            .iter()
            .map(|segment| PathSegment {
                ident: ident(&segment.ident),
                arguments: match &segment.arguments {
                    syn::PathArguments::None => PathArguments::Absent,
                    syn::PathArguments::AngleBracketed(list) => PathArguments::AngleBracketed(
                        list.args.iter().map(generic_argument).collect(),
                    ),
                    syn::PathArguments::Parenthesized(_) => PathArguments::Parenthesized,
                },
            })
            .collect(),
        position: position(path.span()),
    }
}

fn generic_argument(argument: &syn::GenericArgument) -> GenericArgument {
    match argument {
        syn::GenericArgument::Type(ty) => GenericArgument::Type(type_node(ty)),
        _ => GenericArgument::Other,
    }
}

fn type_node(ty: &syn::Type) -> TypeNode {
    let unsupported = |kind: UnsupportedKind| TypeNode::Unsupported(kind, position(ty.span()));
    match ty {
        syn::Type::Array(_) => unsupported(UnsupportedKind::Array),
        syn::Type::BareFn(_) => unsupported(UnsupportedKind::BareFn),
        syn::Type::Group(_) => unsupported(UnsupportedKind::Group),
        syn::Type::ImplTrait(_) => unsupported(UnsupportedKind::ImplTrait),
        syn::Type::Infer(_) => unsupported(UnsupportedKind::Infer),
        syn::Type::Macro(_) => unsupported(UnsupportedKind::Macro),
        syn::Type::Never(_) => unsupported(UnsupportedKind::Never),
        syn::Type::Paren(_) => unsupported(UnsupportedKind::Paren),
        syn::Type::Path(type_path) => TypeNode::Path(path(&type_path.path)),
        syn::Type::Ptr(pointer) => TypeNode::Pointer(Box::new(type_node(&pointer.elem))),
        syn::Type::Reference(reference) => {
            TypeNode::Reference(Box::new(type_node(&reference.elem)))
        }
        syn::Type::Slice(_) => unsupported(UnsupportedKind::Slice),
        syn::Type::TraitObject(_) => unsupported(UnsupportedKind::TraitObject),
        syn::Type::Tuple(_) => unsupported(UnsupportedKind::Tuple),
        _ => unsupported(UnsupportedKind::Verbatim),
    }
}

#[test]
fn create_builder() {
    let mut configuration = CSharpConfiguration::new(9);
    let _builder = CSharpBuilder::new(parse(r#"pub fn foo(){}"#), "foo", &mut configuration);
}

#[test]
fn build_empty_with_namespace() {
    let mut configuration = CSharpConfiguration::new(9);
    let mut builder = CSharpBuilder::new(parse(r#""#), "foo", &mut configuration);
    builder.set_namespace("foo");
    let script = builder.build().unwrap();
    assert_eq!(
        script,
        "// Automatically generated, do not edit!
using System;
using System.Runtime.InteropServices;

namespace foo
{
}
"
    )
}

#[test]
fn build_empty_with_type() {
    let mut configuration = CSharpConfiguration::new(9);
    let mut builder = CSharpBuilder::new(parse(r#""#), "foo", &mut configuration);
    builder.set_type("foo");
    let script = builder.build().unwrap();
    assert_eq!(
        script,
        "// Automatically generated, do not edit!
using System;
using System.Runtime.InteropServices;

internal static class foo\n{\n}\n"
    )
}

#[test]
fn build_empty_with_namespace_and_type() {
    let mut configuration = CSharpConfiguration::new(9);
    let mut builder = CSharpBuilder::new(parse(r#""#), "foo", &mut configuration);
    builder.set_namespace("foo");
    builder.set_type("bar");
    let script = builder.build().unwrap();
    assert_eq!(
        script,
        "// Automatically generated, do not edit!
using System;
using System.Runtime.InteropServices;

namespace foo
{
    internal static class bar
    {
    }
}\n"
    )
}

#[test]
fn build_with_void_function() {
    let mut configuration = CSharpConfiguration::new(9);
    let mut builder = CSharpBuilder::new(parse(r#"pub extern "C" fn foo(){}"#), "foo", &mut configuration);
    builder.set_namespace("foo");
    builder.set_type("bar");
    let script = builder.build().unwrap();
    assert_eq!(
        script,
        "// Automatically generated, do not edit!
using System;
using System.Runtime.InteropServices;

namespace foo
{
    internal static class bar
    {
        /// <returns>void</returns>
        [DllImport(\"foo\", CallingConvention = CallingConvention.Cdecl, EntryPoint=\"foo\")]
        internal static extern void Foo();

    }
}\n"
    )
}

#[test]
fn build_with_longer_named_void_function() {
    let mut configuration = CSharpConfiguration::new(9);
    let mut builder = CSharpBuilder::new(
        parse(
            r#"pub extern "C" fn foo_bar_zet(foo_bar: u8){}"#,
        ),
        "foo",
        &mut configuration,
    );
    builder.set_namespace("foo");
    builder.set_type("bar");
    let script = builder.build().unwrap();
    assert_eq!(
            script,
            "// Automatically generated, do not edit!
using System;
using System.Runtime.InteropServices;

namespace foo
{
    internal static class bar
    {
        /// <param name=\"fooBar\">u8</param>
        /// <returns>void</returns>
        [DllImport(\"foo\", CallingConvention = CallingConvention.Cdecl, EntryPoint=\"foo_bar_zet\")]
        internal static extern void FooBarZet(byte fooBar);

    }
}\n"
        )
}

#[test]
fn build_with_u8_function() {
    let mut configuration = CSharpConfiguration::new(9);
    let mut builder = CSharpBuilder::new(
        parse(
            r#"pub extern "C" fn foo() -> u8 { 0 }"#,
        ),
        "foo",
        &mut configuration,
    );
    builder.set_namespace("foo");
    builder.set_type("bar");
    let script = builder.build().unwrap();
    assert_eq!(
        script,
        "// Automatically generated, do not edit!
using System;
using System.Runtime.InteropServices;

namespace foo
{
    internal static class bar
    {
        /// <returns>u8</returns>
        [DllImport(\"foo\", CallingConvention = CallingConvention.Cdecl, EntryPoint=\"foo\")]
        internal static extern byte Foo();

    }
}\n"
    )
}

#[test]
fn build_with_u8_ptr_function() {
    let mut configuration = CSharpConfiguration::new(9);
    let mut builder = CSharpBuilder::new(
        parse(
            r#"pub extern "C" fn foo() -> *const u8 { 0 }"#,
        ),
        "foo",
        &mut configuration,
    );
    builder.set_namespace("foo");
    builder.set_type("bar");
    let script = builder.build().unwrap();
    assert_eq!(
        script,
        "// Automatically generated, do not edit!
using System;
using System.Runtime.InteropServices;

namespace foo
{
    internal static class bar
    {
        /// <returns>u8*</returns>
        [DllImport(\"foo\", CallingConvention = CallingConvention.Cdecl, EntryPoint=\"foo\")]
        internal static extern IntPtr Foo();

    }
}\n"
    )
}

#[test]
fn build_with_void_function_with_parameters() {
    let mut configuration = CSharpConfiguration::new(9);
    let mut builder = CSharpBuilder::new(
        parse(
            r#"pub extern "C" fn foo(a: u8, b: u8) { }"#,
        ),
        "foo",
        &mut configuration,
    );
    builder.set_namespace("foo");
    builder.set_type("bar");
    let script = builder.build().unwrap();
    assert_eq!(
        script,
        "// Automatically generated, do not edit!
using System;
using System.Runtime.InteropServices;

namespace foo
{
    internal static class bar
    {
        /// <param name=\"a\">u8</param>
        /// <param name=\"b\">u8</param>
        /// <returns>void</returns>
        [DllImport(\"foo\", CallingConvention = CallingConvention.Cdecl, EntryPoint=\"foo\")]
        internal static extern void Foo(byte a, byte b);

    }
}\n"
    )
}

#[test]
fn build_with_void_function_with_pointer_parameters() {
    let mut configuration = CSharpConfiguration::new(9);
    let mut builder = CSharpBuilder::new(
        parse(
            r#"pub extern "C" fn foo(a: *const u8, b: *const u8) {  }"#,
        ),
        "foo",
        &mut configuration,
    );
    builder.set_namespace("foo");
    builder.set_type("bar");
    let script = builder.build().unwrap();
    assert_eq!(
        script,
        "// Automatically generated, do not edit!
using System;
using System.Runtime.InteropServices;

namespace foo
{
    internal static class bar
    {
        /// <param name=\"a\">u8*</param>
        /// <param name=\"b\">u8*</param>
        /// <returns>void</returns>
        [DllImport(\"foo\", CallingConvention = CallingConvention.Cdecl, EntryPoint=\"foo\")]
        internal static extern void Foo(IntPtr a, IntPtr b);

    }
}\n"
    )
}

#[test]
fn build_with_void_function_with_outer_doc_documentation() {
    let mut configuration = CSharpConfiguration::new(9);
    let mut builder = CSharpBuilder::new(
        parse(
            r#"
            /// test documentation
            pub extern "C" fn foo(a: *const u8, b: *const u8) {  }"#,
        ),
        "foo",
        &mut configuration,
    );
    builder.set_namespace("foo");
    builder.set_type("bar");
    let script = builder.build().unwrap();
    assert_eq!(
        script,
        "// Automatically generated, do not edit!
using System;
using System.Runtime.InteropServices;

namespace foo
{
    internal static class bar
    {
        /// <summary>
        /// test documentation
        /// </summary>
        /// <param name=\"a\">u8*</param>
        /// <param name=\"b\">u8*</param>
        /// <returns>void</returns>
        [DllImport(\"foo\", CallingConvention = CallingConvention.Cdecl, EntryPoint=\"foo\")]
        internal static extern void Foo(IntPtr a, IntPtr b);

    }
}\n"
    )
}

#[test]
fn build_void_function_inside_module() {
    let mut configuration = CSharpConfiguration::new(9);
    let mut builder = CSharpBuilder::new(
        parse(
            r#"mod foo_module { pub extern "C" fn foo(){} }"#,
        ),
        "foo",
        &mut configuration,
    );
    builder.set_namespace("foo");
    builder.set_type("bar");
    let script = builder.build().unwrap();
    assert_eq!(
        script,
        "// Automatically generated, do not edit!
using System;
using System.Runtime.InteropServices;

namespace foo
{
    internal static class bar
    {
        /// <returns>void</returns>
        [DllImport(\"foo\", CallingConvention = CallingConvention.Cdecl, EntryPoint=\"foo\")]
        internal static extern void Foo();

    }
}\n"
    )
}

#[test]
fn build_enum() {
    let mut configuration = CSharpConfiguration::new(9);
    let mut builder = CSharpBuilder::new(
        parse(
            r#"#[repr(u8)] enum Foo { One, Two, Three}"#,
        ),
        "foo",
        &mut configuration,
    );
    builder.set_namespace("foo");
    builder.set_type("bar");
    let script = builder.build().unwrap();
    assert_eq!(
        script,
        "// Automatically generated, do not edit!
using System;
using System.Runtime.InteropServices;

namespace foo
{
    internal static class bar
    {
        public enum Foo : byte
        {
            One,
            Two,
            Three,
        }

    }
}\n"
    )
}

#[test]
fn build_enum_with_values() {
    let mut configuration = CSharpConfiguration::new(9);
    let mut builder = CSharpBuilder::new(
        parse(
            r#"#[repr(u8)] enum Foo { One = 1, Two = 2, Five = 5}"#,
        ),
        "foo",
        &mut configuration,
    );
    builder.set_namespace("foo");
    builder.set_type("bar");
    let script = builder.build().unwrap();
    assert_eq!(
        script,
        "// Automatically generated, do not edit!
using System;
using System.Runtime.InteropServices;

namespace foo
{
    internal static class bar
    {
        public enum Foo : byte
        {
            One = 1,
            Two = 2,
            Five = 5,
        }

    }
}\n"
    )
}

#[test]
fn build_enum_with_values_and_documentation() {
    let mut configuration = CSharpConfiguration::new(9);
    let mut builder = CSharpBuilder::new(
        parse(
            r#"#[repr(u8)] 
            /// testing documentation for enum
            enum Foo { One = 1, Two = 2, Five = 5}"#,
        ),
        "foo",
        &mut configuration,
    );
    builder.set_namespace("foo");
    builder.set_type("bar");
    let script = builder.build().unwrap();
    assert_eq!(
        script,
        "// Automatically generated, do not edit!
using System;
using System.Runtime.InteropServices;

namespace foo
{
    internal static class bar
    {
        /// <summary>
        /// testing documentation for enum
        /// </summary>
        public enum Foo : byte
        {
            One = 1,
            Two = 2,
            Five = 5,
        }

    }
}\n"
    )
}

#[test]
fn build_enum_with_values_and_documentation_for_keys() {
    let mut configuration = CSharpConfiguration::new(9);
    let mut builder = CSharpBuilder::new(
        parse(
            r#"#[repr(u8)] 
            /// testing documentation for enum
            enum Foo {
                /// Enum value one 
                One = 1, 
                /// Enum two
                Two = 2, 
                /// This is a big step!
                Five = 5
            }"#,
        ),
        "foo",
        &mut configuration,
    );
    builder.set_namespace("foo");
    builder.set_type("bar");
    let script = builder.build().unwrap();
    assert_eq!(
        script,
        "// Automatically generated, do not edit!
using System;
using System.Runtime.InteropServices;

namespace foo
{
    internal static class bar
    {
        /// <summary>
        /// testing documentation for enum
        /// </summary>
        public enum Foo : byte
        {
            /// <summary>
            /// Enum value one
            /// </summary>
            One = 1,
            /// <summary>
            /// Enum two
            /// </summary>
            Two = 2,
            /// <summary>
            /// This is a big step!
            /// </summary>
            Five = 5,
        }

    }
}\n"
    )
}

#[test]
fn build_struct_csharp_8() {
    let mut configuration = CSharpConfiguration::new(8);
    let mut builder = CSharpBuilder::new(
        parse(
            r#"#[repr(C)] 
            struct Foo {
                field_a: u8,
                field_b: u8,
            }"#,
        ),
        "foo",
        &mut configuration,
    );
    builder.set_namespace("foo");
    builder.set_type("bar");
    let script = builder.build().unwrap();
    assert_eq!(
        script,
        "// Automatically generated, do not edit!
using System;
using System.Runtime.InteropServices;

namespace foo
{
    internal static class bar
    {
        [StructLayout(LayoutKind.Sequential, CharSet = CharSet.Unicode)]
        public struct Foo
        {
            /// <remarks>u8</remarks>
            public readonly byte FieldA;
            /// <remarks>u8</remarks>
            public readonly byte FieldB;

            public Foo(byte fieldA, byte fieldB)
            {
                FieldA = fieldA;
                FieldB = fieldB;
            }
        }

    }
}\n"
    )
}

#[test]
fn build_struct_with_documentation_csharp_8() {
    let mut configuration = CSharpConfiguration::new(8);
    let mut builder = CSharpBuilder::new(
        parse(
            r#"#[repr(C)] 
            /// test documentation struct
            struct Foo {
                /// a field. Very important!
                field_a: u8,
                /// b field. reserved or something
                field_b: u8,
            }"#,
        ),
        "foo",
        &mut configuration,
    );
    builder.set_namespace("foo");
    builder.set_type("bar");
    let script = builder.build().unwrap();
    assert_eq!(
        script,
        "// Automatically generated, do not edit!
using System;
using System.Runtime.InteropServices;

namespace foo
{
    internal static class bar
    {
        /// <summary>
        /// test documentation struct
        /// </summary>
        [StructLayout(LayoutKind.Sequential, CharSet = CharSet.Unicode)]
        public struct Foo
        {
            /// <summary>
            /// a field. Very important!
            /// </summary>
            /// <remarks>u8</remarks>
            public readonly byte FieldA;
            /// <summary>
            /// b field. reserved or something
            /// </summary>
            /// <remarks>u8</remarks>
            public readonly byte FieldB;

            public Foo(byte fieldA, byte fieldB)
            {
                FieldA = fieldA;
                FieldB = fieldB;
            }
        }

    }
}\n"
    )
}

#[test]
fn build_struct_csharp_9() {
    let mut configuration = CSharpConfiguration::new(9);
    let mut builder = CSharpBuilder::new(
        parse(
            r#"#[repr(C)] 
            struct Foo {
                field_a: u8,
                field_b: u8,
            }"#,
        ),
        "foo",
        &mut configuration,
    );
    builder.set_namespace("foo");
    builder.set_type("bar");
    let script = builder.build().unwrap();
    assert_eq!(
        script,
        "// Automatically generated, do not edit!
using System;
using System.Runtime.InteropServices;

namespace foo
{
    internal static class bar
    {
        [StructLayout(LayoutKind.Sequential, CharSet = CharSet.Unicode)]
        public struct Foo
        {
            /// <remarks>u8</remarks>
            public byte FieldA { get; init; }
            /// <remarks>u8</remarks>
            public byte FieldB { get; init; }

            public Foo(byte fieldA, byte fieldB)
            {
                FieldA = fieldA;
                FieldB = fieldB;
            }
        }

    }
}\n"
    )
}

#[test]
fn build_function_with_unknown_return_type() {
    let mut configuration = CSharpConfiguration::new(9);
    let mut builder = CSharpBuilder::new(
        parse(
            r#"pub extern "C" fn foo() -> UnknownType {}"#,
        ),
        "foo",
        &mut configuration,
    );
    builder.set_namespace("foo");
    builder.set_type("bar");
    let script = builder.build();
    assert!(script.is_err());
}

#[test]
fn build_function_with_registered_enum_and_return_function_of_enum() {
    let mut configuration = CSharpConfiguration::new(9);
    let mut builder = CSharpBuilder::new(
        parse(
            r#"
#[repr(u8)]
enum KnownEnum{
    Val1
}

pub extern "C" fn foo() -> KnownEnum {}
        "#,
        ),
        "foo",
        &mut configuration,
    );
    builder.set_namespace("foo");
    builder.set_type("bar");
    let script = builder.build();
    assert!(!script.is_err());
    assert_eq!(
        script.unwrap(),
        "// Automatically generated, do not edit!
using System;
using System.Runtime.InteropServices;

namespace foo
{
    internal static class bar
    {
        public enum KnownEnum : byte
        {
            Val1,
        }

        /// <returns>KnownEnum</returns>
        [DllImport(\"foo\", CallingConvention = CallingConvention.Cdecl, EntryPoint=\"foo\")]
        internal static extern KnownEnum Foo();

    }
}\n"
    );
}

#[test]
fn build_function_with_registered_enum_from_earlier_build_without_type() {
    let mut configuration = CSharpConfiguration::new(9);
    let mut enum_builder = CSharpBuilder::new(
        parse(
            r#"
#[repr(u8)]
enum KnownEnum{
    Val1
}
        "#,
        ),
        "foo",
        &mut configuration,
    );
    enum_builder.set_namespace("foo");
    enum_builder.build().unwrap();

    let mut builder = CSharpBuilder::new(
        parse(
            r#"
pub extern "C" fn foo() -> KnownEnum {}
        "#,
        ),
        "foo",
        &mut configuration,
    );
    builder.set_namespace("foo");
    builder.set_type("bar");
    let script = builder.build();
    assert!(!script.is_err());
    assert_eq!(
        script.unwrap(),
        "// Automatically generated, do not edit!
using System;
using System.Runtime.InteropServices;

namespace foo
{
    internal static class bar
    {
        /// <returns>KnownEnum</returns>
        [DllImport(\"foo\", CallingConvention = CallingConvention.Cdecl, EntryPoint=\"foo\")]
        internal static extern KnownEnum Foo();

    }
}\n"
    );
}

#[test]
fn build_function_with_registered_enum_from_earlier_build_in_different_type() {
    let mut configuration = CSharpConfiguration::new(9);
    let mut enum_builder = CSharpBuilder::new(
        parse(
            r#"
#[repr(u8)]
enum KnownEnum{
    Val1
}
        "#,
        ),
        "foo",
        &mut configuration,
    );
    enum_builder.set_namespace("foo");
    enum_builder.set_type("DiffType");
    enum_builder.build().unwrap();

    let mut builder = CSharpBuilder::new(
        parse(
            r#"
pub extern "C" fn foo() -> KnownEnum {}
        "#,
        ),
        "foo",
        &mut configuration,
    );
    builder.set_namespace("foo");
    builder.set_type("bar");
    let script = builder.build();
    assert!(!script.is_err());
    assert_eq!(
        script.unwrap(),
        "// Automatically generated, do not edit!
using System;
using System.Runtime.InteropServices;

namespace foo
{
    internal static class bar
    {
        /// <returns>KnownEnum</returns>
        [DllImport(\"foo\", CallingConvention = CallingConvention.Cdecl, EntryPoint=\"foo\")]
        internal static extern DiffType.KnownEnum Foo();

    }
}\n"
    );
}

#[test]
fn build_function_with_registered_enum_from_earlier_build_in_different_type_and_namespace() {
    let mut configuration = CSharpConfiguration::new(9);
    let mut enum_builder = CSharpBuilder::new(
        parse(
            r#"
#[repr(u8)]
enum KnownEnum{
    Val1
}
        "#,
        ),
        "foo",
        &mut configuration,
    );
    enum_builder.set_namespace("DiffNameSpace.Test");
    enum_builder.set_type("DiffType");
    enum_builder.build().unwrap();

    let mut builder = CSharpBuilder::new(
        parse(
            r#"
pub extern "C" fn foo() -> KnownEnum {}
        "#,
        ),
        "foo",
        &mut configuration,
    );
    builder.set_namespace("foo");
    builder.set_type("bar");
    let script = builder.build();
    assert!(!script.is_err());
    assert_eq!(
        script.unwrap(),
        "// Automatically generated, do not edit!
using System;
using System.Runtime.InteropServices;

namespace foo
{
    internal static class bar
    {
        /// <returns>KnownEnum</returns>
        [DllImport(\"foo\", CallingConvention = CallingConvention.Cdecl, EntryPoint=\"foo\")]
        internal static extern DiffNameSpace.Test.DiffType.KnownEnum Foo();

    }
}\n"
    );
}

#[test]
fn build_function_with_out_param() {
    let mut configuration = CSharpConfiguration::new(9);
    configuration.set_out_type("Out");

    let mut builder = CSharpBuilder::new(
        parse(
            r#"
pub extern "C" fn foo(p: Out<u8>) {}
        "#,
        ),
        "foo",
        &mut configuration,
    );
    builder.set_namespace("foo");
    builder.set_type("bar");
    let script = builder.build().expect("build failed");
    assert_eq!(
        script,
        "// Automatically generated, do not edit!
using System;
using System.Runtime.InteropServices;

namespace foo
{
    internal static class bar
    {
        /// <param name=\"p\">Out</param>
        /// <returns>void</returns>
        [DllImport(\"foo\", CallingConvention = CallingConvention.Cdecl, EntryPoint=\"foo\")]
        internal static extern void Foo(out byte p);

    }
}\n"
    );
}

#[test]
fn build_function_with_type_def_of_enum() {
    let mut configuration = CSharpConfiguration::new(9);
    let mut builder = CSharpBuilder::new(
        parse(
            r#"
#[repr(u8)]
enum KnownEnum{
    Val1
}

type AnotherDefinition = KnownEnum;

pub extern "C" fn foo() -> AnotherDefinition {}
        "#,
        ),
        "foo",
        &mut configuration,
    );
    builder.set_namespace("foo");
    builder.set_type("bar");
    let script = builder.build();
    assert!(!script.is_err());
    assert_eq!(
        script.unwrap(),
        "// Automatically generated, do not edit!
using System;
using System.Runtime.InteropServices;

namespace foo
{
    internal static class bar
    {
        public enum KnownEnum : byte
        {
            Val1,
        }

        /// <returns>AnotherDefinition</returns>
        [DllImport(\"foo\", CallingConvention = CallingConvention.Cdecl, EntryPoint=\"foo\")]
        internal static extern KnownEnum Foo();

    }
}\n"
    );
}

#[test]
fn build_function_with_generic_struct() {
    let mut configuration = CSharpConfiguration::new(9);
    let mut builder = CSharpBuilder::new(
        parse(
            r#"
#[repr(C)]
struct TestStruct<T> {
    value: T,
}

pub extern "C" fn foo(par: TestStruct<u16>) -> TestStruct<u8> {}
        "#,
        ),
        "foo",
        &mut configuration,
    );
    builder.set_namespace("foo");
    builder.set_type("bar");
    let script = builder.build();
    assert_eq!(
        script.expect("build failed"),
        "// Automatically generated, do not edit!
using System;
using System.Runtime.InteropServices;

namespace foo
{
    internal static class bar
    {
        [StructLayout(LayoutKind.Sequential, CharSet = CharSet.Unicode)]
        public struct TestStruct<T>
        {
            /// <remarks>T</remarks>
            public T Value { get; init; }

            public TestStruct(T value)
            {
                Value = value;
            }
        }

        /// <param name=\"par\">TestStruct</param>
        /// <returns>TestStruct</returns>
        [DllImport(\"foo\", CallingConvention = CallingConvention.Cdecl, EntryPoint=\"foo\")]
        internal static extern TestStruct<byte> Foo(TestStruct<ushort> par);

    }
}\n"
    );
}

#[test]
fn build_function_with_generic_struct_type_definition() {
    let mut configuration = CSharpConfiguration::new(9);
    let mut builder = CSharpBuilder::new(
        parse(
            r#"
#[repr(C)]
struct TestStruct<T> {
    value: T,
}

type Redefinition = TestStruct<u8>;

pub extern "C" fn foo() -> Redefinition {}
        "#,
        ),
        "foo",
        &mut configuration,
    );
    builder.set_namespace("foo");
    builder.set_type("bar");
    let script = builder.build();
    assert_eq!(
        script.expect("build failed"),
        "// Automatically generated, do not edit!
using System;
using System.Runtime.InteropServices;

namespace foo
{
    internal static class bar
    {
        [StructLayout(LayoutKind.Sequential, CharSet = CharSet.Unicode)]
        public struct TestStruct<T>
        {
            /// <remarks>T</remarks>
            public T Value { get; init; }

            public TestStruct(T value)
            {
                Value = value;
            }
        }

        /// <returns>Redefinition</returns>
        [DllImport(\"foo\", CallingConvention = CallingConvention.Cdecl, EntryPoint=\"foo\")]
        internal static extern TestStruct<byte> Foo();

    }
}\n"
    );
}

#[test]
fn remove_top_warning() {
    let mut configuration = CSharpConfiguration::new(9);
    configuration.set_generated_warning("");
    let mut builder = CSharpBuilder::new(parse(r#""#), "foo", &mut configuration);
    builder.set_namespace("foo");
    let script = builder.build().unwrap();
    assert_eq!(
        script,
        "using System;
using System.Runtime.InteropServices;

namespace foo
{
}
"
    )
}

#[test]
fn sets_multiline_top_warning() {
    let mut configuration = CSharpConfiguration::new(9);
    configuration.set_generated_warning("This should set\na warning\nacross multiple\nlines");
    let mut builder = CSharpBuilder::new(parse(r#""#), "foo", &mut configuration);
    builder.set_namespace("foo");
    let script = builder.build().unwrap();
    assert_eq!(
        script,
        "// This should set
// a warning
// across multiple
// lines
using System;
using System.Runtime.InteropServices;

namespace foo
{
}
"
    )
}

#[test]
fn example_test() {
    // Create C# configuration with C# target version 9.
    let mut configuration = CSharpConfiguration::new(9);
    let rust_file = r#"
        /// Just a random return enum
        #[repr(u8)]
        enum ReturnEnum {
            Val1,
            Val2,
        }
        
        /// An input struct we expect
        #[repr(C)]
        struct InputStruct {
            field_a: u16,
            /// This field is used for floats!
            field_b: f64,
        }
        
        pub extern "C" fn foo(a: InputStruct) -> ReturnEnum {
        }
        "#;
    let mut builder = CSharpBuilder::new(parse(rust_file), "foo", &mut configuration);
    builder.set_namespace("MainNamespace");
    builder.set_type("InsideClass");
    let script = builder.build().expect("Failed to build");
    assert_eq!(
        script,
        r#"// Automatically generated, do not edit!
using System;
using System.Runtime.InteropServices;

namespace MainNamespace
{
    internal static class InsideClass
    {
        /// <summary>
        /// Just a random return enum
        /// </summary>
        public enum ReturnEnum : byte
        {
            Val1,
            Val2,
        }

        /// <summary>
        /// An input struct we expect
        /// </summary>
        [StructLayout(LayoutKind.Sequential, CharSet = CharSet.Unicode)]
        public struct InputStruct
        {
            /// <remarks>u16</remarks>
            public ushort FieldA { get; init; }
            /// <summary>
            /// This field is used for floats!
            /// </summary>
            /// <remarks>f64</remarks>
            public double FieldB { get; init; }

            public InputStruct(ushort fieldA, double fieldB)
            {
                FieldA = fieldA;
                FieldB = fieldB;
            }
        }

        /// <param name="a">InputStruct</param>
        /// <returns>ReturnEnum</returns>
        [DllImport("foo", CallingConvention = CallingConvention.Cdecl, EntryPoint="foo")]
        internal static extern ReturnEnum Foo(InputStruct a);

    }
}
"#
    )
}

/// Lowers a source module at the top level, without banner, and gives back
/// what follows the import directives and the empty line after them.
fn lower_source(version: u8, script: &str) -> Result<String, Error> {
    let mut configuration = CSharpConfiguration::new(version);
    configuration.set_generated_warning("");
    let mut builder = CSharpBuilder::new(parse(script), "foo", &mut configuration);
    let text = builder.build()?;
    let head = "using System;\nusing System.Runtime.InteropServices;\n\n";
    assert!(text.starts_with(head));
    Ok(text[head.len()..].to_string())
}

#[test]
fn an_unknown_type_is_reported_where_it_stands() {
    let e = lower_source(9, r#"pub extern "C" fn foo() -> UnknownType {}"#).unwrap_err();
    assert_eq!(
        e,
        Error::UnknownType(
            "Type with name 'UnknownType' was not found".to_string(),
            SourcePosition { line: 1, column: 27 }
        )
    );
    assert_eq!(
        e.message(),
        "Type with name 'UnknownType' was not found. At At line 1, position 27"
    );
}

#[test]
fn a_boolean_is_reported_where_it_stands() {
    let e = lower_source(9, "pub extern \"C\" fn foo(\n    flag: bool,\n) {}").unwrap_err();
    assert_eq!(
        e.message(),
        "Found a boolean type. Due to differing sizes on different operating systems this is not supported for extern C functions.. At line 2, position 10"
    );
}

#[test]
fn a_receiver_in_source_is_not_supported() {
    let e = lower_source(9, r#"pub extern "C" fn foo(self) {}"#).unwrap_err();
    assert_eq!(
        e,
        Error::UnsupportedError(
            "Receiver parameters aren't supported".to_string(),
            SourcePosition { line: 1, column: 22 }
        )
    );
}

#[test]
fn a_destructured_parameter_in_source_is_not_supported() {
    let e = lower_source(9, r#"pub extern "C" fn foo((a, b): Pair) {}"#).unwrap_err();
    assert_eq!(
        e,
        Error::UnsupportedError(
            "Parameters that are not identity aren't supported".to_string(),
            SourcePosition { line: 1, column: 22 }
        )
    );
}

#[test]
fn kinds_of_type_in_source_that_are_not_supported() {
    let cases = [
        ("[u8; 4]", "Using rust arrays from ffi is not supported."),
        ("fn(u8) -> u8", "Using bare functions from ffi is not supported."),
        ("impl Copy", "Using rust impl traits from ffi is not supported."),
        ("!", "Using rust never type from ffi is not supported."),
        ("(u8)", "Using rust parenthesis from ffi is not supported."),
        ("&[u8]", "Using rust slices from ffi is not supported."),
        ("*const dyn Copy", "Using rust traits from ffi is not supported."),
        ("(u8, u8)", "Using rust tuples from ffi is not supported."),
    ];
    for (written, message) in cases {
        let script = format!("pub extern \"C\" fn foo(a: {}) {{}}", written);
        match lower_source(9, &script) {
            Err(Error::UnsupportedError(m, _)) => assert_eq!(m, message),
            other => panic!("{} gave {:?}", written, other),
        }
    }
}

#[test]
fn references_and_paths_in_source() {
    let text = lower_source(
        9,
        r#"pub extern "C" fn foo(a: &u8, b: &mut i64, c: *mut std::os::raw::c_char) -> usize {}"#,
    )
    .unwrap();
    assert!(text.contains("/// <param name=\"a\">u8&</param>\n"));
    assert!(text.contains("/// <param name=\"b\">i64&</param>\n"));
    assert!(text.contains("/// <param name=\"c\">c_char*</param>\n"));
    assert!(text.contains("/// <returns>usize</returns>\n"));
    assert!(text.contains("internal static extern nuint Foo(ref byte a, ref long b, IntPtr c);\n"));
}

#[test]
fn functions_in_source_without_the_marker_give_nothing() {
    let script = r#"
        /// not exported
        pub fn plain(a: bool) {}
        pub extern "Rust" fn rust(a: Missing) {}
        pub extern "system" fn system() {}
        pub unsafe extern fn unnamed() {}
        const LIMIT: u8 = 4;
        use std::fmt;
    "#;
    assert_eq!(lower_source(9, script), Ok(String::new()));
}

#[test]
fn integer_literals_in_source_are_written_in_base_ten() {
    let script = "#[repr(u16)] enum E { A = 0x10, B = 1_000, C = 7u16, D = -1, E = 1 + 1, F }";
    assert_eq!(
        lower_source(9, script),
        Ok("public enum E : ushort\n{\n    A = 16,\n    B = 1000,\n    C = 7,\n    D,\n    E,\n    F,\n}\n\n"
            .to_string())
    );
}

#[test]
fn an_enumeration_in_source_with_fields_fails() {
    let e = lower_source(9, "#[repr(u8)]\nenum E {\n    A,\n    B(u8),\n}").unwrap_err();
    assert_eq!(
        e,
        Error::UnsupportedError(
            "Enum with values with fields is not supported".to_string(),
            SourcePosition { line: 4, column: 4 }
        )
    );
    assert!(lower_source(9, "#[repr(u8)] enum E { A { a: u8 } }").is_err());
    assert!(lower_source(9, "enum E { A { a: u8 } }").is_ok());
}

#[test]
fn the_bare_native_marker_on_an_enumeration_in_source_fails() {
    let e = lower_source(9, "#[repr(C)] enum E { A }").unwrap_err();
    assert_eq!(
        e,
        Error::UnsupportedError(
            "The size of a repr[C] enum is not specifically defined. Please use repr[u*] to define an actual size".to_string(),
            SourcePosition { line: 1, column: 7 }
        )
    );
    assert!(lower_source(9, "#[repr(C, u8)] enum E { A }").is_err());
    assert_eq!(
        lower_source(9, "#[repr(u8, C)] enum E { A }"),
        Ok("public enum E : byte\n{\n    A,\n}\n\n".to_string())
    );
}

#[test]
fn markers_in_source_that_give_no_width_are_ignored() {
    assert_eq!(lower_source(9, "#[repr(transparent)] enum E { A }"), Ok(String::new()));
    assert_eq!(lower_source(9, "#[repr(align(4))] enum E { A }"), Ok(String::new()));
    assert_eq!(lower_source(9, "#[derive(Clone)] #[repr = \"u8\"] enum E { A }"), Ok(String::new()));
    assert_eq!(
        lower_source(9, "#[derive(Clone, Copy)] #[repr(i64)] #[allow(dead_code)] enum E { A }"),
        Ok("public enum E : long\n{\n    A,\n}\n\n".to_string())
    );
}

#[test]
fn an_attribute_in_source_that_cannot_be_read_fails_where_it_is_read() {
    let e = lower_source(9, "#[repr(u8)]\n#[doc(a b)]\nenum E { A }").unwrap_err();
    assert!(matches!(e, Error::ParseError(_, _)));
    let e = lower_source(9, "#[repr(C)] struct R { #[serde(a b)] a: u8 }").unwrap_err();
    assert!(matches!(e, Error::ParseError(_, _)));
    let e = lower_source(9, "#[link(a b)] pub extern \"C\" fn foo() {}").unwrap_err();
    assert!(matches!(e, Error::ParseError(_, _)));
}

#[test]
fn an_attribute_in_source_that_is_never_read_does_not_fail() {
    assert_eq!(lower_source(9, "#[doc(a b)] const LIMIT: u8 = 4;"), Ok(String::new()));
    assert_eq!(lower_source(9, "#[doc(a b)] pub fn plain() {}"), Ok(String::new()));
    assert_eq!(lower_source(9, "#[doc(a b)] type Byte = u8;"), Ok(String::new()));
    assert_eq!(lower_source(9, "enum E { #[doc(a b)] A }"), Ok(String::new()));
}

#[test]
fn records_in_source_of_every_shape() {
    assert_eq!(
        lower_source(9, "#[repr(C)] struct Wrapper(u8, #[doc = \"second\"] pub u16);"),
        Ok("[StructLayout(LayoutKind.Sequential, CharSet = CharSet.Unicode)]\npublic struct Wrapper\n{\n    /// <remarks>u8</remarks>\n    /// <summary>\n    /// second\n    /// </summary>\n    /// <remarks>u16</remarks>\n\n    public Wrapper()\n    {\n    }\n}\n\n".to_string())
    );
    assert_eq!(
        lower_source(8, "#[repr(C, packed)] struct Unit;"),
        Ok("[StructLayout(LayoutKind.Sequential, CharSet = CharSet.Unicode)]\npublic struct Unit\n{\n\n    public Unit()\n    {\n    }\n}\n\n".to_string())
    );
    assert_eq!(lower_source(9, "#[repr(packed, C)] struct Unit;"), Ok(String::new()));
    assert_eq!(lower_source(9, "#[repr(transparent)] struct Unit(u8);"), Ok(String::new()));
    assert_eq!(lower_source(9, "struct Unit { a: bool }"), Ok(String::new()));
}

#[test]
fn generic_records_in_source() {
    let text = lower_source(
        9,
        "#[repr(C)] struct Pair<'a, A, B: Copy, const N: usize> { first: A, second: *const B, third: &'a A }",
    )
    .unwrap_err();
    assert!(matches!(text, Error::UnknownType(_, _)));
    let text = lower_source(
        9,
        "#[repr(C)] struct Pair<'a, A, B: Copy, const N: usize> { first: A, second: B, count: u8 }",
    )
    .unwrap();
    assert!(text.starts_with(
        "[StructLayout(LayoutKind.Sequential, CharSet = CharSet.Unicode)]\npublic struct Pair<A, B>\n{\n"
    ));
    assert!(text.contains("public Pair(A first, B second, byte count)\n"));
}

#[test]
fn block_documentation_in_source_is_trimmed_too() {
    let text = lower_source(9, "/** block text */\n#[repr(u8)] enum E { A }").unwrap();
    assert!(text.starts_with("/// <summary>\n/// block text\n/// </summary>\npublic enum E : byte\n"));
}

#[test]
fn an_alias_in_source_of_a_path_with_lifetimes() {
    let mut configuration = CSharpConfiguration::new(9);
    configuration.add_known_type("View", None, None, "View".to_string());
    let mut builder = CSharpBuilder::new(
        parse("type Bytes<'a> = View<'a, u8>; type Static = crate::View<'static>;"),
        "foo",
        &mut configuration,
    );
    builder.build().unwrap();
    assert_eq!(configuration.get_known_type("Bytes").unwrap().real_type_name, "View<byte>");
    assert_eq!(configuration.get_known_type("Static").unwrap().real_type_name, "View<>");
}

#[test]
fn nested_modules_in_source_are_flattened() {
    let script = r#"
        mod outer {
            #[repr(u8)] pub enum First { A }
            pub mod inner {
                pub extern "C" fn get() -> First {}
            }
            mod declared_elsewhere;
        }
        pub extern "C" fn put(value: First) {}
    "#;
    let text = lower_source(9, script).unwrap();
    let first = text.find("public enum First : byte").unwrap();
    let get = text.find("internal static extern First Get();").unwrap();
    let put = text.find("internal static extern void Put(First value);").unwrap();
    assert!(first < get && get < put);
}
