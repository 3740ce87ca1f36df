//! The description of a declaration: what the generator is given.
//!
//! A declaration is a struct or an enum as its source spells it, reduced to
//! what accessor generation reads: names, the order of variants and fields,
//! the text of each field's type, and the flags at the three levels. Nothing
//! here is checked against the rules of the language: whoever builds a
//! [`Declaration`] has parsed the source already.

use crate::config::{FieldConfig, TypeConfig, VariantConfig};
use vstd::prelude::*;

verus! {

/// The form of a declaration.
#[derive(Clone, Copy, Debug, PartialEq, Eq, Structural)]
pub enum Shape {
    /// `struct S { a: A, b: B }`
    NamedStruct,
    /// `struct S(A, B);`
    TupleStruct,
    /// `struct S(A);`
    NewtypeStruct,
    /// An enum whose variants have named fields.
    NamedEnum,
    /// An enum whose variants have positional fields.
    TupleEnum,
    /// An enum whose variants have one positional field each.
    NewtypeEnum,
    /// An enum whose variants have no fields.
    UnitEnum,
    /// `struct S;`: not supported.
    UnitStruct,
    /// A `union`: not supported.
    Union,
}

impl Shape {
    /// A declaration with a single layout of fields.
    pub open spec fn spec_is_struct_like(self) -> bool {
        self is NamedStruct || self is TupleStruct || self is NewtypeStruct
    }

    /// A declaration with several layouts, one of which is active in a
    /// value.
    pub open spec fn spec_is_enum_like(self) -> bool {
        self is NamedEnum || self is TupleEnum || self is NewtypeEnum || self is UnitEnum
    }

    /// A declaration that accessors can be generated for.
    pub open spec fn spec_is_supported(self) -> bool {
        self.spec_is_struct_like() || self.spec_is_enum_like()
    }

    /// Whether the declaration has a single layout of fields.
    #[verifier::when_used_as_spec(spec_is_struct_like)]
    pub fn is_struct_like(self) -> (b: bool)
        ensures
            b == self.spec_is_struct_like(),
    {
        match self {
            Shape::NamedStruct | Shape::TupleStruct | Shape::NewtypeStruct => true,
            _ => false,
        }
    }

    /// Whether the declaration has several layouts.
    #[verifier::when_used_as_spec(spec_is_enum_like)]
    pub fn is_enum_like(self) -> (b: bool)
        ensures
            b == self.spec_is_enum_like(),
    {
        match self {
            Shape::NamedEnum | Shape::TupleEnum | Shape::NewtypeEnum | Shape::UnitEnum => true,
            _ => false,
        }
    }

    /// Whether accessors can be generated for the declaration.
    #[verifier::when_used_as_spec(spec_is_supported)]
    pub fn is_supported(self) -> (b: bool)
        ensures
            b == self.spec_is_supported(),
    {
        self.is_struct_like() || self.is_enum_like()
    }
}

/// One field of a struct or of a variant. Its position is its index among
/// the fields that it stands with.
#[derive(Clone, Debug, PartialEq, Eq)]
pub struct Field {
    /// The field's own name; `None` for a positional field.
    pub name: Option<String>,
    /// The field's type, as text. It is copied into signatures unread.
    pub value_type: String,
    /// The flags on the field.
    pub config: FieldConfig,
}

/// One variant of an enum.
#[derive(Clone, Debug, PartialEq, Eq)]
pub struct Variant {
    /// The variant's name as declared.
    pub name: String,
    /// The variant's fields, in order. Empty for a unit variant.
    pub fields: Vec<Field>,
    /// The text of an explicit discriminant, where the variant has one.
    pub discriminant: Option<String>,
    /// The flags on the variant.
    pub skip: VariantConfig,
}

/// The generic parameters of a declaration, split as an `impl` block needs
/// them. Each part is text that is copied unread, and may be empty.
#[derive(Clone, Debug, PartialEq, Eq)]
pub struct Generics {
    /// What follows `impl`, with its angle brackets: `<T: Clone>`.
    pub impl_generics: String,
    /// What follows the type's name, with its angle brackets: `<T>`.
    pub type_generics: String,
    /// The `where` clause, with the word `where`.
    pub where_clause: String,
}

/// A struct or an enum for which accessors are wanted.
#[derive(Clone, Debug, PartialEq, Eq)]
pub struct Declaration {
    /// The name of the type.
    pub name: String,
    /// The form of the declaration.
    pub shape: Shape,
    /// The flags on the declaration.
    pub config: TypeConfig,
    /// The generic parameters.
    pub generics: Generics,
    /// The fields of a struct, in order. Not read for an enum.
    pub fields: Vec<Field>,
    /// The variants of an enum, in order. Empty for a struct.
    pub variants: Vec<Variant>,
}

/// The value of a [`Field`].
pub struct FieldView {
    pub name: Option<Seq<char>>,
    pub value_type: Seq<char>,
    pub config: FieldConfig,
}

/// The value of a [`Variant`].
pub struct VariantView {
    pub name: Seq<char>,
    pub fields: Seq<FieldView>,
    pub discriminant: Option<Seq<char>>,
    pub skip: VariantConfig,
}

/// The value of a [`Generics`].
pub struct GenericsView {
    pub impl_generics: Seq<char>,
    pub type_generics: Seq<char>,
    pub where_clause: Seq<char>,
}

/// The value of a [`Declaration`].
pub struct DeclarationView {
    pub name: Seq<char>,
    pub shape: Shape,
    pub config: TypeConfig,
    pub generics: GenericsView,
    pub fields: Seq<FieldView>,
    pub variants: Seq<VariantView>,
}

impl View for Field {
    type V = FieldView;

    open spec fn view(&self) -> FieldView {
        FieldView {
            name: self.name.deep_view(),
            value_type: self.value_type@,
            config: self.config,
        }
    }
}

impl DeepView for Field {
    type V = FieldView;

    open spec fn deep_view(&self) -> FieldView {
        self@
    }
}

impl View for Variant {
    type V = VariantView;

    open spec fn view(&self) -> VariantView {
        VariantView {
            name: self.name@,
            fields: self.fields.deep_view(),
            discriminant: self.discriminant.deep_view(),
            skip: self.skip,
        }
    }
}

impl DeepView for Variant {
    type V = VariantView;

    open spec fn deep_view(&self) -> VariantView {
        self@
    }
}

impl View for Generics {
    type V = GenericsView;

    open spec fn view(&self) -> GenericsView {
        GenericsView {
            impl_generics: self.impl_generics@,
            type_generics: self.type_generics@,
            where_clause: self.where_clause@,
        }
    }
}

impl View for Declaration {
    type V = DeclarationView;

    open spec fn view(&self) -> DeclarationView {
        DeclarationView {
            name: self.name@,
            shape: self.shape,
            config: self.config,
            generics: self.generics@,
            fields: self.fields.deep_view(),
            variants: self.variants.deep_view(),
        }
    }
}

impl Field {
    /// A field with a name of its own.
    pub fn named(name: &str, value_type: &str, config: FieldConfig) -> (field: Field)
        ensures
            field@ == (FieldView { name: Some(name@), value_type: value_type@, config }),
    {
        Field {
            name: Some(name.to_owned()),
            value_type: value_type.to_owned(),
            config,
        }
    }

    /// A field that is known by its position alone.
    pub fn positional(value_type: &str, config: FieldConfig) -> (field: Field)
        ensures
            field@ == (FieldView { name: None, value_type: value_type@, config }),
    {
        Field { name: None, value_type: value_type.to_owned(), config }
    }
}

impl Default for Generics {
    /// No generic parameters.
    fn default() -> (generics: Generics)
        ensures
            generics@ == (GenericsView {
                impl_generics: Seq::empty(),
                type_generics: Seq::empty(),
                where_clause: Seq::empty(),
            }),
    {
        Generics {
            impl_generics: String::new(),
            type_generics: String::new(),
            where_clause: String::new(),
        }
    }
}

} // verus!
