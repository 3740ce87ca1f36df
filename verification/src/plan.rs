//! From a declaration to the list of its accessors.
//!
//! The plan of a declaration lists its accessors in the order of the
//! variants, within a variant in the order of the fields, and for one field
//! in the order reference, mutable reference, clone, copy. A kind that is
//! resolved to off has no entry at all.

use crate::accessor::{kind_suffix, suffix, AccessorSpec, AccessorSpecView};
use crate::config::{enabled, resolve, resolve_spec, AccessorKind, TypeConfig, VariantConfig};
use crate::declaration::{Declaration, DeclarationView, Field, FieldView};
use crate::error::GettersError;
use crate::ordinal::{method_name, ordinal_name, MAX_POSITIONAL_FIELDS};
use crate::text::{ascii_lowercase, to_ascii_lowercase};
use vstd::prelude::*;
use vstd::string::*;

verus! {

/// One layout of fields together with what its accessors depend on: the
/// single layout of a struct, or one variant of an enum.
pub struct Layout {
    /// The name of the declaration.
    pub owning_type: Seq<char>,
    /// The flags on the declaration.
    pub config: TypeConfig,
    /// Whether the layout is one of several, so that its accessors match on
    /// the variant first.
    pub guarded: bool,
    /// The index of the variant; 0 for a struct.
    pub variant_index: nat,
    /// The name of the variant; empty for a struct.
    pub variant_name: Seq<char>,
    /// The flags on the variant; none for a struct.
    pub skip: VariantConfig,
    /// The fields, in order.
    pub fields: Seq<FieldView>,
}

impl Layout {
    /// The field at `i` has no name of its own and lies in a layout with
    /// more fields than ordinal names can serve.
    pub open spec fn unreachable(self, i: int) -> bool {
        self.fields[i].name is None && self.fields.len() > MAX_POSITIONAL_FIELDS
    }

    /// Some field of the layout cannot be named.
    pub open spec fn out_of_range(self) -> bool {
        exists|i: int| 0 <= i < self.fields.len() && #[trigger] self.unreachable(i)
    }

    /// What the accessors of the field at `i` are named after: the field's
    /// own name, or else the ordinal name of its position.
    pub open spec fn base_name(self, i: int) -> Seq<char> {
        match self.fields[i].name {
            Some(name) => name,
            None => ordinal_name(i, self.fields.len() as int),
        }
    }

    /// The name of the accessor of `kind` for the field at `i`. In an enum
    /// it starts with the variant's name in lower case.
    pub open spec fn method_name(self, i: int, kind: AccessorKind) -> Seq<char> {
        if self.guarded {
            ascii_lowercase(self.variant_name) + "_"@ + self.base_name(i) + "_"@ + suffix(kind)
        } else {
            self.base_name(i) + "_"@ + suffix(kind)
        }
    }

    /// The accessor of `kind` for the field at `i`.
    pub open spec fn accessor(self, i: int, kind: AccessorKind) -> AccessorSpecView {
        AccessorSpecView {
            method_name: self.method_name(i, kind),
            kind,
            owning_type: self.owning_type,
            variant_index: self.variant_index,
            owning_variant: self.variant_name,
            position: i as nat,
            field_name: self.fields[i].name,
            field_count: self.fields.len(),
            value_type: self.fields[i].value_type,
            guarded: self.guarded,
        }
    }

    /// Whether the field at `i` gets an accessor of `kind`.
    pub open spec fn emits(self, i: int, kind: AccessorKind) -> bool {
        enabled(self.config, self.skip, self.fields[i].config, kind)
    }

    /// The accessor of `kind` for the field at `i` if it is emitted, and
    /// nothing if it is not.
    pub open spec fn of_kind(self, i: int, kind: AccessorKind) -> Seq<AccessorSpecView> {
        if self.emits(i, kind) {
            seq![self.accessor(i, kind)]
        } else {
            Seq::empty()
        }
    }

    /// The accessors of the field at `i`, in their fixed order.
    pub open spec fn field_accessors(self, i: int) -> Seq<AccessorSpecView> {
        self.of_kind(i, AccessorKind::Ref) + self.of_kind(i, AccessorKind::Mut) + self.of_kind(
            i,
            AccessorKind::Clone,
        ) + self.of_kind(i, AccessorKind::Deref)
    }

    /// The accessors of the first `n` fields, field after field.
    pub open spec fn accessors_upto(self, n: int) -> Seq<AccessorSpecView> {
        Seq::new(n as nat, |i: int| self.field_accessors(i)).flatten()
    }

    /// The accessors of all fields of the layout.
    pub open spec fn accessors(self) -> Seq<AccessorSpecView> {
        self.accessors_upto(self.fields.len() as int)
    }
}

impl DeclarationView {
    /// The single layout of a struct.
    pub open spec fn struct_layout(self) -> Layout {
        Layout {
            owning_type: self.name,
            config: self.config,
            guarded: false,
            variant_index: 0,
            variant_name: Seq::empty(),
            skip: VariantConfig::none(),
            fields: self.fields,
        }
    }

    /// The layout of the variant at `v` of an enum.
    pub open spec fn variant_layout(self, v: int) -> Layout {
        Layout {
            owning_type: self.name,
            config: self.config,
            guarded: true,
            variant_index: v as nat,
            variant_name: self.variants[v].name,
            skip: self.variants[v].skip,
            fields: self.variants[v].fields,
        }
    }

    /// The layout that `variant` selects: the struct's own for `None`.
    pub open spec fn layout(self, variant: Option<int>) -> Layout {
        match variant {
            None => self.struct_layout(),
            Some(v) => self.variant_layout(v),
        }
    }

    /// Some variant carries an explicit discriminant.
    pub open spec fn has_discriminant(self) -> bool {
        exists|v: int| 0 <= v < self.variants.len() && (#[trigger] self.variants[v]).discriminant
            is Some
    }

    /// Some variant has a field that cannot be named.
    pub open spec fn variant_out_of_range(self) -> bool {
        exists|v: int| 0 <= v < self.variants.len() && #[trigger] self.variant_layout(
            v,
        ).out_of_range()
    }

    /// Why a struct gets no accessors, if it gets none.
    pub open spec fn struct_error(self) -> Option<GettersError> {
        if self.struct_layout().out_of_range() {
            Some(GettersError::PositionOutOfRange)
        } else {
            None
        }
    }

    /// Why an enum gets no accessors, if it gets none. A discriminant is
    /// reported before a field out of range.
    pub open spec fn enum_error(self) -> Option<GettersError> {
        if self.has_discriminant() {
            Some(GettersError::UnsupportedDiscriminant)
        } else if self.variant_out_of_range() {
            Some(GettersError::PositionOutOfRange)
        } else {
            None
        }
    }

    /// Why the declaration gets no accessors, if it gets none.
    pub open spec fn error(self) -> Option<GettersError> {
        if !self.shape.spec_is_supported() {
            Some(GettersError::UnsupportedShape)
        } else if self.shape.spec_is_struct_like() {
            self.struct_error()
        } else {
            self.enum_error()
        }
    }

    /// The accessors of the first `n` variants of an enum, variant after
    /// variant.
    pub open spec fn enum_accessors_upto(self, n: int) -> Seq<AccessorSpecView> {
        Seq::new(n as nat, |v: int| self.variant_layout(v).accessors()).flatten()
    }

    /// The accessors of an enum.
    pub open spec fn enum_accessors(self) -> Seq<AccessorSpecView> {
        self.enum_accessors_upto(self.variants.len() as int)
    }

    /// The accessors of the declaration, in the order in which they are
    /// emitted.
    pub open spec fn plan(self) -> Seq<AccessorSpecView> {
        if self.shape.spec_is_struct_like() {
            self.struct_layout().accessors()
        } else {
            self.enum_accessors()
        }
    }
}

/// The name of an accessor: the base name and the ending of its kind, after
/// the prefix where there is one.
fn accessor_name(prefix: Option<&str>, base: &str, kind: AccessorKind) -> (name: String)
    ensures
        name@ == match prefix {
            Some(p) => p@ + "_"@ + base@ + "_"@ + suffix(kind),
            None => base@ + "_"@ + suffix(kind),
        },
{
    let mut name = String::new();
    match prefix {
        Some(p) => {
            name.append(p);
            name.append("_");
        },
        None => {},
    }
    name.append(base);
    name.append("_");
    name.append(kind_suffix(kind));
    proof {
        match prefix {
            Some(p) => {
                assert(name@ =~= p@ + "_"@ + base@ + "_"@ + suffix(kind));
            },
            None => {
                assert(name@ =~= base@ + "_"@ + suffix(kind));
            },
        }
    }
    name
}

/// A copy of a name that may be absent.
fn copy_name(name: &Option<String>) -> (copy: Option<String>)
    ensures
        copy.deep_view() == name.deep_view(),
{
    match name {
        Some(n) => Some(n.clone()),
        None => None,
    }
}

impl Declaration {
    /// The fields of the layout that `variant` selects.
    fn layout_fields(&self, variant: Option<usize>) -> (fields: &Vec<Field>)
        requires
            variant matches Some(v) ==> v < self.variants.len(),
        ensures
            fields.deep_view() == self@.layout(spec_index(variant)).fields,
    {
        match variant {
            None => &self.fields,
            Some(v) => &self.variants[v].fields,
        }
    }

    /// The accessors of one field of one layout.
    fn layout_field(&self, variant: Option<usize>, index: usize) -> (planned: Result<
        Vec<AccessorSpec>,
        GettersError,
    >)
        requires
            variant matches Some(v) ==> v < self.variants.len(),
            index < self@.layout(spec_index(variant)).fields.len(),
        ensures
            match planned {
                Ok(specs) => !self@.layout(spec_index(variant)).unreachable(index as int)
                    && specs.deep_view() == self@.layout(spec_index(variant)).field_accessors(
                    index as int,
                ),
                Err(e) => e == GettersError::PositionOutOfRange && self@.layout(
                    spec_index(variant),
                ).unreachable(index as int),
            },
    {
        let ghost layout = self@.layout(spec_index(variant));
        let fields = self.layout_fields(variant);
        let field = &fields[index];
        assert(field@ == layout.fields[index as int]);
        let max: usize = fields.len();
        let lowered: Option<String> = match variant {
            None => None,
            Some(v) => Some(to_ascii_lowercase(self.variants[v].name.as_str())),
        };
        let base: &str = match &field.name {
            Some(name) => name.as_str(),
            None => {
                if max > MAX_POSITIONAL_FIELDS {
                    return Err(GettersError::PositionOutOfRange);
                }
                match method_name(index, max) {
                    Ok(word) => word,
                    Err(e) => {
                        return Err(e);
                    },
                }
            },
        };
        assert(base@ == layout.base_name(index as int));
        let skip: VariantConfig = match variant {
            None => VariantConfig {
                skip: false,
                skip_mutable: false,
                skip_clone: false,
                skip_deref: false,
            },
            Some(v) => self.variants[v].skip,
        };
        let emission = resolve(self.config, skip, field.config);
        let kinds: [AccessorKind; 4] = [
            AccessorKind::Ref,
            AccessorKind::Mut,
            AccessorKind::Clone,
            AccessorKind::Deref,
        ];
        let mut specs: Vec<AccessorSpec> = Vec::new();
        let mut k: usize = 0;
        while k < 4
            invariant
                k <= 4,
                variant matches Some(v) ==> v < self.variants.len(),
                index < fields.len(),
                max == fields.len(),
                layout == self@.layout(spec_index(variant)),
                fields.deep_view() == layout.fields,
                field == fields[index as int],
                base@ == layout.base_name(index as int),
                emission == resolve_spec(layout.config, layout.skip, field.config),
                lowered.deep_view() == (if layout.guarded {
                    Some(ascii_lowercase(layout.variant_name))
                } else {
                    None::<Seq<char>>
                }),
                kinds@ == seq![
                    AccessorKind::Ref,
                    AccessorKind::Mut,
                    AccessorKind::Clone,
                    AccessorKind::Deref,
                ],
                specs.deep_view() == kinds_upto(layout, index as int, k as int),
            decreases 4 - k,
        {
            let kind = kinds[k];
            let emit: bool = match kind {
                AccessorKind::Ref => emission.emit_ref,
                AccessorKind::Mut => emission.emit_mut,
                AccessorKind::Clone => emission.emit_clone,
                AccessorKind::Deref => emission.emit_deref,
            };
            assert(emit == layout.emits(index as int, kind));
            if emit {
                let prefix: Option<&str> = match &lowered {
                    Some(p) => Some(p.as_str()),
                    None => None,
                };
                let spec = AccessorSpec {
                    method_name: accessor_name(prefix, base, kind),
                    kind,
                    owning_type: self.name.clone(),
                    variant_index: match variant {
                        None => 0,
                        Some(v) => v,
                    },
                    owning_variant: match variant {
                        None => String::new(),
                        Some(v) => self.variants[v].name.clone(),
                    },
                    position: index,
                    field_name: copy_name(&field.name),
                    field_count: max,
                    value_type: field.value_type.clone(),
                    guarded: variant.is_some(),
                };
                assert(spec@ == layout.accessor(index as int, kind));
                let ghost before = specs.deep_view();
                specs.push(spec);
                assert(specs.deep_view() =~= before.push(layout.accessor(index as int, kind)));
            }
            assert(specs.deep_view() =~= kinds_upto(layout, index as int, k as int)
                + layout.of_kind(index as int, kind));
            k = k + 1;
        }
        assert(specs.deep_view() =~= layout.field_accessors(index as int));
        Ok(specs)
    }
}

impl Declaration {
    /// The accessors of all fields of one layout.
    fn layout_accessors(&self, variant: Option<usize>) -> (planned: Result<
        Vec<AccessorSpec>,
        GettersError,
    >)
        requires
            variant matches Some(v) ==> v < self.variants.len(),
        ensures
            match planned {
                Ok(specs) => !self@.layout(spec_index(variant)).out_of_range()
                    && specs.deep_view() == self@.layout(spec_index(variant)).accessors(),
                Err(e) => e == GettersError::PositionOutOfRange && self@.layout(
                    spec_index(variant),
                ).out_of_range(),
            },
    {
        let ghost layout = self@.layout(spec_index(variant));
        let n: usize = self.layout_fields(variant).len();
        let mut specs: Vec<AccessorSpec> = Vec::new();
        let mut i: usize = 0;
        assert(specs.deep_view() =~= layout.accessors_upto(0)) by {
            assert(Seq::new(0, |j: int| layout.field_accessors(j)) =~= Seq::<
                Seq<AccessorSpecView>,
            >::empty());
        }
        while i < n
            invariant
                i <= n,
                n == layout.fields.len(),
                variant matches Some(v) ==> v < self.variants.len(),
                layout == self@.layout(spec_index(variant)),
                forall|j: int| 0 <= j < i ==> !#[trigger] layout.unreachable(j),
                specs.deep_view() == layout.accessors_upto(i as int),
            decreases n - i,
        {
            let mut part = match self.layout_field(variant, i) {
                Ok(part) => part,
                Err(e) => {
                    return Err(e);
                },
            };
            let ghost before = specs.deep_view();
            let ghost added = part.deep_view();
            specs.append(&mut part);
            proof {
                assert(specs.deep_view() =~= before + added);
                let upto = Seq::new(i as nat, |j: int| layout.field_accessors(j));
                let next = Seq::new((i + 1) as nat, |j: int| layout.field_accessors(j));
                assert(next =~= upto.push(layout.field_accessors(i as int)));
                upto.lemma_flatten_push(layout.field_accessors(i as int));
            }
            i = i + 1;
        }
        Ok(specs)
    }

    /// Plans the accessors of the field at `index` of a struct: one for each
    /// kind that the flags of the declaration and of the field leave on,
    /// named after the field and returning the field directly.
    ///
    /// Fails with [`GettersError::PositionOutOfRange`] if and only if the
    /// field has no name of its own and the struct has more than twenty
    /// fields.
    pub fn method_field(&self, index: usize) -> (planned: Result<Vec<AccessorSpec>, GettersError>)
        requires
            index < self.fields.len(),
        ensures
            match planned {
                Ok(specs) => !self@.struct_layout().unreachable(index as int)
                    && specs.deep_view() == self@.struct_layout().field_accessors(index as int),
                Err(e) => e == GettersError::PositionOutOfRange
                    && self@.struct_layout().unreachable(index as int),
            },
    {
        self.layout_field(None, index)
    }

    /// Plans the accessors of the field at `index` of the variant at
    /// `variant` of an enum: one for each kind that the flags of the
    /// declaration, of the variant and of the field leave on, named after
    /// the variant and the field and guarded by a match on the variant.
    ///
    /// Fails with [`GettersError::PositionOutOfRange`] if and only if the
    /// field has no name of its own and the variant has more than twenty
    /// fields.
    pub fn method_variant(&self, variant: usize, index: usize) -> (planned: Result<
        Vec<AccessorSpec>,
        GettersError,
    >)
        requires
            variant < self.variants.len(),
            index < self.variants[variant as int].fields.len(),
        ensures
            match planned {
                Ok(specs) => !self@.variant_layout(variant as int).unreachable(index as int)
                    && specs.deep_view() == self@.variant_layout(variant as int).field_accessors(
                    index as int,
                ),
                Err(e) => e == GettersError::PositionOutOfRange && self@.variant_layout(
                    variant as int,
                ).unreachable(index as int),
            },
    {
        self.layout_field(Some(variant), index)
    }

    /// Plans the accessors of a struct, field after field.
    ///
    /// Fails with [`GettersError::PositionOutOfRange`] if and only if some
    /// field cannot be named.
    pub fn methods_struct(&self) -> (planned: Result<Vec<AccessorSpec>, GettersError>)
        ensures
            match planned {
                Ok(specs) => self@.struct_error() is None && specs.deep_view()
                    == self@.struct_layout().accessors(),
                Err(e) => self@.struct_error() == Some(e),
            },
    {
        self.layout_accessors(None)
    }

    /// Whether some variant carries an explicit discriminant.
    pub fn any_discriminant(&self) -> (found: bool)
        ensures
            found == self@.has_discriminant(),
    {
        let n: usize = self.variants.len();
        let mut v: usize = 0;
        while v < n
            invariant
                v <= n,
                n == self.variants.len(),
                forall|u: int| 0 <= u < v ==> (#[trigger] self@.variants[u]).discriminant is None,
            decreases n - v,
        {
            if self.variants[v].discriminant.is_some() {
                assert(self@.variants[v as int].discriminant is Some);
                return true;
            }
            assert(self@.variants[v as int].discriminant is None);
            v = v + 1;
        }
        false
    }

    /// Plans the accessors of an enum, variant after variant and within a
    /// variant field after field. A variant without fields adds nothing.
    ///
    /// Fails with [`GettersError::UnsupportedDiscriminant`] if and only if
    /// some variant carries an explicit discriminant; otherwise with
    /// [`GettersError::PositionOutOfRange`] if and only if some field of
    /// some variant cannot be named.
    pub fn methods_enum(&self) -> (planned: Result<Vec<AccessorSpec>, GettersError>)
        ensures
            match planned {
                Ok(specs) => self@.enum_error() is None && specs.deep_view()
                    == self@.enum_accessors(),
                Err(e) => self@.enum_error() == Some(e),
            },
    {
        if self.any_discriminant() {
            return Err(GettersError::UnsupportedDiscriminant);
        }
        let n: usize = self.variants.len();
        let mut specs: Vec<AccessorSpec> = Vec::new();
        let mut v: usize = 0;
        assert(specs.deep_view() =~= self@.enum_accessors_upto(0)) by {
            assert(Seq::new(0, |u: int| self@.variant_layout(u).accessors()) =~= Seq::<
                Seq<AccessorSpecView>,
            >::empty());
        }
        while v < n
            invariant
                v <= n,
                n == self.variants.len(),
                !self@.has_discriminant(),
                forall|u: int| 0 <= u < v ==> !(#[trigger] self@.variant_layout(u)).out_of_range(),
                specs.deep_view() == self@.enum_accessors_upto(v as int),
            decreases n - v,
        {
            let mut part = match self.layout_accessors(Some(v)) {
                Ok(part) => part,
                Err(e) => {
                    assert(self@.variant_layout(v as int).out_of_range());
                    return Err(e);
                },
            };
            let ghost before = specs.deep_view();
            let ghost added = part.deep_view();
            specs.append(&mut part);
            proof {
                assert(specs.deep_view() =~= before + added);
                let upto = Seq::new(v as nat, |u: int| self@.variant_layout(u).accessors());
                let next = Seq::new((v + 1) as nat, |u: int| self@.variant_layout(u).accessors());
                assert(next =~= upto.push(self@.variant_layout(v as int).accessors()));
                upto.lemma_flatten_push(self@.variant_layout(v as int).accessors());
            }
            v = v + 1;
        }
        Ok(specs)
    }

    /// Plans the accessors of a declaration.
    ///
    /// The accessors come in the order of the variants, then of the fields,
    /// then of the kinds: reference, mutable reference, clone, copy. A kind
    /// that is switched off or skipped has no entry.
    ///
    /// Fails with [`GettersError::UnsupportedShape`] if and only if the
    /// declaration is neither a supported struct nor a supported enum;
    /// otherwise, for an enum, with
    /// [`GettersError::UnsupportedDiscriminant`] if and only if some variant
    /// carries an explicit discriminant; otherwise with
    /// [`GettersError::PositionOutOfRange`] if and only if some struct or
    /// variant has a positional field and more than twenty fields.
    pub fn plan(&self) -> (planned: Result<Vec<AccessorSpec>, GettersError>)
        ensures
            match planned {
                Ok(specs) => self@.error() is None && specs.deep_view() == self@.plan(),
                Err(e) => self@.error() == Some(e),
            },
    {
        if self.shape.is_struct_like() {
            self.methods_struct()
        } else if self.shape.is_enum_like() {
            self.methods_enum()
        } else {
            Err(GettersError::UnsupportedShape)
        }
    }
}

/// The index of a variant as the specifications count it.
spec fn spec_index(variant: Option<usize>) -> Option<int> {
    match variant {
        None => None,
        Some(v) => Some(v as int),
    }
}

/// The accessors of the field at `i` of the first `k` kinds.
spec fn kinds_upto(layout: Layout, i: int, k: int) -> Seq<AccessorSpecView> {
    if k <= 0 {
        Seq::empty()
    } else if k == 1 {
        layout.of_kind(i, AccessorKind::Ref)
    } else if k == 2 {
        layout.of_kind(i, AccessorKind::Ref) + layout.of_kind(i, AccessorKind::Mut)
    } else if k == 3 {
        layout.of_kind(i, AccessorKind::Ref) + layout.of_kind(i, AccessorKind::Mut)
            + layout.of_kind(i, AccessorKind::Clone)
    } else {
        layout.field_accessors(i)
    }
}

} // verus!
