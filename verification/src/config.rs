//! The flags of a declaration, a variant and a field, and how the three
//! levels combine into the set of accessors that a field gets.

use vstd::prelude::*;

verus! {

/// The four kinds of accessor, in the order in which they are emitted for a
/// field.
#[derive(Clone, Copy, Debug, PartialEq, Eq, Structural)]
pub enum AccessorKind {
    /// `&self -> &T`
    Ref,
    /// `&mut self -> &mut T`
    Mut,
    /// `&self -> T`, by `clone()`
    Clone,
    /// `&self -> T`, by copying the value out
    Deref,
}

/// Flags on the declaration itself: which accessors every field gets besides
/// the reference getter, unless a field or its variant says otherwise.
#[derive(Clone, Copy, Debug, PartialEq, Eq, Structural)]
pub struct TypeConfig {
    pub mutable: bool,
    pub clone: bool,
    pub deref: bool,
}

/// Flags on a variant of an enum. Each suppresses one kind of accessor for
/// every field of the variant.
#[derive(Clone, Copy, Debug, PartialEq, Eq, Structural)]
pub struct VariantConfig {
    pub skip: bool,
    pub skip_mutable: bool,
    pub skip_clone: bool,
    pub skip_deref: bool,
}

/// Flags on a single field: three that switch an accessor on, four that
/// switch one off. The reference getter has no enabling flag.
#[derive(Clone, Copy, Debug, PartialEq, Eq, Structural)]
pub struct FieldConfig {
    pub mutable: bool,
    pub clone: bool,
    pub deref: bool,
    pub skip: bool,
    pub skip_mutable: bool,
    pub skip_clone: bool,
    pub skip_deref: bool,
}

/// The outcome of resolution for one field: which of the four accessors are
/// emitted.
#[derive(Clone, Copy, Debug, PartialEq, Eq, Structural)]
pub struct Emission {
    pub emit_ref: bool,
    pub emit_mut: bool,
    pub emit_clone: bool,
    pub emit_deref: bool,
}

impl TypeConfig {
    /// Whether the declaration switches `kind` on for all of its fields. The
    /// reference getter is on without a flag.
    pub open spec fn enables(self, kind: AccessorKind) -> bool {
        match kind {
            AccessorKind::Ref => true,
            AccessorKind::Mut => self.mutable,
            AccessorKind::Clone => self.clone,
            AccessorKind::Deref => self.deref,
        }
    }
}

impl VariantConfig {
    /// The configuration of a variant that carries no flag. It also stands
    /// for the single implicit variant of a struct.
    pub open spec fn none() -> VariantConfig {
        VariantConfig { skip: false, skip_mutable: false, skip_clone: false, skip_deref: false }
    }

    /// Whether the variant suppresses `kind`.
    pub open spec fn skips(self, kind: AccessorKind) -> bool {
        match kind {
            AccessorKind::Ref => self.skip,
            AccessorKind::Mut => self.skip_mutable,
            AccessorKind::Clone => self.skip_clone,
            AccessorKind::Deref => self.skip_deref,
        }
    }
}

impl FieldConfig {
    /// Whether the field switches `kind` on for itself.
    pub open spec fn enables(self, kind: AccessorKind) -> bool {
        match kind {
            AccessorKind::Ref => true,
            AccessorKind::Mut => self.mutable,
            AccessorKind::Clone => self.clone,
            AccessorKind::Deref => self.deref,
        }
    }

    /// Whether the field suppresses `kind`.
    pub open spec fn skips(self, kind: AccessorKind) -> bool {
        match kind {
            AccessorKind::Ref => self.skip,
            AccessorKind::Mut => self.skip_mutable,
            AccessorKind::Clone => self.skip_clone,
            AccessorKind::Deref => self.skip_deref,
        }
    }
}

impl Emission {
    /// Whether an accessor of `kind` is emitted.
    pub open spec fn emits(self, kind: AccessorKind) -> bool {
        match kind {
            AccessorKind::Ref => self.emit_ref,
            AccessorKind::Mut => self.emit_mut,
            AccessorKind::Clone => self.emit_clone,
            AccessorKind::Deref => self.emit_deref,
        }
    }
}

/// Whether a field gets an accessor of `kind`: it is switched on by the field
/// or by the declaration, and neither the field nor its variant skips it.
pub open spec fn enabled(
    type_cfg: TypeConfig,
    variant_cfg: VariantConfig,
    field_cfg: FieldConfig,
    kind: AccessorKind,
) -> bool {
    (field_cfg.enables(kind) || type_cfg.enables(kind)) && !field_cfg.skips(kind)
        && !variant_cfg.skips(kind)
}

/// The four decisions for one field.
pub open spec fn resolve_spec(
    type_cfg: TypeConfig,
    variant_cfg: VariantConfig,
    field_cfg: FieldConfig,
) -> Emission {
    Emission {
        emit_ref: enabled(type_cfg, variant_cfg, field_cfg, AccessorKind::Ref),
        emit_mut: enabled(type_cfg, variant_cfg, field_cfg, AccessorKind::Mut),
        emit_clone: enabled(type_cfg, variant_cfg, field_cfg, AccessorKind::Clone),
        emit_deref: enabled(type_cfg, variant_cfg, field_cfg, AccessorKind::Deref),
    }
}

/// Combines the flags of a declaration, of a variant and of a field into the
/// set of accessors that the field gets. A skip at either level wins over
/// any enabling flag.
pub fn resolve(type_cfg: TypeConfig, variant_cfg: VariantConfig, field_cfg: FieldConfig) -> (e:
    Emission)
    ensures
        e == resolve_spec(type_cfg, variant_cfg, field_cfg),
        e.emit_ref == (!field_cfg.skip && !variant_cfg.skip),
        e.emit_mut == ((field_cfg.mutable || type_cfg.mutable) && !field_cfg.skip_mutable
            && !variant_cfg.skip_mutable),
        e.emit_clone == ((field_cfg.clone || type_cfg.clone) && !field_cfg.skip_clone
            && !variant_cfg.skip_clone),
        e.emit_deref == ((field_cfg.deref || type_cfg.deref) && !field_cfg.skip_deref
            && !variant_cfg.skip_deref),
{
    Emission {
        emit_ref: !field_cfg.skip && !variant_cfg.skip,
        emit_mut: (field_cfg.mutable || type_cfg.mutable) && !field_cfg.skip_mutable
            && !variant_cfg.skip_mutable,
        emit_clone: (field_cfg.clone || type_cfg.clone) && !field_cfg.skip_clone
            && !variant_cfg.skip_clone,
        emit_deref: (field_cfg.deref || type_cfg.deref) && !field_cfg.skip_deref
            && !variant_cfg.skip_deref,
    }
}

impl Default for TypeConfig {
    /// No flag set: only the reference getter is generated.
    fn default() -> (config: TypeConfig)
        ensures
            config == (TypeConfig { mutable: false, clone: false, deref: false }),
    {
        TypeConfig { mutable: false, clone: false, deref: false }
    }
}

impl Default for VariantConfig {
    /// No flag set: the variant suppresses nothing.
    fn default() -> (config: VariantConfig)
        ensures
            config == VariantConfig::none(),
    {
        VariantConfig { skip: false, skip_mutable: false, skip_clone: false, skip_deref: false }
    }
}

impl Default for FieldConfig {
    /// No flag set: the field follows the declaration.
    fn default() -> (config: FieldConfig)
        ensures
            config == (FieldConfig {
                mutable: false,
                clone: false,
                deref: false,
                skip: false,
                skip_mutable: false,
                skip_clone: false,
                skip_deref: false,
            }),
    {
        FieldConfig {
            mutable: false,
            clone: false,
            deref: false,
            skip: false,
            skip_mutable: false,
            skip_clone: false,
            skip_deref: false,
        }
    }
}

} // verus!
