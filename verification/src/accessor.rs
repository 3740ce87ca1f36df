//! One planned accessor: everything that is needed to write it down.

use crate::config::AccessorKind;
use crate::ordinal::MAX_POSITIONAL_FIELDS;
use vstd::prelude::*;

verus! {

/// One accessor that is to be generated.
///
/// The field is located by `field_name` where it has a name and by
/// `position` where it has none.
#[derive(Clone, Debug, PartialEq, Eq)]
pub struct AccessorSpec {
    /// The name of the generated method.
    pub method_name: String,
    /// What the method hands out.
    pub kind: AccessorKind,
    /// The name of the type that the method belongs to.
    pub owning_type: String,
    /// The index of the variant that holds the field; 0 for a struct.
    pub variant_index: usize,
    /// The name of the variant that holds the field; empty for a struct.
    pub owning_variant: String,
    /// The index of the field among the fields that it stands with.
    pub position: usize,
    /// The field's own name; `None` for a positional field.
    pub field_name: Option<String>,
    /// How many fields the struct or variant has.
    pub field_count: usize,
    /// The field's type, as text.
    pub value_type: String,
    /// Whether the method has to match on the variant first, and so hands
    /// out an `Option`. True for the accessors of an enum.
    pub guarded: bool,
}

/// The value of an [`AccessorSpec`].
pub struct AccessorSpecView {
    pub method_name: Seq<char>,
    pub kind: AccessorKind,
    pub owning_type: Seq<char>,
    pub variant_index: nat,
    pub owning_variant: Seq<char>,
    pub position: nat,
    pub field_name: Option<Seq<char>>,
    pub field_count: nat,
    pub value_type: Seq<char>,
    pub guarded: bool,
}

impl View for AccessorSpec {
    type V = AccessorSpecView;

    open spec fn view(&self) -> AccessorSpecView {
        AccessorSpecView {
            method_name: self.method_name@,
            kind: self.kind,
            owning_type: self.owning_type@,
            variant_index: self.variant_index as nat,
            owning_variant: self.owning_variant@,
            position: self.position as nat,
            field_name: self.field_name.deep_view(),
            field_count: self.field_count as nat,
            value_type: self.value_type@,
            guarded: self.guarded,
        }
    }
}

impl DeepView for AccessorSpec {
    type V = AccessorSpecView;

    open spec fn deep_view(&self) -> AccessorSpecView {
        self@
    }
}

impl AccessorSpecView {
    /// An accessor that can be written down. Only a guarded accessor of a
    /// positional field is constrained: its pattern binds every element of
    /// the variant to a letter, and there are twenty letters.
    pub open spec fn well_formed(self) -> bool {
        self.guarded && self.field_name is None ==> self.position < self.field_count
            <= MAX_POSITIONAL_FIELDS
    }
}

impl AccessorSpec {
    /// Whether the accessor can be written down.
    pub fn is_well_formed(&self) -> (b: bool)
        ensures
            b == self@.well_formed(),
    {
        if self.guarded && self.field_name.is_none() {
            self.position < self.field_count && self.field_count <= MAX_POSITIONAL_FIELDS
        } else {
            true
        }
    }
}

/// The ending of a method's name.
pub open spec fn suffix(kind: AccessorKind) -> Seq<char> {
    match kind {
        AccessorKind::Ref => "ref"@,
        AccessorKind::Mut => "mut"@,
        AccessorKind::Clone => "clone"@,
        AccessorKind::Deref => "deref"@,
    }
}

/// The position of a kind in the order in which the accessors of one field
/// are emitted.
pub open spec fn kind_rank(kind: AccessorKind) -> int {
    match kind {
        AccessorKind::Ref => 0,
        AccessorKind::Mut => 1,
        AccessorKind::Clone => 2,
        AccessorKind::Deref => 3,
    }
}

/// The ending of the name of a method of the given kind.
pub fn kind_suffix(kind: AccessorKind) -> (s: &'static str)
    ensures
        s@ == suffix(kind),
{
    match kind {
        AccessorKind::Ref => "ref",
        AccessorKind::Mut => "mut",
        AccessorKind::Clone => "clone",
        AccessorKind::Deref => "deref",
    }
}

} // verus!
