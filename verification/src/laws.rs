//! What holds of every plan.

use crate::accessor::{kind_rank, suffix, AccessorSpecView};
use crate::config::AccessorKind;
use crate::declaration::DeclarationView;
use crate::plan::Layout;
use crate::text::ascii_lowercase;
use crate::render::{
    binding, body, direct_value, guarded_value, handed_out, member, pattern, return_type,
};
use vstd::prelude::*;

verus! {

/// What holds of every element of every part holds of every element of the
/// parts laid end to end.
pub proof fn lemma_flatten_all<A>(parts: Seq<Seq<A>>, holds: spec_fn(A) -> bool)
    requires
        forall|a: int, b: int|
            0 <= a < parts.len() && 0 <= b < parts[a].len() ==> holds(#[trigger] parts[a][b]),
    ensures
        forall|j: int| 0 <= j < parts.flatten().len() ==> holds(#[trigger] parts.flatten()[j]),
    decreases parts.len(),
{
    if parts.len() > 0 {
        let front = parts.drop_last();
        let last = parts.last();
        assert forall|a: int, b: int| 0 <= a < front.len() && 0 <= b < front[a].len() implies holds(
            #[trigger] front[a][b],
        ) by {
            assert(front[a] == parts[a]);
        }
        lemma_flatten_all(front, holds);
        assert(parts =~= front.push(last));
        front.lemma_flatten_push(last);
        assert(parts.flatten() =~= front.flatten() + last);
        assert forall|j: int| 0 <= j < parts.flatten().len() implies holds(
            #[trigger] parts.flatten()[j],
        ) by {
            if j < front.flatten().len() {
                assert(parts.flatten()[j] == front.flatten()[j]);
            } else {
                let b = j - front.flatten().len();
                assert(parts.flatten()[j] == last[b]);
                assert(last == parts[parts.len() - 1]);
            }
        }
    } else {
        assert(parts.flatten() =~= Seq::<A>::empty());
    }
}

impl Layout {
    /// An accessor that belongs to this layout: the accessor of some kind
    /// that is emitted for some field of it.
    pub open spec fn owns(self, spec: AccessorSpecView) -> bool {
        exists|i: int, kind: AccessorKind|
            0 <= i < self.fields.len() && self.emits(i, kind) && spec == #[trigger] self.accessor(
                i,
                kind,
            )
    }

    /// Every planned accessor of a layout is the accessor of an emitted
    /// kind for one of its fields.
    pub proof fn lemma_accessors_owned(self)
        ensures
            forall|j: int|
                0 <= j < self.accessors().len() ==> self.owns(#[trigger] self.accessors()[j]),
    {
        let parts = Seq::new(self.fields.len(), |i: int| self.field_accessors(i));
        assert forall|a: int, b: int| 0 <= a < parts.len() && 0 <= b < parts[a].len() implies self.owns(
            #[trigger] parts[a][b],
        ) by {
            let spec = parts[a][b];
            let r = self.of_kind(a, AccessorKind::Ref);
            let m = self.of_kind(a, AccessorKind::Mut);
            let c = self.of_kind(a, AccessorKind::Clone);
            let d = self.of_kind(a, AccessorKind::Deref);
            assert(parts[a] == r + m + c + d);
            if b < r.len() {
                assert(spec == self.accessor(a, AccessorKind::Ref));
            } else if b < r.len() + m.len() {
                assert(spec == self.accessor(a, AccessorKind::Mut));
            } else if b < r.len() + m.len() + c.len() {
                assert(spec == self.accessor(a, AccessorKind::Clone));
            } else {
                assert(spec == self.accessor(a, AccessorKind::Deref));
            }
        }
        lemma_flatten_all(parts, |spec: AccessorSpecView| self.owns(spec));
    }
}

impl DeclarationView {
    /// An accessor that belongs to this declaration: to the single layout of
    /// a struct, or to the layout of some variant of an enum.
    pub open spec fn owns(self, spec: AccessorSpecView) -> bool {
        if self.shape.spec_is_struct_like() {
            self.struct_layout().owns(spec)
        } else {
            exists|v: int|
                0 <= v < self.variants.len() && (#[trigger] self.variant_layout(v)).owns(spec)
        }
    }

    /// Every accessor of a plan is the accessor of an emitted kind for a
    /// field of the declaration.
    pub proof fn lemma_plan_owned(self)
        ensures
            forall|j: int| 0 <= j < self.plan().len() ==> self.owns(#[trigger] self.plan()[j]),
    {
        if self.shape.spec_is_struct_like() {
            self.struct_layout().lemma_accessors_owned();
        } else {
            let parts = Seq::new(self.variants.len(), |v: int| self.variant_layout(v).accessors());
            assert forall|a: int, b: int|
                0 <= a < parts.len() && 0 <= b < parts[a].len() implies self.owns(
                #[trigger] parts[a][b],
            ) by {
                self.variant_layout(a).lemma_accessors_owned();
                assert(parts[a] == self.variant_layout(a).accessors());
                assert(self.variant_layout(a).owns(parts[a][b]));
            }
            lemma_flatten_all(parts, |spec: AccessorSpecView| self.owns(spec));
        }
    }
}

impl DeclarationView {
    /// The accessor points at a field of the declaration.
    pub open spec fn locates(self, spec: AccessorSpecView) -> bool {
        if self.shape.spec_is_struct_like() {
            spec.position < self.fields.len()
        } else {
            spec.variant_index < self.variants.len() && spec.position
                < self.variants[spec.variant_index as int].fields.len()
        }
    }

    /// The field that the accessor points at, or its variant, carries the
    /// skip flag of the accessor's kind.
    pub open spec fn skips(self, spec: AccessorSpecView) -> bool {
        if self.shape.spec_is_struct_like() {
            self.fields[spec.position as int].config.skips(spec.kind)
        } else {
            let variant = self.variants[spec.variant_index as int];
            variant.skip.skips(spec.kind) || variant.fields[spec.position as int].config.skips(
                spec.kind,
            )
        }
    }

    /// A skip suppresses without condition: every planned accessor points
    /// at a field of the declaration, and neither that field nor its variant
    /// carries the skip flag of the accessor's kind, whatever is switched on
    /// at any level.
    pub proof fn lemma_skip_suppresses(self)
        ensures
            forall|j: int|
                0 <= j < self.plan().len() ==> self.locates(#[trigger] self.plan()[j])
                    && !self.skips(self.plan()[j]),
    {
        self.lemma_plan_owned();
        assert forall|j: int| 0 <= j < self.plan().len() implies self.locates(
            #[trigger] self.plan()[j],
        ) && !self.skips(self.plan()[j]) by {
            let spec = self.plan()[j];
            assert(self.owns(spec));
            if self.shape.spec_is_struct_like() {
                let layout = self.struct_layout();
                let (i, kind) = choose|i: int, kind: AccessorKind|
                    0 <= i < layout.fields.len() && layout.emits(i, kind) && spec
                        == #[trigger] layout.accessor(i, kind);
                assert(spec.position == i && spec.kind == kind);
            } else {
                let v = choose|v: int|
                    0 <= v < self.variants.len() && (#[trigger] self.variant_layout(v)).owns(spec);
                let layout = self.variant_layout(v);
                let (i, kind) = choose|i: int, kind: AccessorKind|
                    0 <= i < layout.fields.len() && layout.emits(i, kind) && spec
                        == #[trigger] layout.accessor(i, kind);
                assert(spec.position == i && spec.kind == kind && spec.variant_index == v);
            }
        }
    }

    /// Every accessor of a plan that comes without error can be written
    /// down.
    pub proof fn lemma_plan_well_formed(self)
        requires
            self.error() is None,
        ensures
            forall|j: int| 0 <= j < self.plan().len() ==> (#[trigger] self.plan()[j]).well_formed(),
    {
        self.lemma_plan_owned();
        assert forall|j: int| 0 <= j < self.plan().len() implies (
        #[trigger] self.plan()[j]).well_formed() by {
            let spec = self.plan()[j];
            assert(self.owns(spec));
            if !self.shape.spec_is_struct_like() {
                let v = choose|v: int|
                    0 <= v < self.variants.len() && (#[trigger] self.variant_layout(v)).owns(spec);
                let layout = self.variant_layout(v);
                let (i, kind) = choose|i: int, kind: AccessorKind|
                    0 <= i < layout.fields.len() && layout.emits(i, kind) && spec
                        == #[trigger] layout.accessor(i, kind);
                assert(!layout.out_of_range());
                assert(!layout.unreachable(i));
            }
        }
    }

    /// The accessors of a struct are direct and those of an enum are
    /// guarded.
    ///
    /// For a struct, every accessor hands out the field itself: its return
    /// type is not wrapped and its body is the field expression alone. For
    /// an enum, every accessor returns an `Option`: its body matches `self`
    /// against the owning variant, wraps the field in `Some`, and is `None`
    /// where the match fails.
    pub proof fn lemma_direct_or_guarded(self)
        requires
            self.shape.spec_is_supported(),
        ensures
            forall|j: int|
                0 <= j < self.plan().len() ==> {
                    let spec = #[trigger] self.plan()[j];
                    &&& spec.guarded == self.shape.spec_is_enum_like()
                    &&& self.shape.spec_is_struct_like() ==> return_type(spec) == handed_out(
                        spec.kind,
                        spec.value_type,
                    ) && body(spec) == "        "@ + direct_value(spec) + "\n"@
                    &&& self.shape.spec_is_enum_like() ==> return_type(spec) == "Option<"@
                        + handed_out(spec.kind, spec.value_type) + ">"@ && body(spec)
                        == "        if let "@ + pattern(spec) + " = self {\n            Some("@
                        + guarded_value(spec)
                        + ")\n        } else {\n            None\n        }\n"@
                },
    {
        self.lemma_plan_owned();
        assert forall|j: int| 0 <= j < self.plan().len() implies (#[trigger] self.plan()[j]).guarded
            == self.shape.spec_is_enum_like() by {
            let spec = self.plan()[j];
            assert(self.owns(spec));
        }
    }
}

impl Layout {
    /// A positional field that stands alone is named `first`, and the last
    /// of several positional fields is named `last`. The accessors of the
    /// field are named after that name: in a struct by the name and the
    /// ending of the kind, in an enum with the variant's name in lower case
    /// before them.
    pub proof fn lemma_terminal_naming(self, i: int, kind: AccessorKind)
        requires
            0 <= i < self.fields.len(),
            self.fields[i].name is None,
        ensures
            self.fields.len() == 1 ==> self.base_name(i) == "first"@,
            self.fields.len() > 1 && i == self.fields.len() - 1 ==> self.base_name(i) == "last"@,
            !self.guarded ==> self.accessor(i, kind).method_name == self.base_name(i) + "_"@
                + suffix(kind),
            self.guarded ==> self.accessor(i, kind).method_name == ascii_lowercase(
                self.variant_name,
            ) + "_"@ + self.base_name(i) + "_"@ + suffix(kind),
    {
    }
}

/// Where every part is in order, and every element of a part comes before
/// every element of each later part, the parts laid end to end are in order.
pub proof fn lemma_flatten_ordered<A>(parts: Seq<Seq<A>>, before: spec_fn(A, A) -> bool)
    requires
        forall|a: int, b: int, c: int|
            0 <= a < parts.len() && 0 <= b < c < parts[a].len() ==> before(
                #[trigger] parts[a][b],
                #[trigger] parts[a][c],
            ),
        forall|a: int, b: int, c: int, d: int|
            0 <= a < c < parts.len() && 0 <= b < parts[a].len() && 0 <= d < parts[c].len()
                ==> before(#[trigger] parts[a][b], #[trigger] parts[c][d]),
    ensures
        forall|j: int, k: int|
            0 <= j < k < parts.flatten().len() ==> before(
                #[trigger] parts.flatten()[j],
                #[trigger] parts.flatten()[k],
            ),
    decreases parts.len(),
{
    if parts.len() > 0 {
        let front = parts.drop_last();
        let last = parts.last();
        assert forall|a: int, b: int, c: int|
            0 <= a < front.len() && 0 <= b < c < front[a].len() implies before(
            #[trigger] front[a][b],
            #[trigger] front[a][c],
        ) by {
            assert(front[a] == parts[a]);
        }
        assert forall|a: int, b: int, c: int, d: int|
            0 <= a < c < front.len() && 0 <= b < front[a].len() && 0 <= d < front[c].len() implies before(
            #[trigger] front[a][b],
            #[trigger] front[c][d],
        ) by {
            assert(front[a] == parts[a]);
            assert(front[c] == parts[c]);
        }
        lemma_flatten_ordered(front, before);
        let precedes_last = |x: A| forall|d: int| 0 <= d < last.len() ==> before(x, #[trigger] last[d]);
        assert forall|a: int, b: int| 0 <= a < front.len() && 0 <= b < front[a].len() implies precedes_last(
            #[trigger] front[a][b],
        ) by {
            assert(front[a] == parts[a]);
            assert forall|d: int| 0 <= d < last.len() implies before(
                front[a][b],
                #[trigger] last[d],
            ) by {
                assert(last == parts[parts.len() - 1]);
                assert(before(parts[a][b], parts[parts.len() - 1][d]));
            }
        }
        lemma_flatten_all(front, precedes_last);
        assert(parts =~= front.push(last));
        front.lemma_flatten_push(last);
        assert(parts.flatten() =~= front.flatten() + last);
        assert forall|j: int, k: int| 0 <= j < k < parts.flatten().len() implies before(
            #[trigger] parts.flatten()[j],
            #[trigger] parts.flatten()[k],
        ) by {
            let split = front.flatten().len() as int;
            if k < split {
                assert(parts.flatten()[j] == front.flatten()[j]);
                assert(parts.flatten()[k] == front.flatten()[k]);
            } else if j < split {
                assert(parts.flatten()[j] == front.flatten()[j]);
                assert(precedes_last(front.flatten()[j]));
                assert(parts.flatten()[k] == last[k - split]);
            } else {
                assert(last == parts[parts.len() - 1]);
                assert(parts.flatten()[j] == last[j - split]);
                assert(parts.flatten()[k] == last[k - split]);
            }
        }
    } else {
        assert(parts.flatten() =~= Seq::<A>::empty());
    }
}

/// The order of a plan: by variant, then by the field's position, then by
/// kind.
pub open spec fn precedes(earlier: AccessorSpecView, later: AccessorSpecView) -> bool {
    earlier.variant_index < later.variant_index || (earlier.variant_index == later.variant_index
        && (earlier.position < later.position || (earlier.position == later.position
        && kind_rank(earlier.kind) < kind_rank(later.kind))))
}

impl Layout {
    /// The accessors of a layout come field after field, and for one field
    /// in the order of the kinds.
    pub proof fn lemma_accessors_ordered(self)
        ensures
            forall|j: int, k: int|
                0 <= j < k < self.accessors().len() ==> precedes(
                    #[trigger] self.accessors()[j],
                    #[trigger] self.accessors()[k],
                ),
            forall|j: int|
                0 <= j < self.accessors().len() ==> (#[trigger] self.accessors()[j]).variant_index
                    == self.variant_index,
    {
        let parts = Seq::new(self.fields.len(), |i: int| self.field_accessors(i));
        assert forall|a: int, b: int| 0 <= a < parts.len() && 0 <= b < parts[a].len() implies (
        #[trigger] parts[a][b]).variant_index == self.variant_index && parts[a][b].position
            == a by {
            self.lemma_field_ranked(a, b);
        }
        assert forall|a: int, b: int, c: int|
            0 <= a < parts.len() && 0 <= b < c < parts[a].len() implies precedes(
            #[trigger] parts[a][b],
            #[trigger] parts[a][c],
        ) by {
            self.lemma_field_ranked(a, b);
            self.lemma_field_ranked(a, c);
        }
        lemma_flatten_ordered(parts, |x: AccessorSpecView, y: AccessorSpecView| precedes(x, y));
        lemma_flatten_all(parts, |x: AccessorSpecView| x.variant_index == self.variant_index);
    }

    /// The accessors of one field are in the order of the kinds.
    proof fn lemma_field_ranked(self, a: int, b: int)
        requires
            0 <= b < self.field_accessors(a).len(),
        ensures
            self.field_accessors(a)[b].variant_index == self.variant_index,
            self.field_accessors(a)[b].position == a as nat,
            forall|c: int|
                b < c < self.field_accessors(a).len() ==> kind_rank(self.field_accessors(a)[b].kind)
                    < kind_rank(#[trigger] self.field_accessors(a)[c].kind),
    {
        let r = self.of_kind(a, AccessorKind::Ref);
        let m = self.of_kind(a, AccessorKind::Mut);
        let c = self.of_kind(a, AccessorKind::Clone);
        let d = self.of_kind(a, AccessorKind::Deref);
        let part = self.field_accessors(a);
        assert(part == r + m + c + d);
        assert forall|x: int| 0 <= x < part.len() implies (#[trigger] part[x]).kind == (if x
            < r.len() {
            AccessorKind::Ref
        } else if x < r.len() + m.len() {
            AccessorKind::Mut
        } else if x < r.len() + m.len() + c.len() {
            AccessorKind::Clone
        } else {
            AccessorKind::Deref
        }) && part[x].variant_index == self.variant_index && part[x].position == a as nat by {
            if x < r.len() {
                assert(part[x] == self.accessor(a, AccessorKind::Ref));
            } else if x < r.len() + m.len() {
                assert(part[x] == self.accessor(a, AccessorKind::Mut));
            } else if x < r.len() + m.len() + c.len() {
                assert(part[x] == self.accessor(a, AccessorKind::Clone));
            } else {
                assert(part[x] == self.accessor(a, AccessorKind::Deref));
            }
        }
    }
}

impl DeclarationView {
    /// A plan is in order: its accessors come variant after variant, within
    /// a variant field after field, and for one field in the order
    /// reference, mutable reference, clone, copy.
    pub proof fn lemma_plan_ordered(self)
        ensures
            forall|j: int, k: int|
                0 <= j < k < self.plan().len() ==> precedes(
                    #[trigger] self.plan()[j],
                    #[trigger] self.plan()[k],
                ),
    {
        if self.shape.spec_is_struct_like() {
            self.struct_layout().lemma_accessors_ordered();
        } else {
            let parts = Seq::new(self.variants.len(), |v: int| self.variant_layout(v).accessors());
            assert forall|a: int, b: int, c: int|
                0 <= a < parts.len() && 0 <= b < c < parts[a].len() implies precedes(
                #[trigger] parts[a][b],
                #[trigger] parts[a][c],
            ) by {
                self.variant_layout(a).lemma_accessors_ordered();
            }
            assert forall|a: int, b: int, c: int, d: int|
                0 <= a < c < parts.len() && 0 <= b < parts[a].len() && 0 <= d
                    < parts[c].len() implies precedes(
                #[trigger] parts[a][b],
                #[trigger] parts[c][d],
            ) by {
                self.variant_layout(a).lemma_accessors_ordered();
                self.variant_layout(c).lemma_accessors_ordered();
                assert(parts[a][b].variant_index == a);
                assert(parts[c][d].variant_index == c);
            }
            lemma_flatten_ordered(parts, |x: AccessorSpecView, y: AccessorSpecView| precedes(x, y));
        }
    }
}

impl Layout {
    /// The accessors of one field name the same place whatever their kind:
    /// the same member of `self`, or the same binding of the same variant of
    /// the same type, with the same type of value.
    pub proof fn lemma_kinds_share_the_field(self, i: int, one: AccessorKind, other: AccessorKind)
        requires
            0 <= i < self.fields.len(),
        ensures
            member(self.accessor(i, one)) == member(self.accessor(i, other)),
            binding(self.accessor(i, one)) == binding(self.accessor(i, other)),
            self.accessor(i, one).owning_type == self.accessor(i, other).owning_type,
            self.accessor(i, one).owning_variant == self.accessor(i, other).owning_variant,
            self.accessor(i, one).value_type == self.accessor(i, other).value_type,
    {
    }
}

} // verus!
