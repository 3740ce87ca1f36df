//! From a planned accessor to its text.
//!
//! There are two templates. A direct accessor, for a struct, reaches into
//! `self` and hands out the field. A guarded accessor, for an enum, matches
//! `self` against the variant that holds the field and hands out `Some` of
//! the field, or `None` where the value is of another variant. The text is
//! laid out as an item of an `impl` block, indented by four spaces.

use crate::accessor::{AccessorSpec, AccessorSpecView};
use crate::config::AccessorKind;
use crate::ordinal::{element_name, tuple_element_name, MAX_POSITIONAL_FIELDS};
use crate::text::{decimal, push_decimal};
use vstd::prelude::*;
use vstd::string::*;

verus! {

/// How a pattern binds an element of a tuple variant.
pub open spec fn binder(mutable: bool) -> Seq<char> {
    if mutable {
        "ref mut "@
    } else {
        "ref "@
    }
}

/// The inside of a tuple pattern that binds each of `count` elements to its
/// letter: `ref a, ref b, ref c`.
pub open spec fn elements(count: nat, mutable: bool) -> Seq<char>
    decreases count,
{
    if count == 0 {
        Seq::empty()
    } else if count == 1 {
        binder(mutable) + element_name(0)
    } else {
        elements((count - 1) as nat, mutable) + ", "@ + binder(mutable) + element_name(count - 1)
    }
}

/// The receiver of an accessor.
pub open spec fn receiver(kind: AccessorKind) -> Seq<char> {
    match kind {
        AccessorKind::Mut => "&mut self"@,
        _ => "&self"@,
    }
}

/// What an accessor of `kind` hands out for a field of type `value_type`,
/// before any wrapping.
pub open spec fn handed_out(kind: AccessorKind, value_type: Seq<char>) -> Seq<char> {
    match kind {
        AccessorKind::Ref => "&"@ + value_type,
        AccessorKind::Mut => "&mut "@ + value_type,
        AccessorKind::Clone => value_type,
        AccessorKind::Deref => value_type,
    }
}

/// The return type of an accessor: wrapped in `Option` if and only if the
/// accessor is guarded.
pub open spec fn return_type(spec: AccessorSpecView) -> Seq<char> {
    if spec.guarded {
        "Option<"@ + handed_out(spec.kind, spec.value_type) + ">"@
    } else {
        handed_out(spec.kind, spec.value_type)
    }
}

/// How a direct accessor names the field after `self.`: by its name, or by
/// its position in decimal.
pub open spec fn member(spec: AccessorSpecView) -> Seq<char> {
    match spec.field_name {
        Some(name) => name,
        None => decimal(spec.position),
    }
}

/// The expression that a direct accessor evaluates to.
pub open spec fn direct_value(spec: AccessorSpecView) -> Seq<char> {
    match spec.kind {
        AccessorKind::Ref => "&self."@ + member(spec),
        AccessorKind::Mut => "&mut self."@ + member(spec),
        AccessorKind::Clone => "self."@ + member(spec) + ".clone()"@,
        AccessorKind::Deref => "self."@ + member(spec),
    }
}

/// The name under which a guarded accessor has the field after its match.
pub open spec fn binding(spec: AccessorSpecView) -> Seq<char> {
    match spec.field_name {
        Some(name) => name,
        None => element_name(spec.position as int),
    }
}

/// The pattern that a guarded accessor matches `self` against.
pub open spec fn pattern(spec: AccessorSpecView) -> Seq<char> {
    match spec.field_name {
        Some(name) => spec.owning_type + "::"@ + spec.owning_variant + " { "@ + (if spec.kind
            is Mut {
            "ref mut "@
        } else {
            Seq::empty()
        }) + name + ", .. }"@,
        None => spec.owning_type + "::"@ + spec.owning_variant + "("@ + elements(
            spec.field_count,
            spec.kind is Mut,
        ) + ")"@,
    }
}

/// What a guarded accessor wraps in `Some`.
pub open spec fn guarded_value(spec: AccessorSpecView) -> Seq<char> {
    match spec.kind {
        AccessorKind::Ref => binding(spec),
        AccessorKind::Mut => binding(spec),
        AccessorKind::Clone => binding(spec) + ".clone()"@,
        AccessorKind::Deref => "*"@ + binding(spec),
    }
}

/// The body of an accessor, between its braces.
pub open spec fn body(spec: AccessorSpecView) -> Seq<char> {
    if spec.guarded {
        "        if let "@ + pattern(spec) + " = self {\n            Some("@ + guarded_value(spec)
            + ")\n        } else {\n            None\n        }\n"@
    } else {
        "        "@ + direct_value(spec) + "\n"@
    }
}

/// The first lines of an accessor, up to and with the opening brace.
pub open spec fn signature(spec: AccessorSpecView) -> Seq<char> {
    "    #[inline(always)]\n    pub fn "@ + spec.method_name + "("@ + receiver(spec.kind)
        + ") -> "@ + return_type(spec) + " {\n"@
}

/// The text of an accessor.
pub open spec fn rendered(spec: AccessorSpecView) -> Seq<char> {
    signature(spec) + body(spec) + "    }\n"@
}

/// The inside of a tuple pattern that binds each of `max` elements by
/// reference: `ref a, ref b, ref c`.
pub fn tuple_elements(max: usize) -> (text: String)
    requires
        max <= MAX_POSITIONAL_FIELDS,
    ensures
        text@ == elements(max as nat, false),
{
    bound_elements(max, false)
}

/// The inside of a tuple pattern that binds each of `max` elements by
/// mutable reference: `ref mut a, ref mut b, ref mut c`.
pub fn tuple_elements_mut(max: usize) -> (text: String)
    requires
        max <= MAX_POSITIONAL_FIELDS,
    ensures
        text@ == elements(max as nat, true),
{
    bound_elements(max, true)
}

/// The inside of a tuple pattern over `max` elements.
fn bound_elements(max: usize, mutable: bool) -> (text: String)
    requires
        max <= MAX_POSITIONAL_FIELDS,
    ensures
        text@ == elements(max as nat, mutable),
{
    let mut text = String::new();
    let mut i: usize = 0;
    while i < max
        invariant
            i <= max <= MAX_POSITIONAL_FIELDS,
            text@ == elements(i as nat, mutable),
        decreases max - i,
    {
        let ghost before = text@;
        if i > 0 {
            text.append(", ");
        }
        if mutable {
            text.append("ref mut ");
        } else {
            text.append("ref ");
        }
        text.append(tuple_element_name(i));
        proof {
            if i == 0 {
                assert(text@ =~= binder(mutable) + element_name(0));
            } else {
                assert(text@ =~= before + ", "@ + binder(mutable) + element_name(i as int));
            }
        }
        i = i + 1;
    }
    text
}

impl AccessorSpec {
    /// Appends what the accessor hands out, before any wrapping.
    fn push_handed_out(&self, text: &mut String)
        ensures
            final(text)@ == old(text)@ + handed_out(self@.kind, self@.value_type),
    {
        match self.kind {
            AccessorKind::Ref => {
                text.append("&");
            },
            AccessorKind::Mut => {
                text.append("&mut ");
            },
            _ => {},
        }
        text.append(self.value_type.as_str());
        assert(text@ =~= old(text)@ + handed_out(self@.kind, self@.value_type));
    }

    /// Appends the signature.
    fn push_signature(&self, text: &mut String)
        ensures
            final(text)@ == old(text)@ + signature(self@),
    {
        text.append("    #[inline(always)]\n    pub fn ");
        text.append(self.method_name.as_str());
        text.append("(");
        match self.kind {
            AccessorKind::Mut => {
                text.append("&mut self");
            },
            _ => {
                text.append("&self");
            },
        }
        text.append(") -> ");
        if self.guarded {
            text.append("Option<");
            self.push_handed_out(text);
            text.append(">");
        } else {
            self.push_handed_out(text);
        }
        text.append(" {\n");
        assert(text@ =~= old(text)@ + signature(self@));
    }

    /// Appends the body of a direct accessor.
    fn push_direct(&self, text: &mut String)
        requires
            !self.guarded,
        ensures
            final(text)@ == old(text)@ + body(self@),
    {
        text.append("        ");
        match self.kind {
            AccessorKind::Ref => {
                text.append("&self.");
            },
            AccessorKind::Mut => {
                text.append("&mut self.");
            },
            _ => {
                text.append("self.");
            },
        }
        match &self.field_name {
            Some(name) => {
                text.append(name.as_str());
            },
            None => {
                push_decimal(text, self.position);
            },
        }
        match self.kind {
            AccessorKind::Clone => {
                text.append(".clone()");
            },
            _ => {},
        }
        text.append("\n");
        assert(text@ =~= old(text)@ + body(self@));
    }

    /// Appends the pattern of a guarded accessor.
    fn push_pattern(&self, text: &mut String)
        requires
            self@.well_formed(),
            self.guarded,
        ensures
            final(text)@ == old(text)@ + pattern(self@),
    {
        text.append(self.owning_type.as_str());
        text.append("::");
        text.append(self.owning_variant.as_str());
        match &self.field_name {
            Some(name) => {
                text.append(" { ");
                match self.kind {
                    AccessorKind::Mut => {
                        text.append("ref mut ");
                    },
                    _ => {},
                }
                text.append(name.as_str());
                text.append(", .. }");
            },
            None => {
                text.append("(");
                let inside = match self.kind {
                    AccessorKind::Mut => tuple_elements_mut(self.field_count),
                    _ => tuple_elements(self.field_count),
                };
                text.append(inside.as_str());
                text.append(")");
            },
        }
        assert(text@ =~= old(text)@ + pattern(self@));
    }

    /// Appends the body of a guarded accessor.
    fn push_guarded(&self, text: &mut String)
        requires
            self@.well_formed(),
            self.guarded,
        ensures
            final(text)@ == old(text)@ + body(self@),
    {
        text.append("        if let ");
        self.push_pattern(text);
        text.append(" = self {\n            Some(");
        match self.kind {
            AccessorKind::Deref => {
                text.append("*");
            },
            _ => {},
        }
        match &self.field_name {
            Some(name) => {
                text.append(name.as_str());
            },
            None => {
                text.append(tuple_element_name(self.position));
            },
        }
        match self.kind {
            AccessorKind::Clone => {
                text.append(".clone()");
            },
            _ => {},
        }
        text.append(")\n        } else {\n            None\n        }\n");
        assert(text@ =~= old(text)@ + body(self@));
    }

    /// Appends the text of the accessor.
    pub fn render_into(&self, text: &mut String)
        requires
            self@.well_formed(),
        ensures
            final(text)@ == old(text)@ + rendered(self@),
    {
        self.push_signature(text);
        if self.guarded {
            self.push_guarded(text);
        } else {
            self.push_direct(text);
        }
        text.append("    }\n");
        assert(text@ =~= old(text)@ + rendered(self@));
    }

    /// Writes the accessor down as a method of an `impl` block.
    ///
    /// A direct accessor reaches into `self`: `&self.x`, `&mut self.x`,
    /// `self.x.clone()` or `self.x`, with the position in place of the name
    /// for a positional field. A guarded accessor returns an `Option`: it
    /// matches `self` against the owning variant and hands out `Some` of
    /// the field, and `None` where the match fails.
    pub fn render(&self) -> (text: String)
        requires
            self@.well_formed(),
        ensures
            text@ == rendered(self@),
    {
        let mut text = String::new();
        self.render_into(&mut text);
        assert(text@ =~= rendered(self@));
        text
    }
}

} // verus!
