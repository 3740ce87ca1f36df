//! From a declaration to the `impl` block that holds its accessors.

use crate::accessor::{AccessorSpec, AccessorSpecView};
use crate::declaration::{Declaration, DeclarationView};
use crate::error::GettersError;
use crate::render::rendered;
use vstd::prelude::*;
use vstd::string::*;

verus! {

/// The texts of the first `n` accessors, one after the other.
pub open spec fn rendered_upto(specs: Seq<AccessorSpecView>, n: int) -> Seq<char>
    decreases n,
{
    if n <= 0 {
        Seq::empty()
    } else {
        rendered_upto(specs, n - 1) + rendered(specs[n - 1])
    }
}

/// The texts of all accessors, one after the other.
pub open spec fn rendered_all(specs: Seq<AccessorSpecView>) -> Seq<char> {
    rendered_upto(specs, specs.len() as int)
}

impl DeclarationView {
    /// The line that opens the `impl` block.
    pub open spec fn header(self) -> Seq<char> {
        "impl"@ + self.generics.impl_generics + " "@ + self.name + self.generics.type_generics + (
        if self.generics.where_clause.len() > 0 {
            " "@ + self.generics.where_clause
        } else {
            Seq::empty()
        }) + " {\n"@
    }

    /// The `impl` block with the accessors of the plan.
    pub open spec fn expansion(self) -> Seq<char> {
        self.header() + rendered_all(self.plan()) + "}\n"@
    }

    /// What expanding the declaration gives: the `impl` block, or the
    /// reason for which there is none.
    pub open spec fn expanded(self) -> Result<Seq<char>, GettersError> {
        match self.error() {
            Some(e) => Err(e),
            None => Ok(self.expansion()),
        }
    }
}

/// What a call of [`Declaration::expand`] may return for a declaration.
pub open spec fn expands_to(decl: DeclarationView, out: Result<String, GettersError>) -> bool {
    match out {
        Ok(text) => decl.expanded() == Ok::<Seq<char>, GettersError>(text@),
        Err(e) => decl.expanded() == Err::<Seq<char>, GettersError>(e),
    }
}

/// Writes the accessors down, one after the other.
pub fn render_all(specs: &Vec<AccessorSpec>) -> (text: String)
    requires
        forall|j: int| 0 <= j < specs.len() ==> (#[trigger] specs.deep_view()[j]).well_formed(),
    ensures
        text@ == rendered_all(specs.deep_view()),
{
    let mut text = String::new();
    let n: usize = specs.len();
    let mut j: usize = 0;
    while j < n
        invariant
            j <= n,
            n == specs.len(),
            forall|k: int| 0 <= k < specs.len() ==> (#[trigger] specs.deep_view()[k]).well_formed(),
            text@ == rendered_upto(specs.deep_view(), j as int),
        decreases n - j,
    {
        assert(specs.deep_view()[j as int] == specs[j as int]@);
        specs[j].render_into(&mut text);
        j = j + 1;
    }
    text
}

impl Declaration {
    /// Appends the line that opens the `impl` block.
    fn push_header(&self, text: &mut String)
        ensures
            final(text)@ == old(text)@ + self@.header(),
    {
        text.append("impl");
        text.append(self.generics.impl_generics.as_str());
        text.append(" ");
        text.append(self.name.as_str());
        text.append(self.generics.type_generics.as_str());
        if !self.generics.where_clause.as_str().is_empty() {
            text.append(" ");
            text.append(self.generics.where_clause.as_str());
        }
        text.append(" {\n");
        assert(text@ =~= old(text)@ + self@.header());
    }

    /// Generates the accessors of the declaration: plans them, writes each
    /// of them down, and puts them into an `impl` block for the type.
    ///
    /// Fails exactly when planning fails, and with the same error: there is
    /// no partial output.
    pub fn expand(&self) -> (out: Result<String, GettersError>)
        ensures
            expands_to(self@, out),
    {
        let specs = match self.plan() {
            Ok(specs) => specs,
            Err(e) => {
                return Err(e);
            },
        };
        proof {
            self@.lemma_plan_well_formed();
        }
        let methods = render_all(&specs);
        let mut text = String::new();
        self.push_header(&mut text);
        text.append(methods.as_str());
        text.append("}\n");
        assert(text@ =~= self@.expansion());
        Ok(text)
    }
}

/// Generation is a function of the declaration alone: whatever two runs on
/// declarations of the same value return, they return the same, be it the
/// same text or the same error.
pub proof fn lemma_expand_deterministic(
    first: Declaration,
    second: Declaration,
    out_first: Result<String, GettersError>,
    out_second: Result<String, GettersError>,
)
    requires
        first@ == second@,
        expands_to(first@, out_first),
        expands_to(second@, out_second),
    ensures
        out_first is Ok <==> out_second is Ok,
        out_first is Ok ==> out_first->Ok_0@ == out_second->Ok_0@,
        out_first is Err ==> out_first->Err_0 == out_second->Err_0,
{
}

/// Planning and rendering are functions of their input alone: two plans of
/// declarations of the same value list the same accessors, and the texts of
/// the accessors in the same place are the same.
pub proof fn lemma_plan_then_render_deterministic(
    first: Declaration,
    second: Declaration,
    plan_first: Vec<AccessorSpec>,
    plan_second: Vec<AccessorSpec>,
    j: int,
    text_first: String,
    text_second: String,
)
    requires
        first@ == second@,
        plan_first.deep_view() == first@.plan(),
        plan_second.deep_view() == second@.plan(),
        0 <= j < plan_first.len(),
        text_first@ == rendered(plan_first[j]@),
        text_second@ == rendered(plan_second[j]@),
    ensures
        plan_first.len() == plan_second.len(),
        plan_first.deep_view() == plan_second.deep_view(),
        text_first@ == text_second@,
{
    assert(plan_first.deep_view().len() == plan_second.deep_view().len());
    assert(plan_first.deep_view()[j] == plan_first[j]@);
    assert(plan_second.deep_view()[j] == plan_second[j]@);
}

} // verus!
