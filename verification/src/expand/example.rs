//! `env_example()`: the `.env.example` text of a struct.

use vstd::prelude::*;

use crate::field::{
    fragment_text, lemma_entry_ends_with_variable, variable_line, ExampleFragment, FieldGenerator,
};

verus! {

/// The first line of `env_example()`.
pub open spec fn example_header() -> Seq<char> {
    "# Auto-generated by procenv"@
}

/// The first line of `env_example()`.
pub fn env_example_header() -> (r: &'static str)
    ensures
        r@ == example_header(),
{
    "# Auto-generated by procenv"
}

/// `f` is field `g`'s part of the `.env.example` text: the nested struct's
/// entries for a flattened field, the field's own entry otherwise.
pub open spec fn fragment_of(f: ExampleFragment, g: FieldGenerator) -> bool {
    if g is Flatten {
        f == ExampleFragment::Nested(g.spec_field_type()->0)
    } else {
        f matches ExampleFragment::Text(t) && t@ == fragment_text(g)
    }
}

/// `r` is the parts of `env_example_entries()` for the fields `gs`: one per
/// field, in field order.
pub open spec fn fragments_of(r: Seq<ExampleFragment>, gs: Seq<FieldGenerator>) -> bool {
    &&& r.len() == gs.len()
    &&& forall|i: int| 0 <= i < r.len() ==> fragment_of(#[trigger] r[i], gs[i])
}

/// The parts of `env_example_entries()`, one per field, in field order;
/// the generated method joins them with newlines.
pub fn generate_env_example_impl(fields: &Vec<FieldGenerator>) -> (r: Vec<ExampleFragment>)
    ensures
        fragments_of(r@, fields@),
{
    let mut r: Vec<ExampleFragment> = Vec::new();
    let mut i: usize = 0;
    while i < fields.len()
        invariant
            i <= fields.len(),
            r@.len() == i,
            forall|j: int| 0 <= j < i ==> fragment_of(#[trigger] r@[j], fields@[j]),
        decreases fields.len() - i,
    {
        r.push(fields[i].generate_example_fragment());
        i = i + 1;
    }
    r
}

/// `.env.example` documents every variable: the part of each regular field
/// ends with the line of the variable it reads — `VAR=` for a required
/// one, `# VAR=default` for one with a default, `# VAR=` for an optional one.
pub proof fn law_env_example_lists_every_variable(
    frags: Seq<ExampleFragment>,
    gs: Seq<FieldGenerator>,
    i: int,
)
    requires
        fragments_of(frags, gs),
        0 <= i < gs.len(),
        !(gs[i] is Flatten),
    ensures
        frags[i] matches ExampleFragment::Text(t) && ({
            let line = variable_line(
                gs[i].spec_env_var()->0@,
                !(gs[i] is Default || gs[i] is Optional),
                gs[i].spec_default(),
            );
            &&& t@.len() >= line.len()
            &&& t@.subrange(t@.len() - line.len(), t@.len() as int) == line
        }),
{
    assert(fragment_of(frags[i], gs[i]));
    match gs[i] {
        FieldGenerator::Required(x) => lemma_entry_ends_with_variable(
            x.env_var@,
            x.doc,
            true,
            None,
            x.secret,
            x.ty.spec_type_name(),
        ),
        FieldGenerator::Default(x) => lemma_entry_ends_with_variable(
            x.env_var@,
            x.doc,
            false,
            Some(x.default),
            x.secret,
            x.ty.spec_type_name(),
        ),
        FieldGenerator::Optional(x) => lemma_entry_ends_with_variable(
            x.env_var@,
            x.doc,
            false,
            None,
            x.secret,
            "Option<"@ + x.inner_type.spec_type_name() + ">"@,
        ),
        FieldGenerator::SecretString(x) => lemma_entry_ends_with_variable(
            x.env_var@,
            x.doc,
            true,
            None,
            true,
            "SecretString"@,
        ),
        FieldGenerator::SecretBox(x) => lemma_entry_ends_with_variable(
            x.env_var@,
            x.doc,
            true,
            None,
            true,
            "SecretBox<"@ + x.inner_type.spec_type_name() + ">"@,
        ),
        FieldGenerator::Flatten(_) => {},
    }
}

} // verus!
