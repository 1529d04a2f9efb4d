//! The validating loaders: which fields have a custom validation function.

use vstd::prelude::*;

use crate::expand::{each_of, lemma_each_of_push, lemma_select_all, lemma_select_step, select};
use crate::field::FieldGenerator;

verus! {

/// A custom validation: `function(&config.field)`.
pub struct CustomValidation {
    /// The field's name.
    pub field: String,
    /// The validation function's name.
    pub function: String,
}

/// A field with a custom validation function.
pub open spec fn has_validator() -> spec_fn(FieldGenerator) -> bool {
    |g: FieldGenerator| g.spec_validate() is Some
}

/// `c` is the custom validation of field `g`.
pub open spec fn validation_of(c: CustomValidation, g: FieldGenerator) -> bool {
    c.field == g.spec_name() && Some(c.function) == g.spec_validate()
}

/// The relation of a field to its custom validation.
pub open spec fn validation_rel() -> spec_fn(CustomValidation, FieldGenerator) -> bool {
    |c: CustomValidation, g: FieldGenerator| validation_of(c, g)
}

/// `r` is the custom validations of the fields `gs`, in field order.
pub open spec fn validations_of(r: Seq<CustomValidation>, gs: Seq<FieldGenerator>) -> bool {
    each_of(r, select(gs, has_validator()), validation_rel())
}

/// The plan of `from_env_validated()` and `from_env_validated_with_sources()`:
/// load, run the struct's `Validate`, then these custom validations (in
/// field order); every failure is collected into one validation error.
pub fn generate_validated_impl(generators: &Vec<FieldGenerator>) -> (r: Vec<CustomValidation>)
    ensures
        validations_of(r@, generators@),
{
    let ghost p = has_validator();
    let mut r: Vec<CustomValidation> = Vec::new();
    let mut i: usize = 0;
    while i < generators.len()
        invariant
            i <= generators.len(),
            p == has_validator(),
            each_of(r@, select(generators@.take(i as int), p), validation_rel()),
        decreases generators.len() - i,
    {
        proof {
            lemma_select_step(generators@, p, i as int);
        }
        let g = &generators[i];
        if let Some(f) = g.validate_fn() {
            let c = CustomValidation { field: g.name().clone(), function: f.clone() };
            proof {
                lemma_each_of_push(r@, select(generators@.take(i as int), p), validation_rel(), c, *g);
            }
            r.push(c);
        }
        i = i + 1;
    }
    proof {
        lemma_select_all(generators@, p);
    }
    r
}

/// The plan of `from_config_validated()` and its `_with_sources` form: as
/// `from_env_validated()`, loading from files.
pub fn generate_from_config_validated_impl(generators: &Vec<FieldGenerator>) -> (r: Vec<
    CustomValidation,
>)
    ensures
        validations_of(r@, generators@),
{
    generate_validated_impl(generators)
}

} // verus!
