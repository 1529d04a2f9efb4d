//! The `Debug` implementation: which fields show their value and which are
//! masked.

use vstd::prelude::*;

use crate::field::FieldGenerator;

verus! {

/// What `Debug` prints for a field.
#[derive(PartialEq, Eq, Structural, Clone, Copy)]
pub enum DebugValue {
    /// The field's own `Debug` output (secrecy types redact themselves).
    Field,
    /// The placeholder `***` (`redaction_placeholder`).
    Redacted,
}

/// What `Debug` prints in place of a secret field's value.
pub open spec fn redaction_text() -> Seq<char> {
    "***"@
}

/// What `Debug` prints in place of a secret field's value: `***`.
pub fn redaction_placeholder() -> (r: &'static str)
    ensures
        r@ == redaction_text(),
{
    "***"
}

/// One field of the generated `Debug` output.
pub struct DebugEntry {
    /// The field's name.
    pub name: String,
    /// What is printed for it.
    pub value: DebugValue,
}

/// What `Debug` prints for field `g`: its own output for a secrecy type,
/// the placeholder for another secret field, its value otherwise.
pub open spec fn debug_value(g: FieldGenerator) -> DebugValue {
    if g.spec_is_secrecy_type() {
        DebugValue::Field
    } else if g.spec_is_secret() {
        DebugValue::Redacted
    } else {
        DebugValue::Field
    }
}

/// `r` is the entries of the generated `Debug` output for the fields `gs`:
/// one per field, in order, with its name and what is printed for it.
pub open spec fn debug_entries_of(r: Seq<DebugEntry>, gs: Seq<FieldGenerator>) -> bool {
    &&& r.len() == gs.len()
    &&& forall|i: int|
        0 <= i < r.len() ==> (#[trigger] r[i]).name == gs[i].spec_name() && r[i].value
            == debug_value(gs[i])
}

/// The fields of the generated `Debug` implementation, in order.
pub fn generate_debug_impl(fields: &Vec<FieldGenerator>) -> (r: Vec<DebugEntry>)
    ensures
        debug_entries_of(r@, fields@),
{
    let mut r: Vec<DebugEntry> = Vec::new();
    let mut i: usize = 0;
    while i < fields.len()
        invariant
            i <= fields.len(),
            r@.len() == i,
            forall|j: int|
                0 <= j < i ==> (#[trigger] r@[j]).name == fields@[j].spec_name() && r@[j].value
                    == debug_value(fields@[j]),
        decreases fields.len() - i,
    {
        let f = &fields[i];
        let value = if f.is_secrecy_type() {
            DebugValue::Field
        } else if f.is_secret() {
            DebugValue::Redacted
        } else {
            DebugValue::Field
        };
        r.push(DebugEntry { name: f.name().clone(), value });
        i = i + 1;
    }
    r
}

/// A field marked `secret` never shows its value in `Debug` output: it is
/// masked, or its secrecy type redacts itself.
pub proof fn law_debug_never_shows_secrets(g: FieldGenerator)
    requires
        g.spec_is_secret(),
    ensures
        g.spec_is_secrecy_type() || debug_value(g) == DebugValue::Redacted,
{
}

/// `Debug` masks exactly the fields marked secret that are not of a
/// secrecy type: every other field, with or without a default, prints its
/// own output.
pub proof fn law_debug_masks_exactly_secrets(r: Seq<DebugEntry>, gs: Seq<FieldGenerator>, i: int)
    requires
        debug_entries_of(r, gs),
        0 <= i < gs.len(),
    ensures
        r[i].name == gs[i].spec_name(),
        r[i].value == DebugValue::Redacted <==> (gs[i].spec_is_secret()
            && !gs[i].spec_is_secrecy_type()),
        !gs[i].spec_is_secret() ==> r[i].value == DebugValue::Field,
{
    assert(r[i].value == debug_value(gs[i]));
}

} // verus!
