//! Runtime key access: `keys()`, `get_str()` and `has_key()`.

use vstd::prelude::*;

use crate::expand::{lemma_select_all, lemma_select_step, select};
use crate::field::{FieldGenerator, TypeModel};
use crate::text::cat;

verus! {

/// How `get_str` renders a field's value.
#[derive(PartialEq, Eq, Structural, Clone, Copy)]
pub enum GetStrKind {
    /// `"<redacted>"`.
    Redacted,
    /// The inner value's `to_string()`, `None` when absent.
    OptionalDisplay,
    /// The value's `to_string()`.
    Display,
}

/// A direct key of `get_str`.
pub struct GetStrArm {
    pub key: String,
    pub kind: GetStrKind,
}

/// A flattened field whose keys are reached as `<name>.<key>`.
pub struct NestedAccess {
    /// The field's name.
    pub name: String,
    /// `<name>.`, the prefix of its keys.
    pub prefix: String,
    /// The nested struct's type.
    pub ty: TypeModel,
}

/// The runtime access methods of a struct.
pub struct RuntimeAccess {
    /// The struct's own keys, in field order.
    pub keys: Vec<String>,
    /// How each own key is rendered.
    pub get_str_arms: Vec<GetStrArm>,
    /// The flattened fields, whose keys are delegated.
    pub nested: Vec<NestedAccess>,
}

/// A field that is a key: neither flattened nor deserialized by format
/// (such values need not implement `Display`).
pub open spec fn is_key_field() -> spec_fn(FieldGenerator) -> bool {
    |g: FieldGenerator| !(g is Flatten) && g.spec_format() is None
}

/// A flattened field.
pub open spec fn is_flatten_field() -> spec_fn(FieldGenerator) -> bool {
    |g: FieldGenerator| g is Flatten
}

/// How `get_str` renders field `g`: secret fields are redacted, optional
/// fields are shown when present.
pub open spec fn get_str_kind(g: FieldGenerator) -> GetStrKind {
    if g.spec_is_secret() {
        GetStrKind::Redacted
    } else if g is Optional {
        GetStrKind::OptionalDisplay
    } else {
        GetStrKind::Display
    }
}

/// `r` is the runtime access methods of a struct with fields `gs`: the own
/// keys (neither flattened nor deserialized by format) and how each is
/// rendered, and the flattened fields whose keys are delegated.
pub open spec fn runtime_access_of(r: RuntimeAccess, gs: Seq<FieldGenerator>) -> bool {
    let ks = select(gs, is_key_field());
    let ns = select(gs, is_flatten_field());
    &&& r.keys@.len() == ks.len()
    &&& r.get_str_arms@.len() == ks.len()
    &&& forall|i: int|
        0 <= i < ks.len() ==> #[trigger] r.keys@[i] == ks[i].spec_name() && r.get_str_arms@[i].key
            == ks[i].spec_name() && r.get_str_arms@[i].kind == get_str_kind(ks[i])
    &&& r.nested@.len() == ns.len()
    &&& forall|i: int|
        0 <= i < ns.len() ==> (#[trigger] r.nested@[i]).name == ns[i].spec_name()
            && r.nested@[i].prefix@ == ns[i].spec_name()@ + "."@ && Some(r.nested@[i].ty)
            == ns[i].spec_field_type()
}

/// The runtime access methods of a struct with fields `generators`.
pub fn generate_runtime_access_impl(generators: &Vec<FieldGenerator>) -> (r: RuntimeAccess)
    ensures
        runtime_access_of(r, generators@),
{
    let ghost kp = is_key_field();
    let ghost np = is_flatten_field();
    let mut keys: Vec<String> = Vec::new();
    let mut arms: Vec<GetStrArm> = Vec::new();
    let mut nested: Vec<NestedAccess> = Vec::new();
    let mut i: usize = 0;
    while i < generators.len()
        invariant
            i <= generators.len(),
            kp == is_key_field(),
            np == is_flatten_field(),
            keys@.len() == select(generators@.take(i as int), kp).len(),
            arms@.len() == keys@.len(),
            forall|j: int|
                0 <= j < keys@.len() ==> #[trigger] keys@[j] == select(
                    generators@.take(i as int),
                    kp,
                )[j].spec_name(),
            forall|j: int| 0 <= j < arms@.len() ==> #[trigger] arms@[j].key == keys@[j],
            forall|j: int|
                0 <= j < arms@.len() ==> #[trigger] arms@[j].kind == get_str_kind(
                    select(generators@.take(i as int), kp)[j],
                ),
            nested@.len() == select(generators@.take(i as int), np).len(),
            forall|j: int|
                0 <= j < nested@.len() ==> (#[trigger] nested@[j]).name == select(
                    generators@.take(i as int),
                    np,
                )[j].spec_name() && nested@[j].prefix@ == nested@[j].name@ + "."@ && Some(
                    nested@[j].ty,
                ) == select(generators@.take(i as int), np)[j].spec_field_type(),
        decreases generators.len() - i,
    {
        proof {
            lemma_select_step(generators@, kp, i as int);
            lemma_select_step(generators@, np, i as int);
        }
        let g = &generators[i];
        let ghost old_keys = keys@;
        let ghost old_arms = arms@;
        let ghost prev = select(generators@.take(i as int), kp);
        let ghost next = select(generators@.take(i + 1), kp);
        if !g.is_flatten() && g.format_config().is_none() {
            let kind = if g.is_secret() {
                GetStrKind::Redacted
            } else if g.is_optional() {
                GetStrKind::OptionalDisplay
            } else {
                GetStrKind::Display
            };
            keys.push(g.name().clone());
            arms.push(GetStrArm { key: g.name().clone(), kind });
            proof {
                assert(kp(*g));
                assert(next == prev.push(*g));
                assert forall|j: int| 0 <= j < arms@.len() implies #[trigger] arms@[j].kind
                    == get_str_kind(next[j]) by {
                    if j < old_arms.len() {
                        assert(arms@[j] == old_arms[j]);
                        assert(next[j] == prev[j]);
                    }
                }
                assert forall|j: int| 0 <= j < keys@.len() implies #[trigger] keys@[j]
                    == next[j].spec_name() by {
                    if j < old_keys.len() {
                        assert(keys@[j] == old_keys[j]);
                        assert(next[j] == prev[j]);
                    }
                }
            }
        } else {
            proof {
                assert(!kp(*g));
                assert(next == prev);
            }
        }
        if let FieldGenerator::Flatten(x) = g {
            nested.push(
                NestedAccess {
                    name: x.name.clone(),
                    prefix: cat(x.name.as_str(), "."),
                    ty: x.ty.copy(),
                },
            );
        }
        i = i + 1;
    }
    proof {
        lemma_select_all(generators@, kp);
        lemma_select_all(generators@, np);
    }
    RuntimeAccess { keys, get_str_arms: arms, nested }
}

/// A secret field's value is never handed out by `get_str`.
pub proof fn law_get_str_redacts_secrets(g: FieldGenerator)
    requires
        g.spec_is_secret(),
    ensures
        get_str_kind(g) == GetStrKind::Redacted,
{
}

/// `get_str` redacts exactly the secret keys: every other key shows its
/// value, an optional field's only when present.
pub proof fn law_get_str_redacts_exactly_secrets(r: RuntimeAccess, gs: Seq<FieldGenerator>, i: int)
    requires
        runtime_access_of(r, gs),
        0 <= i < r.get_str_arms@.len(),
    ensures
        ({
            let g = select(gs, is_key_field())[i];
            &&& r.get_str_arms@[i].key == g.spec_name()
            &&& r.get_str_arms@[i].kind == GetStrKind::Redacted <==> g.spec_is_secret()
            &&& r.get_str_arms@[i].kind == GetStrKind::OptionalDisplay <==> (!g.spec_is_secret()
                && g is Optional)
            &&& r.get_str_arms@[i].kind == GetStrKind::Display <==> (!g.spec_is_secret()
                && !(g is Optional))
        }),
{
    assert(r.keys@[i] == select(gs, is_key_field())[i].spec_name());
}

} // verus!
