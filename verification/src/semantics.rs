use vstd::prelude::*;
use crate::value_object::{mixes_discriminant, SumVariantImpl};

verus! {

/// A runtime attribute value held by an instance of a generated domain
/// type.
#[derive(Debug)]
pub enum AttributeValue {
    /// An integral attribute.
    Int(i64),
    /// A textual attribute.
    Text(String),
    /// A boolean attribute.
    Flag(bool),
}

/// Whether two attribute values are equal: same kind, same content.
pub open spec fn attr_eq(a: AttributeValue, b: AttributeValue) -> bool {
    match (a, b) {
        (AttributeValue::Int(x), AttributeValue::Int(y)) => x == y,
        (AttributeValue::Text(x), AttributeValue::Text(y)) => x@ == y@,
        (AttributeValue::Flag(x), AttributeValue::Flag(y)) => x == y,
        _ => false,
    }
}

/// Whether two attribute lists are equal field by field.
pub open spec fn attrs_eq(a: Seq<AttributeValue>, b: Seq<AttributeValue>) -> bool {
    &&& a.len() == b.len()
    &&& forall|i: int| 0 <= i < a.len() ==> attr_eq(#[trigger] a[i], b[i])
}

/// Compares two attribute values.
pub fn attribute_equal(a: &AttributeValue, b: &AttributeValue) -> (r: bool)
    ensures
        r == attr_eq(*a, *b),
{
    match (a, b) {
        (AttributeValue::Int(x), AttributeValue::Int(y)) => *x == *y,
        (AttributeValue::Text(x), AttributeValue::Text(y)) => x.as_str().eq(y.as_str()),
        (AttributeValue::Flag(x), AttributeValue::Flag(y)) => *x == *y,
        _ => false,
    }
}

/// Rebuilds an attribute value from its content.
pub fn attribute_clone(a: &AttributeValue) -> (r: AttributeValue)
    ensures
        r == *a,
{
    match a {
        AttributeValue::Int(x) => AttributeValue::Int(*x),
        AttributeValue::Text(x) => AttributeValue::Text(x.clone()),
        AttributeValue::Flag(x) => AttributeValue::Flag(*x),
    }
}

fn attributes_equal(xs: &Vec<AttributeValue>, ys: &Vec<AttributeValue>) -> (r: bool)
    ensures
        r == attrs_eq(xs@, ys@),
{
    if xs.len() != ys.len() {
        return false;
    }
    let mut i: usize = 0;
    while i < xs.len()
        invariant
            xs@.len() == ys@.len(),
            i <= xs@.len(),
            forall|k: int| 0 <= k < i ==> attr_eq(#[trigger] xs@[k], ys@[k]),
        decreases xs@.len() - i,
    {
        if !attribute_equal(&xs[i], &ys[i]) {
            proof {
                assert(!attr_eq(xs@[i as int], ys@[i as int]));
            }
            return false;
        }
        i = i + 1;
    }
    true
}

fn attributes_clone(xs: &Vec<AttributeValue>) -> (r: Vec<AttributeValue>)
    ensures
        r@ == xs@,
{
    let mut out: Vec<AttributeValue> = Vec::new();
    let mut i: usize = 0;
    while i < xs.len()
        invariant
            i <= xs@.len(),
            out@ =~= xs@.take(i as int),
        decreases xs@.len() - i,
    {
        out.push(attribute_clone(&xs[i]));
        i = i + 1;
    }
    proof {
        assert(xs@.take(xs@.len() as int) =~= xs@);
    }
    out
}

/// An instance of a record generated as a Value Object: its field
/// values, in declaration order.
#[derive(Debug)]
pub struct ProductInstance {
    /// The field values, aligned with the declaration's field order.
    pub values: Vec<AttributeValue>,
}

/// The equality a product Value Object receives: two instances are
/// equal exactly when every field, marked or not, compares equal.
pub fn value_object_equal(a: &ProductInstance, b: &ProductInstance) -> (r: bool)
    ensures
        r == attrs_eq(a.values@, b.values@),
{
    attributes_equal(&a.values, &b.values)
}

/// The clone a product Value Object receives: every field is rebuilt
/// from its own clone.
pub fn value_object_clone(a: &ProductInstance) -> (r: ProductInstance)
    ensures
        r.values@ == a.values@,
{
    ProductInstance { values: attributes_clone(&a.values) }
}

/// An instance of a declaration generated as an Entity: the identity
/// field's value and every other field's value.
#[derive(Debug)]
pub struct EntityInstance {
    /// The identity field's value.
    pub identity: AttributeValue,
    /// The remaining fields' values; equality never consults them.
    pub attributes: Vec<AttributeValue>,
}

/// Whether two Entity instances are equal: their identities are, and
/// nothing else matters.
pub open spec fn entity_eq(a: EntityInstance, b: EntityInstance) -> bool {
    attr_eq(a.identity, b.identity)
}

/// The equality an Entity receives: defined solely by the identity
/// field, whatever the other fields hold.
pub fn entity_equal(a: &EntityInstance, b: &EntityInstance) -> (r: bool)
    ensures
        r == entity_eq(*a, *b),
{
    attribute_equal(&a.identity, &b.identity)
}

/// An instance of a tagged union generated as a Value Object: which
/// variant it is, and that variant's field values in order.
#[derive(Debug)]
pub struct SumInstance {
    /// The index of the variant the instance holds, in declaration
    /// order.
    pub variant: usize,
    /// The held variant's field values, in order; empty for a unit
    /// variant.
    pub values: Vec<AttributeValue>,
}

/// Whether two sum Value Object instances are equal: the same variant
/// with field-wise equal values; different variants are never equal.
pub open spec fn sum_eq(a: SumInstance, b: SumInstance) -> bool {
    &&& a.variant == b.variant
    &&& attrs_eq(a.values@, b.values@)
}

/// The equality a sum Value Object receives: values of the same variant
/// compare field by field, values of different variants are never
/// equal, whatever their fields hold.
pub fn sum_value_object_equal(a: &SumInstance, b: &SumInstance) -> (r: bool)
    ensures
        r == sum_eq(*a, *b),
{
    if a.variant != b.variant {
        return false;
    }
    attributes_equal(&a.values, &b.values)
}

/// The clone a sum Value Object receives: the same variant, each field
/// rebuilt from its own clone.
pub fn sum_value_object_clone(a: &SumInstance) -> (r: SumInstance)
    ensures
        r.variant == a.variant,
        r.values@ == a.values@,
{
    SumInstance { variant: a.variant, values: attributes_clone(&a.values) }
}

/// The multiplier of the hash mixing step.
pub const HASH_PRIME: u64 = 0x100000001b3;

/// The hash accumulator's starting value.
pub const HASH_BASIS: u64 = 0xcbf29ce484222325;

/// One mixing step of the hash: fold a word into the accumulator.
pub open spec fn mix(h: u64, v: u64) -> u64 {
    vstd::wrapping::u64_specs::wrapping_mul(h ^ v, HASH_PRIME)
}

/// The hash of a text's tail from position `i` on, starting from
/// accumulator `h`.
pub open spec fn text_hash_from(s: Seq<char>, i: int, h: u64) -> u64
    decreases s.len() - i,
{
    if i < 0 || i >= s.len() {
        h
    } else {
        text_hash_from(s, i + 1, mix(h, s[i] as u64))
    }
}

/// The hash of a text: every character folded in, in order.
pub open spec fn text_hash(s: Seq<char>) -> u64 {
    text_hash_from(s, 0, HASH_BASIS)
}

/// The hash word one attribute value feeds to the hasher.
pub open spec fn attr_code(v: AttributeValue) -> u64 {
    match v {
        AttributeValue::Int(x) => #[verifier::truncate] (x as u64),
        AttributeValue::Text(x) => text_hash(x@),
        AttributeValue::Flag(x) => if x {
            1u64
        } else {
            0u64
        },
    }
}

/// The hash words of an attribute list, in field order.
pub open spec fn codes_of(vs: Seq<AttributeValue>) -> Seq<u64> {
    Seq::new(vs.len(), |i: int| attr_code(vs[i]))
}

fn hash_text(s: &str) -> (r: u64)
    ensures
        r == text_hash(s@),
{
    let n = s.unicode_len();
    let mut h: u64 = HASH_BASIS;
    let mut i: usize = 0;
    while i < n
        invariant
            n == s@.len(),
            i <= n,
            text_hash_from(s@, i as int, h) == text_hash(s@),
        decreases n - i,
    {
        let c = s.get_char(i);
        h = (h ^ (c as u64)).wrapping_mul(HASH_PRIME);
        i = i + 1;
    }
    h
}

/// Computes the hash word of one attribute value.
pub fn attribute_code(v: &AttributeValue) -> (r: u64)
    ensures
        r == attr_code(*v),
{
    match v {
        AttributeValue::Int(x) => #[verifier::truncate] (*x as u64),
        AttributeValue::Text(x) => hash_text(x.as_str()),
        AttributeValue::Flag(x) => if *x {
            1
        } else {
            0
        },
    }
}

fn attribute_codes(vs: &Vec<AttributeValue>) -> (r: Vec<u64>)
    ensures
        r@ == codes_of(vs@),
{
    let mut out: Vec<u64> = Vec::new();
    let mut i: usize = 0;
    while i < vs.len()
        invariant
            i <= vs@.len(),
            out@.len() == i,
            forall|k: int| 0 <= k < i ==> out@[k] == attr_code(#[trigger] vs@[k]),
        decreases vs@.len() - i,
    {
        out.push(attribute_code(&vs[i]));
        i = i + 1;
    }
    proof {
        assert(out@ =~= codes_of(vs@));
    }
    out
}

/// The words a product Value Object's hash feeds to the hasher: every
/// field's hash word, in declaration order — the same field set and
/// order that equality ranges over.
pub fn value_object_hash_stream(a: &ProductInstance) -> (r: Vec<u64>)
    ensures
        r@ == codes_of(a.values@),
{
    attribute_codes(&a.values)
}

/// The words an Entity's hash feeds to the hasher: the identity field's
/// hash word alone.
pub fn entity_hash_stream(a: &EntityInstance) -> (r: Vec<u64>)
    ensures
        r@ == seq![attr_code(a.identity)],
{
    let mut out: Vec<u64> = Vec::new();
    out.push(attribute_code(&a.identity));
    proof {
        assert(out@ =~= seq![attr_code(a.identity)]);
    }
    out
}

/// The words one variant of a sum Value Object feeds to the hasher:
/// for a unit variant the discriminant alone; for a named or positional
/// variant the field values alone, with no discriminant mixed in.
pub open spec fn sum_stream(mixes: bool, variant: usize, values: Seq<AttributeValue>) -> Seq<
    u64,
> {
    if mixes {
        seq![variant as u64]
    } else {
        codes_of(values)
    }
}

/// The words a sum Value Object's hash feeds to the hasher for an
/// instance of the given generated variant.
pub fn sum_hash_stream(v: &SumVariantImpl, a: &SumInstance) -> (r: Vec<u64>)
    ensures
        r@ == sum_stream(mixes_discriminant(v.shape), a.variant, a.values@),
{
    match &v.shape {
        crate::value_object::VariantImplShape::Unit => {
            let mut out: Vec<u64> = Vec::new();
            out.push(a.variant as u64);
            proof {
                assert(out@ =~= seq![a.variant as u64]);
            }
            out
        },
        _ => attribute_codes(&a.values),
    }
}

/// Two instances of a product Value Object are equal exactly when every
/// field, whatever its role marker, compares equal.
pub proof fn lemma_value_object_equality_is_structural(a: ProductInstance, b: ProductInstance)
    ensures
        attrs_eq(a.values@, b.values@) <==> (a.values@.len() == b.values@.len() && forall|i: int|
            0 <= i < a.values@.len() ==> attr_eq(#[trigger] a.values@[i], b.values@[i])),
{
}

/// Equal product Value Objects hash alike: equality over every field
/// forces the hash words, fed in the same field order, to coincide.
pub proof fn lemma_value_object_equal_hash(a: ProductInstance, b: ProductInstance)
    requires
        attrs_eq(a.values@, b.values@),
    ensures
        codes_of(a.values@) == codes_of(b.values@),
{
    assert forall|i: int| 0 <= i < a.values@.len() implies attr_code(a.values@[i]) == attr_code(
        b.values@[i],
    ) by {
        assert(attr_eq(a.values@[i], b.values@[i]));
    }
    assert(codes_of(a.values@) =~= codes_of(b.values@));
}

/// Entity equality is defined by the identity alone: replacing every
/// other attribute of both operands leaves the verdict unchanged.
pub proof fn lemma_entity_equality_ignores_attributes(
    a: EntityInstance,
    b: EntityInstance,
    a2: EntityInstance,
    b2: EntityInstance,
)
    requires
        a2.identity == a.identity,
        b2.identity == b.identity,
    ensures
        entity_eq(a2, b2) == entity_eq(a, b),
{
}

/// Instances of different variants of a sum Value Object are never
/// equal, even when their field values coincide.
pub proof fn lemma_sum_different_variants_never_equal(a: SumInstance, b: SumInstance)
    requires
        a.variant != b.variant,
    ensures
        !sum_eq(a, b),
{
}

/// A data variant's hash words omit the discriminant: two instances of
/// different data variants with field-wise equal values feed the hasher
/// identical words, although they never compare equal. Hashing stays
/// consistent with equality — equal values hash alike — but distinct
/// hashes across variants are not guaranteed.
pub proof fn lemma_data_variant_hash_ignores_discriminant(a: SumInstance, b: SumInstance)
    requires
        attrs_eq(a.values@, b.values@),
    ensures
        sum_stream(false, a.variant, a.values@) == sum_stream(false, b.variant, b.values@),
{
    assert forall|i: int| 0 <= i < a.values@.len() implies attr_code(a.values@[i]) == attr_code(
        b.values@[i],
    ) by {
        assert(attr_eq(a.values@[i], b.values@[i]));
    }
    assert(codes_of(a.values@) =~= codes_of(b.values@));
}

/// Equal sum Value Objects hash alike, whichever way the variant's
/// shape mixes the discriminant.
pub proof fn lemma_sum_equal_hash(mixes: bool, a: SumInstance, b: SumInstance)
    requires
        sum_eq(a, b),
    ensures
        sum_stream(mixes, a.variant, a.values@) == sum_stream(mixes, b.variant, b.values@),
{
    if !mixes {
        assert forall|i: int| 0 <= i < a.values@.len() implies attr_code(a.values@[i])
            == attr_code(b.values@[i]) by {
            assert(attr_eq(a.values@[i], b.values@[i]));
        }
        assert(codes_of(a.values@) =~= codes_of(b.values@));
    }
}

} // verus!
