use vstd::prelude::*;
use crate::accessor::{accessors_of, generate_fields, Accessor};
use crate::declaration::{DeclBody, FieldDecl, TypeDeclaration, VariantDecl, VariantShape};

verus! {

/// Whether `ns` lists exactly the names of `fs`, in order.
pub open spec fn names_match(ns: Seq<String>, fs: Seq<FieldDecl>) -> bool {
    &&& ns.len() == fs.len()
    &&& forall|i: int| 0 <= i < fs.len() ==> ns[i]@ == fs[i].name@
}

/// The conformance generated for a record treated as a Value Object:
/// equality compares, hashing mixes, and cloning rebuilds every field,
/// in declaration order and independent of any role marking; read
/// accessors are synthesized for the exposed fields alone.
#[derive(Debug)]
pub struct ProductValueObjectImpl {
    /// The declared type the conformance is for.
    pub declared_name: String,
    /// Every field of the record, in declaration order: the fields that
    /// equality, hashing and cloning all range over.
    pub value_fields: Vec<String>,
    /// The read accessors for the exposed fields.
    pub accessors: Vec<Accessor>,
}

/// How one variant of a sum Value Object is cloned, compared and hashed.
#[derive(Debug)]
pub enum VariantImplShape {
    /// A variant with named fields: cloning rebuilds each listed field,
    /// equality between two values of this same variant binds each
    /// side's fields to fresh names and compares them pairwise, and
    /// hashing mixes the listed fields in order.
    Named(Vec<String>),
    /// A variant with this many positional slots, handled like a named
    /// variant with positional placeholders.
    Positional(usize),
    /// A variant without fields: cloning yields the variant itself, two
    /// values of the same unit variant are always equal, and hashing
    /// mixes the variant's discriminant.
    Unit,
}

/// Whether hashing a variant of this shape mixes the discriminant in:
/// only unit variants do, so two differently-named data variants with
/// identical field values may hash alike even though they never compare
/// equal.
pub open spec fn mixes_discriminant(s: VariantImplShape) -> bool {
    s is Unit
}

/// The conformance generated for one variant of a sum Value Object.
#[derive(Debug)]
pub struct SumVariantImpl {
    /// The variant's name.
    pub name: String,
    /// How the variant is cloned, compared and hashed.
    pub shape: VariantImplShape,
}

/// Whether `vi` is the conformance owed to the declared variant `vd`.
pub open spec fn variant_impl_matches(vi: SumVariantImpl, vd: VariantDecl) -> bool {
    &&& vi.name@ == vd.name@
    &&& match vd.shape {
        VariantShape::Named(fs) => vi.shape matches VariantImplShape::Named(ns) && names_match(
            ns@,
            fs@,
        ),
        VariantShape::Positional(ts) => vi.shape matches VariantImplShape::Positional(n) && n
            == ts@.len(),
        VariantShape::Unit => vi.shape is Unit,
    }
}

/// The conformance generated for a tagged union treated as a Value
/// Object: one clause per variant; two values of different variants are
/// never equal, whatever their field values.
#[derive(Debug)]
pub struct SumValueObjectImpl {
    /// The declared type the conformance is for.
    pub declared_name: String,
    /// One generated clause per declared variant, in order.
    pub variants: Vec<SumVariantImpl>,
}

/// The conformance generated for a Value Object declaration.
#[derive(Debug)]
pub enum ValueObjectImpl {
    /// A record's structural conformance.
    Product(ProductValueObjectImpl),
    /// A tagged union's per-variant conformance.
    Sum(SumValueObjectImpl),
}

/// The field set that equality, hashing and cloning range over is blind
/// to role markers: two field lists that agree on names are covered by
/// the same name list, however their roles differ.
pub proof fn lemma_value_fields_ignore_role_markers(
    ns: Seq<String>,
    fs: Seq<FieldDecl>,
    gs: Seq<FieldDecl>,
)
    requires
        fs.len() == gs.len(),
        forall|i: int| 0 <= i < fs.len() ==> (#[trigger] fs[i]).name@ == gs[i].name@,
    ensures
        names_match(ns, fs) <==> names_match(ns, gs),
{
}

/// Emits Value Object conformance for a record: structural equality,
/// hashing and cloning over the full field set, and accessors for the
/// exposed fields.
pub fn generate_value_object_for_struct(identity: &String, fields: &Vec<FieldDecl>) -> (r:
    ProductValueObjectImpl)
    ensures
        r.declared_name@ == identity@,
        names_match(r.value_fields@, fields@),
        r.accessors@ == accessors_of(fields@),
{
    let mut value_fields: Vec<String> = Vec::new();
    let mut i: usize = 0;
    while i < fields.len()
        invariant
            i <= fields@.len(),
            value_fields@.len() == i,
            forall|k: int| 0 <= k < i ==> value_fields@[k]@ == fields@[k].name@,
        decreases fields@.len() - i,
    {
        value_fields.push(fields[i].name.clone());
        i = i + 1;
    }
    let accessors = generate_fields(fields);
    ProductValueObjectImpl { declared_name: identity.clone(), value_fields, accessors }
}

/// Emits Value Object conformance for a tagged union: one clone, one
/// equality and one hash clause per variant, shaped by that variant's
/// form; values of different variants compare unequal.
pub fn generate_value_object_for_enum(identity: &String, data: &Vec<VariantDecl>) -> (r:
    SumValueObjectImpl)
    ensures
        r.declared_name@ == identity@,
        r.variants@.len() == data@.len(),
        forall|i: int| 0 <= i < data@.len() ==> variant_impl_matches(
            #[trigger] r.variants@[i],
            data@[i],
        ),
{
    let mut variants: Vec<SumVariantImpl> = Vec::new();
    let mut i: usize = 0;
    while i < data.len()
        invariant
            i <= data@.len(),
            variants@.len() == i,
            forall|k: int| 0 <= k < i ==> variant_impl_matches(
                #[trigger] variants@[k],
                data@[k],
            ),
        decreases data@.len() - i,
    {
        let vd = &data[i];
        let shape = match &vd.shape {
            VariantShape::Named(fs) => {
                let mut ns: Vec<String> = Vec::new();
                let mut j: usize = 0;
                while j < fs.len()
                    invariant
                        j <= fs@.len(),
                        ns@.len() == j,
                        forall|k: int| 0 <= k < j ==> ns@[k]@ == fs@[k].name@,
                    decreases fs@.len() - j,
                {
                    ns.push(fs[j].name.clone());
                    j = j + 1;
                }
                VariantImplShape::Named(ns)
            },
            VariantShape::Positional(ts) => VariantImplShape::Positional(ts.len()),
            VariantShape::Unit => VariantImplShape::Unit,
        };
        variants.push(SumVariantImpl { name: vd.name.clone(), shape });
        i = i + 1;
    }
    SumValueObjectImpl { declared_name: identity.clone(), variants }
}

/// Emits Value Object conformance for a declaration, routed by its
/// shape: records receive structural conformance over every field, sums
/// receive per-variant conformance.
pub fn generate_value_object(decl: &TypeDeclaration) -> (r: ValueObjectImpl)
    ensures
        match r {
            ValueObjectImpl::Product(p) => {
                &&& decl.body matches DeclBody::Product(fs)
                &&& p.declared_name@ == decl.name@
                &&& names_match(p.value_fields@, fs@)
                &&& p.accessors@ == accessors_of(fs@)
            },
            ValueObjectImpl::Sum(s) => {
                &&& decl.body matches DeclBody::Sum(vs)
                &&& s.declared_name@ == decl.name@
                &&& s.variants@.len() == vs@.len()
                &&& forall|i: int| 0 <= i < vs@.len() ==> variant_impl_matches(
                    #[trigger] s.variants@[i],
                    vs@[i],
                )
            },
        },
{
    match &decl.body {
        DeclBody::Product(fields) => ValueObjectImpl::Product(
            generate_value_object_for_struct(&decl.name, fields),
        ),
        DeclBody::Sum(variants) => ValueObjectImpl::Sum(
            generate_value_object_for_enum(&decl.name, variants),
        ),
    }
}

} // verus!
