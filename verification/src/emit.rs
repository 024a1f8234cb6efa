use vstd::prelude::*;
use crate::accessor::Accessor;
use crate::strutil::push_char;
use vstd::string::StringExecFns;

verus! {

/// The character of one decimal digit.
pub open spec fn digit_char(d: nat) -> char {
    ((48 + d) as u8) as char
}

/// The decimal text of a number.
pub open spec fn dec_digits(n: nat) -> Seq<char>
    decreases n,
{
    if n < 10 {
        seq![digit_char(n)]
    } else {
        dec_digits(n / 10) + seq![digit_char(n % 10)]
    }
}

/// Appends the decimal text of `n`.
pub fn push_dec(s: &mut String, n: usize)
    ensures
        final(s)@ == old(s)@ + dec_digits(n as nat),
    decreases n,
{
    if n >= 10 {
        push_dec(s, n / 10);
    }
    let d: u8 = (n % 10) as u8;
    push_char(s, (48 + d) as char);
    proof {
        assert(s@ =~= old(s)@ + dec_digits(n as nat));
    }
}

/// The source text of one read accessor: a method named after the field
/// that hands the field out by reference.
pub open spec fn accessor_text(a: Accessor) -> Seq<char> {
    "    pub fn "@ + a.field@ + "(&self) -> &"@ + a.ty@ + " {\n        &self."@ + a.field@
        + "\n    }\n"@
}

/// The source text of a list of accessors, in order.
pub open spec fn accessors_text(accs: Seq<Accessor>) -> Seq<char>
    decreases accs.len(),
{
    if accs.len() == 0 {
        Seq::empty()
    } else {
        accessors_text(accs.drop_last()) + accessor_text(accs.last())
    }
}

/// The source text of the inherent block holding a type's accessors.
pub open spec fn accessor_block_text(name: Seq<char>, accs: Seq<Accessor>) -> Seq<char> {
    "impl "@ + name + " {\n"@ + accessors_text(accs) + "}\n"@
}

fn push_accessor(s: &mut String, a: &Accessor)
    ensures
        final(s)@ == old(s)@ + accessor_text(*a),
{
    s.append("    pub fn ");
    s.append(a.field.as_str());
    s.append("(&self) -> &");
    s.append(a.ty.as_str());
    s.append(" {\n        &self.");
    s.append(a.field.as_str());
    s.append("\n    }\n");
    proof {
        assert(s@ =~= old(s)@ + accessor_text(*a));
    }
}

/// Emits the inherent block holding the given accessors.
pub fn render_accessor_block(name: &str, accs: &Vec<Accessor>) -> (r: String)
    ensures
        r@ == accessor_block_text(name@, accs@),
{
    let mut s = String::from_str("impl ");
    s.append(name);
    s.append(" {\n");
    let ghost header = s@;
    let mut i: usize = 0;
    while i < accs.len()
        invariant
            i <= accs@.len(),
            s@ == header + accessors_text(accs@.take(i as int)),
        decreases accs@.len() - i,
    {
        push_accessor(&mut s, &accs[i]);
        proof {
            let post = accs@.take(i + 1);
            assert(post.drop_last() =~= accs@.take(i as int));
            assert(post.last() == accs@[i as int]);
            assert(s@ =~= header + accessors_text(post));
        }
        i = i + 1;
    }
    s.append("}\n");
    proof {
        assert(accs@.take(accs@.len() as int) =~= accs@);
        assert(s@ =~= accessor_block_text(name@, accs@));
    }
    s
}

/// The source text of an Entity's conformance: the identity accessor,
/// equality and hashing over the identity field alone, and the exposed
/// fields' accessors.
pub open spec fn entity_text(
    name: Seq<char>,
    id_name: Seq<char>,
    id_ty: Seq<char>,
    accs: Seq<Accessor>,
) -> Seq<char> {
    "impl Entity for "@ + name + " {\n    type Id = "@ + id_ty
        + ";\n\n    fn id(&self) -> &Self::Id {\n        &self."@ + id_name + "\n    }\n}\n"@
        + "impl PartialEq for "@ + name
        + " {\n    fn eq(&self, other: &Self) -> bool {\n        self."@ + id_name
        + " == other."@ + id_name + "\n    }\n}\n"@ + "impl Eq for "@ + name + " {}\n"@
        + "impl std::hash::Hash for "@ + name
        + " {\n    fn hash<H: std::hash::Hasher>(&self, state: &mut H) {\n        self."@
        + id_name + ".hash(state);\n    }\n}\n"@ + accessor_block_text(name, accs)
}

/// Emits the source text of an Entity's conformance.
pub fn render_entity(e: &crate::entity::EntityImpl) -> (r: String)
    ensures
        r@ == entity_text(
            e.declared_name@,
            e.identity_field.name@,
            e.identity_field.ty@,
            e.accessors@,
        ),
{
    let name = e.declared_name.as_str();
    let id_name = e.identity_field.name.as_str();
    let mut s = String::from_str("impl Entity for ");
    s.append(name);
    s.append(" {\n    type Id = ");
    s.append(e.identity_field.ty.as_str());
    s.append(";\n\n    fn id(&self) -> &Self::Id {\n        &self.");
    s.append(id_name);
    s.append("\n    }\n}\n");
    s.append("impl PartialEq for ");
    s.append(name);
    s.append(" {\n    fn eq(&self, other: &Self) -> bool {\n        self.");
    s.append(id_name);
    s.append(" == other.");
    s.append(id_name);
    s.append("\n    }\n}\n");
    s.append("impl Eq for ");
    s.append(name);
    s.append(" {}\n");
    s.append("impl std::hash::Hash for ");
    s.append(name);
    s.append(" {\n    fn hash<H: std::hash::Hasher>(&self, state: &mut H) {\n        self.");
    s.append(id_name);
    s.append(".hash(state);\n    }\n}\n");
    let block = render_accessor_block(name, &e.accessors);
    s.append(block.as_str());
    proof {
        assert(s@ =~= entity_text(
            e.declared_name@,
            e.identity_field.name@,
            e.identity_field.ty@,
            e.accessors@,
        ));
    }
    s
}

/// The source text of a record Value Object's clone body: every field
/// rebuilt from its own clone, in order.
pub open spec fn clone_inits_text(fs: Seq<String>) -> Seq<char>
    decreases fs.len(),
{
    if fs.len() == 0 {
        Seq::empty()
    } else {
        clone_inits_text(fs.drop_last()) + "            "@ + fs.last()@ + ": self."@
            + fs.last()@ + ".clone(),\n"@
    }
}

/// The source text of a record Value Object's equality: one conjunct per
/// field, in order.
pub open spec fn eq_conjuncts_text(fs: Seq<String>) -> Seq<char>
    decreases fs.len(),
{
    if fs.len() == 0 {
        Seq::empty()
    } else {
        eq_conjuncts_text(fs.drop_last()) + " && self."@ + fs.last()@ + " == other."@
            + fs.last()@
    }
}

/// The source text of a record Value Object's hash body: every field
/// mixed in, in the same order equality compares them.
pub open spec fn hash_lines_text(fs: Seq<String>) -> Seq<char>
    decreases fs.len(),
{
    if fs.len() == 0 {
        Seq::empty()
    } else {
        hash_lines_text(fs.drop_last()) + "        self."@ + fs.last()@ + ".hash(state);\n"@
    }
}

/// The source text of a record Value Object's conformance: the marker,
/// clone, equality and hashing over every field, and the exposed fields'
/// accessors.
pub open spec fn product_value_object_text(
    name: Seq<char>,
    fs: Seq<String>,
    accs: Seq<Accessor>,
) -> Seq<char> {
    "impl ValueObject for "@ + name + " {}\n"@ + "impl Clone for "@ + name
        + " {\n    fn clone(&self) -> Self {\n        Self {\n"@ + clone_inits_text(fs)
        + "        }\n    }\n}\n"@ + "impl PartialEq for "@ + name
        + " {\n    fn eq(&self, other: &Self) -> bool {\n        true"@ + eq_conjuncts_text(fs)
        + "\n    }\n}\n"@ + "impl Eq for "@ + name + " {}\n"@ + "impl std::hash::Hash for "@
        + name + " {\n    fn hash<H: std::hash::Hasher>(&self, state: &mut H) {\n"@
        + hash_lines_text(fs) + "    }\n}\n"@ + accessor_block_text(name, accs)
}

/// Emits the source text of a record Value Object's conformance.
pub fn render_product_value_object(v: &crate::value_object::ProductValueObjectImpl) -> (r:
    String)
    ensures
        r@ == product_value_object_text(v.declared_name@, v.value_fields@, v.accessors@),
{
    let name = v.declared_name.as_str();
    let mut s = String::from_str("impl ValueObject for ");
    s.append(name);
    s.append(" {}\n");
    s.append("impl Clone for ");
    s.append(name);
    s.append(" {\n    fn clone(&self) -> Self {\n        Self {\n");
    let ghost mark1 = s@;
    let mut i: usize = 0;
    while i < v.value_fields.len()
        invariant
            i <= v.value_fields@.len(),
            s@ == mark1 + clone_inits_text(v.value_fields@.take(i as int)),
        decreases v.value_fields@.len() - i,
    {
        s.append("            ");
        s.append(v.value_fields[i].as_str());
        s.append(": self.");
        s.append(v.value_fields[i].as_str());
        s.append(".clone(),\n");
        proof {
            let post = v.value_fields@.take(i + 1);
            assert(post.drop_last() =~= v.value_fields@.take(i as int));
            assert(post.last() == v.value_fields@[i as int]);
            assert(s@ =~= mark1 + clone_inits_text(post));
        }
        i = i + 1;
    }
    s.append("        }\n    }\n}\n");
    s.append("impl PartialEq for ");
    s.append(name);
    s.append(" {\n    fn eq(&self, other: &Self) -> bool {\n        true");
    let ghost mark2 = s@;
    let mut j: usize = 0;
    while j < v.value_fields.len()
        invariant
            j <= v.value_fields@.len(),
            s@ == mark2 + eq_conjuncts_text(v.value_fields@.take(j as int)),
        decreases v.value_fields@.len() - j,
    {
        s.append(" && self.");
        s.append(v.value_fields[j].as_str());
        s.append(" == other.");
        s.append(v.value_fields[j].as_str());
        proof {
            let post = v.value_fields@.take(j + 1);
            assert(post.drop_last() =~= v.value_fields@.take(j as int));
            assert(post.last() == v.value_fields@[j as int]);
            assert(s@ =~= mark2 + eq_conjuncts_text(post));
        }
        j = j + 1;
    }
    s.append("\n    }\n}\n");
    s.append("impl Eq for ");
    s.append(name);
    s.append(" {}\n");
    s.append("impl std::hash::Hash for ");
    s.append(name);
    s.append(" {\n    fn hash<H: std::hash::Hasher>(&self, state: &mut H) {\n");
    let ghost mark3 = s@;
    let mut k: usize = 0;
    while k < v.value_fields.len()
        invariant
            k <= v.value_fields@.len(),
            s@ == mark3 + hash_lines_text(v.value_fields@.take(k as int)),
        decreases v.value_fields@.len() - k,
    {
        s.append("        self.");
        s.append(v.value_fields[k].as_str());
        s.append(".hash(state);\n");
        proof {
            let post = v.value_fields@.take(k + 1);
            assert(post.drop_last() =~= v.value_fields@.take(k as int));
            assert(post.last() == v.value_fields@[k as int]);
            assert(s@ =~= mark3 + hash_lines_text(post));
        }
        k = k + 1;
    }
    s.append("    }\n}\n");
    let block = render_accessor_block(name, &v.accessors);
    s.append(block.as_str());
    proof {
        assert(v.value_fields@.take(v.value_fields@.len() as int) =~= v.value_fields@);
        assert(s@ =~= product_value_object_text(v.declared_name@, v.value_fields@, v.accessors@));
    }
    s
}

/// The source text of a synthesized identity wrapper: the struct, its
/// constructor, the value-by-reference and value-by-move accessors, the
/// conversion from the inner type, and the identity capability.
pub open spec fn generated_identity_text(w: Seq<char>, t: Seq<char>) -> Seq<char> {
    "#[derive(PartialEq, Eq, Hash, Clone, Debug)]\npub struct "@ + w + " {\n    id: "@ + t
        + ",\n}\n"@ + "impl "@ + w + " {\n    pub fn new(id: "@ + t
        + ") -> Self {\n        Self { id }\n    }\n\n    pub fn value_as_ref(&self) -> &"@ + t
        + " {\n        &self.id\n    }\n\n    pub fn value(self) -> "@ + t
        + " {\n        self.id\n    }\n}\n"@ + "impl From<"@ + t + "> for "@ + w
        + " {\n    fn from(value: "@ + t + ") -> Self {\n        Self { id: value }\n    }\n}\n"@
        + "impl AggregateId for "@ + w + " {}\n"@
}

/// The source text of an Aggregate's conformance: the identity wrapper
/// when one was requested, the type-key registration with the canonical
/// key baked in at generation time, and the Entity conformance.
pub open spec fn aggregate_text(
    name: Seq<char>,
    key: Seq<char>,
    wrapper: Seq<char>,
    id_name: Seq<char>,
    id_ty: Seq<char>,
    accs: Seq<Accessor>,
) -> Seq<char> {
    wrapper + "impl Aggregate for "@ + name
        + " {\n    fn type_key() -> &'static str {\n        \""@ + key + "\"\n    }\n}\n"@
        + entity_text(name, id_name, id_ty, accs)
}

/// Emits the source text of an Aggregate's conformance.
pub fn render_aggregate(a: &crate::aggregate::AggregateImpl) -> (r: String)
    ensures
        r@ == aggregate_text(
            a.entity.declared_name@,
            a.type_key@,
            match a.generated_identity {
                Some(g) => generated_identity_text(g.name@, g.inner_ty@),
                None => Seq::empty(),
            },
            a.entity.identity_field.name@,
            a.entity.identity_field.ty@,
            a.entity.accessors@,
        ),
{
    let mut s = String::new();
    match &a.generated_identity {
        Some(g) => {
            let w = g.name.as_str();
            let t = g.inner_ty.as_str();
            s.append("#[derive(PartialEq, Eq, Hash, Clone, Debug)]\npub struct ");
            s.append(w);
            s.append(" {\n    id: ");
            s.append(t);
            s.append(",\n}\n");
            s.append("impl ");
            s.append(w);
            s.append(" {\n    pub fn new(id: ");
            s.append(t);
            s.append(") -> Self {\n        Self { id }\n    }\n\n    pub fn value_as_ref(&self) -> &");
            s.append(t);
            s.append(" {\n        &self.id\n    }\n\n    pub fn value(self) -> ");
            s.append(t);
            s.append(" {\n        self.id\n    }\n}\n");
            s.append("impl From<");
            s.append(t);
            s.append("> for ");
            s.append(w);
            s.append(" {\n    fn from(value: ");
            s.append(t);
            s.append(") -> Self {\n        Self { id: value }\n    }\n}\n");
            s.append("impl AggregateId for ");
            s.append(w);
            s.append(" {}\n");
            proof {
                assert(s@ =~= generated_identity_text(g.name@, g.inner_ty@));
            }
        },
        None => {},
    }
    s.append("impl Aggregate for ");
    s.append(a.entity.declared_name.as_str());
    s.append(" {\n    fn type_key() -> &'static str {\n        \"");
    s.append(a.type_key.as_str());
    s.append("\"\n    }\n}\n");
    let entity = render_entity(&a.entity);
    s.append(entity.as_str());
    proof {
        assert(s@ =~= aggregate_text(
            a.entity.declared_name@,
            a.type_key@,
            match a.generated_identity {
                Some(g) => generated_identity_text(g.name@, g.inner_ty@),
                None => Seq::<char>::empty(),
            },
            a.entity.identity_field.name@,
            a.entity.identity_field.ty@,
            a.entity.accessors@,
        ));
    }
    s
}

/// The views of a list of names.
pub open spec fn views_of(ns: Seq<String>) -> Seq<Seq<char>> {
    Seq::new(ns.len(), |i: int| ns[i]@)
}

/// The positional placeholder names of a variant with `k` slots.
pub open spec fn placeholder_names(k: nat) -> Seq<Seq<char>> {
    Seq::new(k, |i: int| "field"@ + dec_digits(i as nat))
}

/// The names joined by commas.
pub open spec fn plain_list(parts: Seq<Seq<char>>) -> Seq<char>
    decreases parts.len(),
{
    if parts.len() == 0 {
        Seq::empty()
    } else if parts.len() == 1 {
        parts[0]
    } else {
        plain_list(parts.drop_last()) + ", "@ + parts.last()
    }
}

/// The names joined by commas, each under the given fresh-binder prefix.
pub open spec fn prefixed_list(prefix: Seq<char>, parts: Seq<Seq<char>>) -> Seq<char>
    decreases parts.len(),
{
    if parts.len() == 0 {
        Seq::empty()
    } else if parts.len() == 1 {
        prefix + parts[0]
    } else {
        prefixed_list(prefix, parts.drop_last()) + ", "@ + prefix + parts.last()
    }
}

/// The field patterns binding each name to a fresh prefixed binder, so
/// the two operands' same-named fields cannot collide.
pub open spec fn bind_list(prefix: Seq<char>, parts: Seq<Seq<char>>) -> Seq<char>
    decreases parts.len(),
{
    if parts.len() == 0 {
        Seq::empty()
    } else if parts.len() == 1 {
        parts[0] + ": "@ + prefix + parts[0]
    } else {
        bind_list(prefix, parts.drop_last()) + ", "@ + parts.last() + ": "@ + prefix
            + parts.last()
    }
}

/// The field initialisers rebuilding each named field from its clone.
pub open spec fn clone_init_list(parts: Seq<Seq<char>>) -> Seq<char>
    decreases parts.len(),
{
    if parts.len() == 0 {
        Seq::empty()
    } else if parts.len() == 1 {
        parts[0] + ": "@ + parts[0] + ".clone()"@
    } else {
        clone_init_list(parts.drop_last()) + ", "@ + parts.last() + ": "@ + parts.last()
            + ".clone()"@
    }
}

/// The positional arguments rebuilding each slot from its clone.
pub open spec fn clone_call_list(parts: Seq<Seq<char>>) -> Seq<char>
    decreases parts.len(),
{
    if parts.len() == 0 {
        Seq::empty()
    } else if parts.len() == 1 {
        parts[0] + ".clone()"@
    } else {
        clone_call_list(parts.drop_last()) + ", "@ + parts.last() + ".clone()"@
    }
}

/// The field-wise equality conjuncts between the two operands' binders.
pub open spec fn eq_chain(parts: Seq<Seq<char>>) -> Seq<char>
    decreases parts.len(),
{
    if parts.len() == 0 {
        Seq::empty()
    } else {
        eq_chain(parts.drop_last()) + " && lhs_"@ + parts.last() + " == rhs_"@ + parts.last()
    }
}

/// The hash statements mixing each bound field in, in order.
pub open spec fn variant_hash_body(parts: Seq<Seq<char>>) -> Seq<char>
    decreases parts.len(),
{
    if parts.len() == 0 {
        Seq::empty()
    } else {
        variant_hash_body(parts.drop_last()) + "                "@ + parts.last()
            + ".hash(state);\n"@
    }
}

/// The clone match arm of one generated variant.
pub open spec fn variant_clone_arm(t: Seq<char>, v: crate::value_object::SumVariantImpl) -> Seq<
    char,
> {
    match v.shape {
        crate::value_object::VariantImplShape::Named(ns) => "            "@ + t + "::"@ + v.name@
            + " { "@ + plain_list(views_of(ns@)) + " } => "@ + t + "::"@ + v.name@ + " { "@
            + clone_init_list(views_of(ns@)) + " },\n"@,
        crate::value_object::VariantImplShape::Positional(k) => "            "@ + t + "::"@
            + v.name@ + "("@ + plain_list(placeholder_names(k as nat)) + ") => "@ + t + "::"@
            + v.name@ + "("@ + clone_call_list(placeholder_names(k as nat)) + "),\n"@,
        crate::value_object::VariantImplShape::Unit => "            "@ + t + "::"@ + v.name@
            + " => "@ + t + "::"@ + v.name@ + ",\n"@,
    }
}

/// The equality match arm of one generated variant: both operands of the
/// same variant, each side's fields bound to fresh names and compared
/// pairwise.
pub open spec fn variant_eq_arm(t: Seq<char>, v: crate::value_object::SumVariantImpl) -> Seq<
    char,
> {
    match v.shape {
        crate::value_object::VariantImplShape::Named(ns) => "            ("@ + t + "::"@
            + v.name@ + " { "@ + bind_list("lhs_"@, views_of(ns@)) + " }, "@ + t + "::"@
            + v.name@ + " { "@ + bind_list("rhs_"@, views_of(ns@)) + " }) => true"@ + eq_chain(
            views_of(ns@),
        ) + ",\n"@,
        crate::value_object::VariantImplShape::Positional(k) => "            ("@ + t + "::"@
            + v.name@ + "("@ + prefixed_list("lhs_"@, placeholder_names(k as nat)) + "), "@ + t
            + "::"@ + v.name@ + "("@ + prefixed_list("rhs_"@, placeholder_names(k as nat))
            + ")) => true"@ + eq_chain(placeholder_names(k as nat)) + ",\n"@,
        crate::value_object::VariantImplShape::Unit => "            ("@ + t + "::"@ + v.name@
            + ", "@ + t + "::"@ + v.name@ + ") => true,\n"@,
    }
}

/// The hash match arm of one generated variant: a unit variant mixes the
/// discriminant, a data variant mixes its bound fields alone.
pub open spec fn variant_hash_arm(t: Seq<char>, v: crate::value_object::SumVariantImpl) -> Seq<
    char,
> {
    match v.shape {
        crate::value_object::VariantImplShape::Named(ns) => "            "@ + t + "::"@ + v.name@
            + " { "@ + plain_list(views_of(ns@)) + " } => {\n"@ + variant_hash_body(
            views_of(ns@),
        ) + "            },\n"@,
        crate::value_object::VariantImplShape::Positional(k) => "            "@ + t + "::"@
            + v.name@ + "("@ + plain_list(placeholder_names(k as nat)) + ") => {\n"@
            + variant_hash_body(placeholder_names(k as nat)) + "            },\n"@,
        crate::value_object::VariantImplShape::Unit => "            "@ + t + "::"@ + v.name@
            + " => {\n                std::mem::discriminant(self).hash(state);\n            },\n"@,
    }
}

/// The clone arms of every generated variant, in order.
pub open spec fn clone_arms(t: Seq<char>, vs: Seq<crate::value_object::SumVariantImpl>) -> Seq<
    char,
>
    decreases vs.len(),
{
    if vs.len() == 0 {
        Seq::empty()
    } else {
        clone_arms(t, vs.drop_last()) + variant_clone_arm(t, vs.last())
    }
}

/// The equality arms of every generated variant, in order.
pub open spec fn eq_arms(t: Seq<char>, vs: Seq<crate::value_object::SumVariantImpl>) -> Seq<char>
    decreases vs.len(),
{
    if vs.len() == 0 {
        Seq::empty()
    } else {
        eq_arms(t, vs.drop_last()) + variant_eq_arm(t, vs.last())
    }
}

/// The hash arms of every generated variant, in order.
pub open spec fn hash_arms(t: Seq<char>, vs: Seq<crate::value_object::SumVariantImpl>) -> Seq<
    char,
>
    decreases vs.len(),
{
    if vs.len() == 0 {
        Seq::empty()
    } else {
        hash_arms(t, vs.drop_last()) + variant_hash_arm(t, vs.last())
    }
}

/// The source text of a tagged union Value Object's conformance: the
/// marker, per-variant clone, equality and hash arms, and a default
/// equality arm making values of different variants never equal.
pub open spec fn sum_value_object_text(
    name: Seq<char>,
    vs: Seq<crate::value_object::SumVariantImpl>,
) -> Seq<char> {
    "impl ValueObject for "@ + name + " {}\n"@ + "impl Clone for "@ + name
        + " {\n    fn clone(&self) -> Self {\n        match self {\n"@ + clone_arms(name, vs)
        + "        }\n    }\n}\n"@ + "impl PartialEq for "@ + name
        + " {\n    fn eq(&self, other: &Self) -> bool {\n        match (self, other) {\n"@
        + eq_arms(name, vs) + "            _ => false,\n        }\n    }\n}\n"@ + "impl Eq for "@
        + name + " {}\n"@ + "impl std::hash::Hash for "@ + name
        + " {\n    fn hash<H: std::hash::Hasher>(&self, state: &mut H) {\n        match self {\n"@
        + hash_arms(name, vs) + "        }\n    }\n}\n"@
}

fn placeholder_vec(k: usize) -> (r: Vec<String>)
    ensures
        views_of(r@) == placeholder_names(k as nat),
{
    let mut r: Vec<String> = Vec::new();
    let mut i: usize = 0;
    while i < k
        invariant
            i <= k,
            r@.len() == i,
            forall|m: int| 0 <= m < i ==> (#[trigger] r@[m])@ == "field"@ + dec_digits(m as nat),
        decreases k - i,
    {
        let mut p = String::from_str("field");
        push_dec(&mut p, i);
        r.push(p);
        i = i + 1;
    }
    proof {
        assert(views_of(r@) =~= placeholder_names(k as nat));
    }
    r
}

fn push_plain_list(s: &mut String, parts: &Vec<String>)
    ensures
        final(s)@ == old(s)@ + plain_list(views_of(parts@)),
{
    let ghost mark = s@;
    let mut i: usize = 0;
    while i < parts.len()
        invariant
            i <= parts@.len(),
            s@ == mark + plain_list(views_of(parts@).take(i as int)),
        decreases parts@.len() - i,
    {
        if i > 0 {
            s.append(", ");
        }
        s.append(parts[i].as_str());
        proof {
            let vs = views_of(parts@);
            let post = vs.take(i + 1);
            assert(post.drop_last() =~= vs.take(i as int));
            assert(post.last() == vs[i as int]);
            assert(s@ =~= mark + plain_list(post));
        }
        i = i + 1;
    }
    proof {
        assert(views_of(parts@).take(parts@.len() as int) =~= views_of(parts@));
    }
}

fn push_prefixed_list(s: &mut String, prefix: &str, parts: &Vec<String>)
    ensures
        final(s)@ == old(s)@ + prefixed_list(prefix@, views_of(parts@)),
{
    let ghost mark = s@;
    let mut i: usize = 0;
    while i < parts.len()
        invariant
            i <= parts@.len(),
            s@ == mark + prefixed_list(prefix@, views_of(parts@).take(i as int)),
        decreases parts@.len() - i,
    {
        if i > 0 {
            s.append(", ");
        }
        s.append(prefix);
        s.append(parts[i].as_str());
        proof {
            let vs = views_of(parts@);
            let post = vs.take(i + 1);
            assert(post.drop_last() =~= vs.take(i as int));
            assert(post.last() == vs[i as int]);
            assert(s@ =~= mark + prefixed_list(prefix@, post));
        }
        i = i + 1;
    }
    proof {
        assert(views_of(parts@).take(parts@.len() as int) =~= views_of(parts@));
    }
}

fn push_bind_list(s: &mut String, prefix: &str, parts: &Vec<String>)
    ensures
        final(s)@ == old(s)@ + bind_list(prefix@, views_of(parts@)),
{
    let ghost mark = s@;
    let mut i: usize = 0;
    while i < parts.len()
        invariant
            i <= parts@.len(),
            s@ == mark + bind_list(prefix@, views_of(parts@).take(i as int)),
        decreases parts@.len() - i,
    {
        if i > 0 {
            s.append(", ");
        }
        s.append(parts[i].as_str());
        s.append(": ");
        s.append(prefix);
        s.append(parts[i].as_str());
        proof {
            let vs = views_of(parts@);
            let post = vs.take(i + 1);
            assert(post.drop_last() =~= vs.take(i as int));
            assert(post.last() == vs[i as int]);
            assert(s@ =~= mark + bind_list(prefix@, post));
        }
        i = i + 1;
    }
    proof {
        assert(views_of(parts@).take(parts@.len() as int) =~= views_of(parts@));
    }
}

fn push_clone_init_list(s: &mut String, parts: &Vec<String>)
    ensures
        final(s)@ == old(s)@ + clone_init_list(views_of(parts@)),
{
    let ghost mark = s@;
    let mut i: usize = 0;
    while i < parts.len()
        invariant
            i <= parts@.len(),
            s@ == mark + clone_init_list(views_of(parts@).take(i as int)),
        decreases parts@.len() - i,
    {
        if i > 0 {
            s.append(", ");
        }
        s.append(parts[i].as_str());
        s.append(": ");
        s.append(parts[i].as_str());
        s.append(".clone()");
        proof {
            let vs = views_of(parts@);
            let post = vs.take(i + 1);
            assert(post.drop_last() =~= vs.take(i as int));
            assert(post.last() == vs[i as int]);
            assert(s@ =~= mark + clone_init_list(post));
        }
        i = i + 1;
    }
    proof {
        assert(views_of(parts@).take(parts@.len() as int) =~= views_of(parts@));
    }
}

fn push_clone_call_list(s: &mut String, parts: &Vec<String>)
    ensures
        final(s)@ == old(s)@ + clone_call_list(views_of(parts@)),
{
    let ghost mark = s@;
    let mut i: usize = 0;
    while i < parts.len()
        invariant
            i <= parts@.len(),
            s@ == mark + clone_call_list(views_of(parts@).take(i as int)),
        decreases parts@.len() - i,
    {
        if i > 0 {
            s.append(", ");
        }
        s.append(parts[i].as_str());
        s.append(".clone()");
        proof {
            let vs = views_of(parts@);
            let post = vs.take(i + 1);
            assert(post.drop_last() =~= vs.take(i as int));
            assert(post.last() == vs[i as int]);
            assert(s@ =~= mark + clone_call_list(post));
        }
        i = i + 1;
    }
    proof {
        assert(views_of(parts@).take(parts@.len() as int) =~= views_of(parts@));
    }
}

fn push_eq_chain(s: &mut String, parts: &Vec<String>)
    ensures
        final(s)@ == old(s)@ + eq_chain(views_of(parts@)),
{
    let ghost mark = s@;
    let mut i: usize = 0;
    while i < parts.len()
        invariant
            i <= parts@.len(),
            s@ == mark + eq_chain(views_of(parts@).take(i as int)),
        decreases parts@.len() - i,
    {
        s.append(" && lhs_");
        s.append(parts[i].as_str());
        s.append(" == rhs_");
        s.append(parts[i].as_str());
        proof {
            let vs = views_of(parts@);
            let post = vs.take(i + 1);
            assert(post.drop_last() =~= vs.take(i as int));
            assert(post.last() == vs[i as int]);
            assert(s@ =~= mark + eq_chain(post));
        }
        i = i + 1;
    }
    proof {
        assert(views_of(parts@).take(parts@.len() as int) =~= views_of(parts@));
    }
}

fn push_variant_hash_body(s: &mut String, parts: &Vec<String>)
    ensures
        final(s)@ == old(s)@ + variant_hash_body(views_of(parts@)),
{
    let ghost mark = s@;
    let mut i: usize = 0;
    while i < parts.len()
        invariant
            i <= parts@.len(),
            s@ == mark + variant_hash_body(views_of(parts@).take(i as int)),
        decreases parts@.len() - i,
    {
        s.append("                ");
        s.append(parts[i].as_str());
        s.append(".hash(state);\n");
        proof {
            let vs = views_of(parts@);
            let post = vs.take(i + 1);
            assert(post.drop_last() =~= vs.take(i as int));
            assert(post.last() == vs[i as int]);
            assert(s@ =~= mark + variant_hash_body(post));
        }
        i = i + 1;
    }
    proof {
        assert(views_of(parts@).take(parts@.len() as int) =~= views_of(parts@));
    }
}


fn push_variant_clone_arm(s: &mut String, t: &str, v: &crate::value_object::SumVariantImpl)
    ensures
        final(s)@ == old(s)@ + variant_clone_arm(t@, *v),
{
    match &v.shape {
        crate::value_object::VariantImplShape::Named(ns) => {
            s.append("            ");
            s.append(t);
            s.append("::");
            s.append(v.name.as_str());
            s.append(" { ");
            push_plain_list(s, ns);
            s.append(" } => ");
            s.append(t);
            s.append("::");
            s.append(v.name.as_str());
            s.append(" { ");
            push_clone_init_list(s, ns);
            s.append(" },\n");
            proof {
                assert(s@ =~= old(s)@ + variant_clone_arm(t@, *v));
            }
        },
        crate::value_object::VariantImplShape::Positional(k) => {
            let ph = placeholder_vec(*k);
            s.append("            ");
            s.append(t);
            s.append("::");
            s.append(v.name.as_str());
            s.append("(");
            push_plain_list(s, &ph);
            s.append(") => ");
            s.append(t);
            s.append("::");
            s.append(v.name.as_str());
            s.append("(");
            push_clone_call_list(s, &ph);
            s.append("),\n");
            proof {
                assert(s@ =~= old(s)@ + variant_clone_arm(t@, *v));
            }
        },
        crate::value_object::VariantImplShape::Unit => {
            s.append("            ");
            s.append(t);
            s.append("::");
            s.append(v.name.as_str());
            s.append(" => ");
            s.append(t);
            s.append("::");
            s.append(v.name.as_str());
            s.append(",\n");
            proof {
                assert(s@ =~= old(s)@ + variant_clone_arm(t@, *v));
            }
        },
    }
}

fn push_variant_eq_arm(s: &mut String, t: &str, v: &crate::value_object::SumVariantImpl)
    ensures
        final(s)@ == old(s)@ + variant_eq_arm(t@, *v),
{
    match &v.shape {
        crate::value_object::VariantImplShape::Named(ns) => {
            s.append("            (");
            s.append(t);
            s.append("::");
            s.append(v.name.as_str());
            s.append(" { ");
            push_bind_list(s, "lhs_", ns);
            s.append(" }, ");
            s.append(t);
            s.append("::");
            s.append(v.name.as_str());
            s.append(" { ");
            push_bind_list(s, "rhs_", ns);
            s.append(" }) => true");
            push_eq_chain(s, ns);
            s.append(",\n");
            proof {
                assert(s@ =~= old(s)@ + variant_eq_arm(t@, *v));
            }
        },
        crate::value_object::VariantImplShape::Positional(k) => {
            let ph = placeholder_vec(*k);
            s.append("            (");
            s.append(t);
            s.append("::");
            s.append(v.name.as_str());
            s.append("(");
            push_prefixed_list(s, "lhs_", &ph);
            s.append("), ");
            s.append(t);
            s.append("::");
            s.append(v.name.as_str());
            s.append("(");
            push_prefixed_list(s, "rhs_", &ph);
            s.append(")) => true");
            push_eq_chain(s, &ph);
            s.append(",\n");
            proof {
                assert(s@ =~= old(s)@ + variant_eq_arm(t@, *v));
            }
        },
        crate::value_object::VariantImplShape::Unit => {
            s.append("            (");
            s.append(t);
            s.append("::");
            s.append(v.name.as_str());
            s.append(", ");
            s.append(t);
            s.append("::");
            s.append(v.name.as_str());
            s.append(") => true,\n");
            proof {
                assert(s@ =~= old(s)@ + variant_eq_arm(t@, *v));
            }
        },
    }
}

fn push_variant_hash_arm(s: &mut String, t: &str, v: &crate::value_object::SumVariantImpl)
    ensures
        final(s)@ == old(s)@ + variant_hash_arm(t@, *v),
{
    match &v.shape {
        crate::value_object::VariantImplShape::Named(ns) => {
            s.append("            ");
            s.append(t);
            s.append("::");
            s.append(v.name.as_str());
            s.append(" { ");
            push_plain_list(s, ns);
            s.append(" } => {\n");
            push_variant_hash_body(s, ns);
            s.append("            },\n");
            proof {
                assert(s@ =~= old(s)@ + variant_hash_arm(t@, *v));
            }
        },
        crate::value_object::VariantImplShape::Positional(k) => {
            let ph = placeholder_vec(*k);
            s.append("            ");
            s.append(t);
            s.append("::");
            s.append(v.name.as_str());
            s.append("(");
            push_plain_list(s, &ph);
            s.append(") => {\n");
            push_variant_hash_body(s, &ph);
            s.append("            },\n");
            proof {
                assert(s@ =~= old(s)@ + variant_hash_arm(t@, *v));
            }
        },
        crate::value_object::VariantImplShape::Unit => {
            s.append("            ");
            s.append(t);
            s.append("::");
            s.append(v.name.as_str());
            s.append(" => {\n                std::mem::discriminant(self).hash(state);\n            },\n");
            proof {
                assert(s@ =~= old(s)@ + variant_hash_arm(t@, *v));
            }
        },
    }
}

/// Emits the source text of a tagged union Value Object's conformance.
pub fn render_sum_value_object(v: &crate::value_object::SumValueObjectImpl) -> (r: String)
    ensures
        r@ == sum_value_object_text(v.declared_name@, v.variants@),
{
    let name = v.declared_name.as_str();
    let mut s = String::from_str("impl ValueObject for ");
    s.append(name);
    s.append(" {}\n");
    s.append("impl Clone for ");
    s.append(name);
    s.append(" {\n    fn clone(&self) -> Self {\n        match self {\n");
    let ghost mark1 = s@;
    let mut i: usize = 0;
    while i < v.variants.len()
        invariant
            i <= v.variants@.len(),
            name@ == v.declared_name@,
            s@ == mark1 + clone_arms(v.declared_name@, v.variants@.take(i as int)),
        decreases v.variants@.len() - i,
    {
        push_variant_clone_arm(&mut s, name, &v.variants[i]);
        proof {
            let post = v.variants@.take(i + 1);
            assert(post.drop_last() =~= v.variants@.take(i as int));
            assert(post.last() == v.variants@[i as int]);
            assert(s@ =~= mark1 + clone_arms(v.declared_name@, post));
        }
        i = i + 1;
    }
    s.append("        }\n    }\n}\n");
    s.append("impl PartialEq for ");
    s.append(name);
    s.append(" {\n    fn eq(&self, other: &Self) -> bool {\n        match (self, other) {\n");
    let ghost mark2 = s@;
    let mut j: usize = 0;
    while j < v.variants.len()
        invariant
            j <= v.variants@.len(),
            name@ == v.declared_name@,
            s@ == mark2 + eq_arms(v.declared_name@, v.variants@.take(j as int)),
        decreases v.variants@.len() - j,
    {
        push_variant_eq_arm(&mut s, name, &v.variants[j]);
        proof {
            let post = v.variants@.take(j + 1);
            assert(post.drop_last() =~= v.variants@.take(j as int));
            assert(post.last() == v.variants@[j as int]);
            assert(s@ =~= mark2 + eq_arms(v.declared_name@, post));
        }
        j = j + 1;
    }
    s.append("            _ => false,\n        }\n    }\n}\n");
    s.append("impl Eq for ");
    s.append(name);
    s.append(" {}\n");
    s.append("impl std::hash::Hash for ");
    s.append(name);
    s.append(" {\n    fn hash<H: std::hash::Hasher>(&self, state: &mut H) {\n        match self {\n");
    let ghost mark3 = s@;
    let mut k: usize = 0;
    while k < v.variants.len()
        invariant
            k <= v.variants@.len(),
            name@ == v.declared_name@,
            s@ == mark3 + hash_arms(v.declared_name@, v.variants@.take(k as int)),
        decreases v.variants@.len() - k,
    {
        push_variant_hash_arm(&mut s, name, &v.variants[k]);
        proof {
            let post = v.variants@.take(k + 1);
            assert(post.drop_last() =~= v.variants@.take(k as int));
            assert(post.last() == v.variants@[k as int]);
            assert(s@ =~= mark3 + hash_arms(v.declared_name@, post));
        }
        k = k + 1;
    }
    s.append("        }\n    }\n}\n");
    proof {
        assert(v.variants@.take(v.variants@.len() as int) =~= v.variants@);
        assert(s@ =~= sum_value_object_text(v.declared_name@, v.variants@));
    }
    s
}

/// Emits the source text of a Value Object declaration's conformance,
/// routed by the generated artifact's shape.
pub fn render_value_object(v: &crate::value_object::ValueObjectImpl) -> (r: String)
    ensures
        match v {
            crate::value_object::ValueObjectImpl::Product(p) => r@ == product_value_object_text(
                p.declared_name@,
                p.value_fields@,
                p.accessors@,
            ),
            crate::value_object::ValueObjectImpl::Sum(sv) => r@ == sum_value_object_text(
                sv.declared_name@,
                sv.variants@,
            ),
        },
{
    match v {
        crate::value_object::ValueObjectImpl::Product(p) => render_product_value_object(p),
        crate::value_object::ValueObjectImpl::Sum(sv) => render_sum_value_object(sv),
    }
}

} // verus!
