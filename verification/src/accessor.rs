use vstd::prelude::*;
use crate::declaration::{FieldDecl, FieldRole};

verus! {

/// One synthesized read accessor: a method named after the field that
/// hands the field out by reference.
#[derive(Debug)]
pub struct Accessor {
    /// The accessed field's name, which is also the accessor's name.
    pub field: String,
    /// The accessed field's type.
    pub ty: String,
}

/// The accessors owed to a field list: one per exposed field, in
/// declaration order; fields with other roles receive none.
pub open spec fn accessors_of(fs: Seq<FieldDecl>) -> Seq<Accessor>
    decreases fs.len(),
{
    if fs.len() == 0 {
        Seq::empty()
    } else {
        accessors_of(fs.drop_last()) + (if fs.last().role == FieldRole::Exposed {
            seq![Accessor { field: fs.last().name, ty: fs.last().ty }]
        } else {
            Seq::<Accessor>::empty()
        })
    }
}

/// Emits one read accessor per exposed field of `fields`.
pub fn generate_fields(fields: &Vec<FieldDecl>) -> (r: Vec<Accessor>)
    ensures
        r@ == accessors_of(fields@),
{
    let mut out: Vec<Accessor> = Vec::new();
    let mut i: usize = 0;
    while i < fields.len()
        invariant
            i <= fields@.len(),
            out@ == accessors_of(fields@.take(i as int)),
        decreases fields@.len() - i,
    {
        let f = &fields[i];
        match f.role {
            FieldRole::Exposed => {
                out.push(Accessor { field: f.name.clone(), ty: f.ty.clone() });
            },
            _ => {},
        }
        proof {
            let pre = fields@.take(i as int);
            let post = fields@.take(i + 1);
            assert(post.drop_last() =~= pre);
            assert(post.last() == fields@[i as int]);
        }
        i = i + 1;
    }
    proof {
        assert(fields@.take(fields@.len() as int) =~= fields@);
    }
    out
}

} // verus!
