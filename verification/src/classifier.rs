use vstd::prelude::*;
use crate::declaration::{FieldDecl, FieldRole};

verus! {

/// The identity field of a field list: the last field marked with the
/// identity role, or nothing when no field carries that marker.
pub open spec fn identity_of(fs: Seq<FieldDecl>) -> Option<FieldDecl>
    decreases fs.len(),
{
    if fs.len() == 0 {
        None
    } else if fs.last().role == FieldRole::Identity {
        Some(fs.last())
    } else {
        identity_of(fs.drop_last())
    }
}

/// The exposed fields of a field list, in declaration order.
pub open spec fn exposed_of(fs: Seq<FieldDecl>) -> Seq<FieldDecl>
    decreases fs.len(),
{
    if fs.len() == 0 {
        Seq::empty()
    } else {
        exposed_of(fs.drop_last()) + (if fs.last().role == FieldRole::Exposed {
            seq![fs.last()]
        } else {
            Seq::<FieldDecl>::empty()
        })
    }
}

/// A field list partitioned by role marker: the identity field, if any,
/// and the exposed fields; unmarked fields belong to neither output.
#[derive(Debug)]
pub struct ClassifiedFields {
    /// The field carrying the identity marker, if one does.
    pub identity: Option<FieldDecl>,
    /// The fields carrying the exposed marker, in declaration order.
    pub exposed: Vec<FieldDecl>,
}

/// Partitions a declaration's fields by their role markers.
pub fn classify_fields(fields: &Vec<FieldDecl>) -> (r: ClassifiedFields)
    ensures
        r.identity == identity_of(fields@),
        r.exposed@ == exposed_of(fields@),
{
    let mut identity: Option<FieldDecl> = None;
    let mut exposed: Vec<FieldDecl> = Vec::new();
    let mut i: usize = 0;
    while i < fields.len()
        invariant
            i <= fields@.len(),
            identity == identity_of(fields@.take(i as int)),
            exposed@ == exposed_of(fields@.take(i as int)),
        decreases fields@.len() - i,
    {
        let f = &fields[i];
        match f.role {
            FieldRole::Identity => {
                identity = Some(f.clone());
            },
            FieldRole::Exposed => {
                exposed.push(f.clone());
            },
            FieldRole::Plain => {},
        }
        proof {
            let pre = fields@.take(i as int);
            let post = fields@.take(i + 1);
            assert(post.drop_last() =~= pre);
            assert(post.last() == fields@[i as int]);
        }
        i = i + 1;
    }
    proof {
        assert(fields@.take(fields@.len() as int) =~= fields@);
    }
    ClassifiedFields { identity, exposed }
}

} // verus!
