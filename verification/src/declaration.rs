use vstd::prelude::*;

verus! {

/// The role a field carries in a declaration, set by whichever front end
/// parsed the declaration's role markers.
#[derive(PartialEq, Eq, Structural, Clone, Copy, Debug)]
pub enum FieldRole {
    /// The field that defines identity-based equality.
    Identity,
    /// A field for which a read accessor is requested.
    Exposed,
    /// A field with no marker.
    Plain,
}

/// One named field of a product declaration or of a named variant.
#[derive(Debug)]
pub struct FieldDecl {
    /// The field's name.
    pub name: String,
    /// The field's type, as written in the declaration.
    pub ty: String,
    /// The role marker the field carries.
    pub role: FieldRole,
    /// When present, the field asks for a dedicated identity wrapper type
    /// around the named inner type.
    pub generate_identity: Option<String>,
}

impl Clone for FieldDecl {
    fn clone(&self) -> (r: FieldDecl)
        ensures
            r == *self,
    {
        FieldDecl {
            name: self.name.clone(),
            ty: self.ty.clone(),
            role: self.role,
            generate_identity: match &self.generate_identity {
                Some(t) => Some(t.clone()),
                None => None,
            },
        }
    }
}

/// The structural form of one case of a sum declaration.
#[derive(Debug)]
pub enum VariantShape {
    /// A case with named fields.
    Named(Vec<FieldDecl>),
    /// A case with unnamed fields, given by their types in order.
    Positional(Vec<String>),
    /// A case without fields.
    Unit,
}

/// One case of a sum declaration.
#[derive(Debug)]
pub struct VariantDecl {
    /// The case's name.
    pub name: String,
    /// The case's structural form.
    pub shape: VariantShape,
}

/// The body of a declaration: a record of named fields, or a tagged union
/// of variants.
#[derive(Debug)]
pub enum DeclBody {
    /// A record with named fields.
    Product(Vec<FieldDecl>),
    /// A tagged union with variants.
    Sum(Vec<VariantDecl>),
}

/// A parsed type declaration handed to the generators.
#[derive(Debug)]
pub struct TypeDeclaration {
    /// The declared type's name.
    pub name: String,
    /// The declaration's body.
    pub body: DeclBody,
}

/// A generation-time fault; each aborts generation for the declaration
/// with no partial output.
#[derive(Debug)]
pub enum GenerationError {
    /// Entity or Aggregate generation found no identity-marked field.
    MissingIdentityField,
    /// A required metadata field, named here, is absent.
    MissingRequiredField(String),
    /// The declaration's shape is not one the generator accepts.
    UnsupportedDeclarationShape,
}

/// Whether some field in `fs` bears the name `n`.
pub open spec fn has_field(fs: Seq<FieldDecl>, n: Seq<char>) -> bool {
    exists|i: int| 0 <= i < fs.len() && fs[i].name@ == n
}

/// Looks a field up by name.
pub fn find_field<'a>(fields: &'a Vec<FieldDecl>, name: &str) -> (r: Option<&'a FieldDecl>)
    ensures
        match r {
            Some(f) => exists|i: int| 0 <= i < fields@.len() && fields@[i] == *f && f.name@
                == name@,
            None => !has_field(fields@, name@),
        },
{
    let mut j: usize = 0;
    while j < fields.len()
        invariant
            j <= fields@.len(),
            forall|i: int| 0 <= i < j ==> fields@[i].name@ != name@,
        decreases fields@.len() - j,
    {
        if fields[j].name.as_str().eq(name) {
            let f = &fields[j];
            proof {
                let w = j as int;
                assert(0 <= w < fields@.len() && fields@[w] == *f && f.name@ == name@);
            }
            return Some(f);
        }
        j = j + 1;
    }
    None
}

} // verus!
