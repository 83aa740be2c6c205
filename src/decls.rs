//! The user's record declaration, as handed over by the host compiler's front end.

use vstd::prelude::*;

verus! {

/// One named, typed field of the user's record: its name and the text of its type.
pub struct FieldDecl {
    pub name: String,
    pub ty: String,
}

/// The mathematical value of a field: its name and its type, as characters.
pub struct FieldModel {
    pub name: Seq<char>,
    pub ty: Seq<char>,
}

impl View for FieldDecl {
    type V = FieldModel;

    open spec fn view(&self) -> FieldModel {
        FieldModel { name: self.name@, ty: self.ty@ }
    }
}

/// The user's record declaration: the type's name and its fields, in order.
pub struct TypeSkeleton {
    pub name: String,
    pub fields: Vec<FieldDecl>,
}

/// The fields of a declaration as mathematical values.
pub open spec fn field_models(fields: Seq<FieldDecl>) -> Seq<FieldModel> {
    fields.map_values(|f: FieldDecl| f@)
}

/// Whether some field of the declaration is named `depth`.
pub open spec fn declares_depth(fields: Seq<FieldModel>) -> bool {
    exists|i: int| 0 <= i < fields.len() && #[trigger] fields[i].name == "depth"@
}

/// Whether `s` reads exactly as the text `lit`.
pub(crate) fn text_is(s: &String, lit: &str) -> (r: bool)
    ensures
        r == (s@ == lit@),
{
    *s == String::from_str(lit)
}

/// Whether the declaration already has a field named `depth`.
pub fn has_depth_field(fields: &Vec<FieldDecl>) -> (r: bool)
    ensures
        r == declares_depth(field_models(fields@)),
{
    let mut i: usize = 0;
    while i < fields.len()
        invariant
            i <= fields@.len(),
            forall|j: int| 0 <= j < i ==> fields@[j].name@ != "depth"@,
        decreases fields@.len() - i,
    {
        if text_is(&fields[i].name, "depth") {
            assert(field_models(fields@)[i as int].name == "depth"@);
            return true;
        }
        i = i + 1;
    }
    assert forall|j: int| 0 <= j < fields@.len() implies
        #[trigger] field_models(fields@)[j].name != "depth"@ by {
        assert(field_models(fields@)[j] == fields@[j]@);
    }
    false
}

} // verus!
