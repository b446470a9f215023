//! The name–value fields a request form is made of.

use vstd::prelude::*;

verus! {

/// One name–value field of a request form.
pub struct FormField {
    pub name: String,
    pub value: String,
}

impl DeepView for FormField {
    type V = (Seq<char>, Seq<char>);

    open spec fn deep_view(&self) -> Self::V {
        (self.name@, self.value@)
    }
}

/// Build one field from a fixed name and a computed value.
pub fn field(name: &str, value: String) -> (r: FormField)
    ensures
        r.deep_view() == (name@, value@),
{
    FormField { name: name.to_owned(), value }
}

} // verus!
