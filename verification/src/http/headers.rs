//! The headers of a message: an ordered table of fields, one per name.

use crate::cut::str_eq;
use vstd::prelude::*;

verus! {

/// One header field as mathematics: name and value.
pub type FieldView = (Seq<char>, Seq<char>);

/// The views of a sequence of stored fields.
pub open spec fn field_views(fields: Seq<(String, String)>) -> Seq<FieldView> {
    fields.map_values(|field: (String, String)| (field.0@, field.1@))
}

/// Whether some field of the table has the given name.
pub open spec fn has_name(fields: Seq<FieldView>, name: Seq<char>) -> bool {
    exists|i: int| 0 <= i < fields.len() && (#[trigger] fields[i]).0 == name
}

/// No two fields of the table have the same name.
pub open spec fn distinct_names(fields: Seq<FieldView>) -> bool {
    forall|i: int, j: int|
        0 <= i < j < fields.len() ==> (#[trigger] fields[i]).0 != (#[trigger] fields[j]).0
}

/// The value stored under a name, if any.
pub open spec fn lookup(fields: Seq<FieldView>, name: Seq<char>) -> Option<Seq<char>> {
    if has_name(fields, name) {
        let i = choose|i: int| 0 <= i < fields.len() && (#[trigger] fields[i]).0 == name;
        Some(fields[i].1)
    } else {
        None
    }
}

/// The table after a field is set: the value replaced in place where the
/// name is present, the field added at the end where it is not.
pub open spec fn with_field(fields: Seq<FieldView>, name: Seq<char>, value: Seq<char>) -> Seq<
    FieldView,
> {
    if has_name(fields, name) {
        let i = choose|i: int| 0 <= i < fields.len() && (#[trigger] fields[i]).0 == name;
        fields.update(i, (name, value))
    } else {
        fields.push((name, value))
    }
}

/// Setting a field keeps the names distinct.
pub proof fn lemma_with_field_distinct(fields: Seq<FieldView>, name: Seq<char>, value: Seq<char>)
    requires
        distinct_names(fields),
    ensures
        distinct_names(with_field(fields, name, value)),
        lookup(with_field(fields, name, value), name) == Some(value),
{
    let out = with_field(fields, name, value);
    if has_name(fields, name) {
        let i = choose|i: int| 0 <= i < fields.len() && (#[trigger] fields[i]).0 == name;
        assert(out[i].0 == name);
    } else {
        let last = fields.len() as int;
        assert(out[last].0 == name);
    }
}

/// Header fields in the order in which their names were first set.
#[derive(Debug, PartialEq, Eq)]
pub struct Headers {
    fields: Vec<(String, String)>,
}

impl View for Headers {
    type V = Seq<FieldView>;

    closed spec fn view(&self) -> Seq<FieldView> {
        field_views(self.fields@)
    }
}

impl Clone for Headers {
    fn clone(&self) -> (copy: Self)
        ensures
            copy@ == self@,
    {
        proof {
            use_type_invariant(self);
        }
        let mut fields: Vec<(String, String)> = Vec::new();
        let mut i: usize = 0;
        while i < self.fields.len()
            invariant
                i <= self.fields.len(),
                field_views(fields@) == field_views(self.fields@).subrange(0, i as int),
            decreases self.fields.len() - i,
        {
            let ghost before = field_views(fields@);
            let name = self.fields[i].0.clone();
            let value = self.fields[i].1.clone();
            fields.push((name, value));
            assert(field_views(fields@) =~= before.push(
                (self.fields@[i as int].0@, self.fields@[i as int].1@),
            ));
            i += 1;
        }
        Headers { fields }
    }
}

impl Headers {
    #[verifier::type_invariant]
    pub closed spec fn valid(self) -> bool {
        distinct_names(field_views(self.fields@))
    }

    /// An empty table.
    pub fn new() -> (headers: Headers)
        ensures
            headers@ == Seq::<FieldView>::empty(),
    {
        let headers = Headers { fields: Vec::new() };
        headers
    }

    /// The number of fields; their names are distinct.
    pub fn len(&self) -> (n: usize)
        ensures
            n == self@.len(),
            distinct_names(self@),
    {
        proof {
            use_type_invariant(self);
        }
        self.fields.len()
    }

    /// The place of the field with the given name.
    fn position(&self, name: &str) -> (place: Option<usize>)
        ensures
            distinct_names(self@),
            match place {
                Some(i) => i < self@.len() && self@[i as int].0 == name@ && has_name(
                    self@,
                    name@,
                ) && i == choose|k: int| 0 <= k < self@.len() && (#[trigger] self@[k]).0 == name@,
                None => !has_name(self@, name@),
            },
    {
        proof {
            use_type_invariant(self);
        }
        let mut i: usize = 0;
        while i < self.fields.len()
            invariant
                i <= self.fields.len(),
                distinct_names(self@),
                forall|k: int| 0 <= k < i ==> (#[trigger] self@[k]).0 != name@,
            decreases self.fields.len() - i,
        {
            if str_eq(self.fields[i].0.as_str(), name) {
                proof {
                    assert(self@[i as int].0 == name@);
                }
                return Some(i);
            }
            i += 1;
        }
        None
    }

    /// The value stored under `name`, if any.
    pub fn get(&self, name: &str) -> (value: Option<&str>)
        ensures
            match value {
                Some(v) => lookup(self@, name@) == Some(v@),
                None => lookup(self@, name@) is None,
            },
    {
        match self.position(name) {
            Some(i) => Some(self.fields[i].1.as_str()),
            None => None,
        }
    }

    /// The field at place `i`: name and value.
    pub fn field(&self, i: usize) -> (field: (&str, &str))
        requires
            i < self@.len(),
        ensures
            field.0@ == self@[i as int].0,
            field.1@ == self@[i as int].1,
    {
        (self.fields[i].0.as_str(), self.fields[i].1.as_str())
    }

    /// Sets a field: the value replaces the one stored under the same name,
    /// or the field is added at the end.
    pub fn insert(&mut self, name: String, value: String)
        ensures
            final(self)@ == with_field(old(self)@, name@, value@),
            lookup(final(self)@, name@) == Some(value@),
    {
        let ghost before = self@;
        proof {
            use_type_invariant(&*self);
            lemma_with_field_distinct(before, name@, value@);
        }
        // The table is taken out while it is changed and put back whole.
        let mut fields: Vec<(String, String)> = Vec::new();
        match self.position(name.as_str()) {
            Some(i) => {
                std::mem::swap(&mut fields, &mut self.fields);
                fields.set(i, (name, value));
                assert(field_views(fields@) =~= before.update(i as int, (name@, value@)));
            },
            None => {
                std::mem::swap(&mut fields, &mut self.fields);
                fields.push((name, value));
                assert(field_views(fields@) =~= before.push((name@, value@)));
            },
        }
        self.fields = fields;
    }
}

impl Default for Headers {
    fn default() -> (headers: Headers)
        ensures
            headers@ == Seq::<FieldView>::empty(),
    {
        Headers::new()
    }
}

} // verus!
