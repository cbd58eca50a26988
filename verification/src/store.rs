use vstd::prelude::*;

verus! {

// The schema of the host data model, as the compiler sees it: the shapes
// a binding path may walk through. The schema is a finite tree;
// recursive shapes cannot be written in it.
#[derive(Debug, PartialEq)]
pub enum StoreType {
    /// Text of any kind.
    Str,
    /// Numbers of any width.
    Number,
    /// A value that may be absent; its presence must be checked.
    Optional(Box<StoreType>),
    /// A record: named fields, looked up by name. The first entry of a
    /// name is the one that counts.
    Struct { fields: Vec<(String, StoreType)> },
    /// A fixed-length sequence, indexed by position.
    Array { elements: Vec<StoreType> },
    /// A sequence of unknown length; all elements share one type.
    UnboundedArray { element_type: Box<StoreType> },
    /// One of several named variants.
    Enum { variants: Vec<EnumVariant> },
}

/// One variant of an enum shape. The name takes no part in checking a
/// path; code generation needs it to spell the match out.
#[derive(Debug, PartialEq)]
pub struct EnumVariant {
    pub name: String,
    pub variant_type: VariantType,
}

#[derive(Debug, PartialEq)]
pub enum VariantType {
    /// A record-like variant.
    Struct { fields: Vec<(String, StoreType)> },
    /// A tuple-like variant, indexed by position.
    Tuple { elements: Vec<StoreType> },
}

/// The first field of that name, if any.
pub open spec fn spec_field_lookup(fields: Seq<(String, StoreType)>, name: Seq<char>) -> Option<
    int,
> {
    if exists|j: int| 0 <= j < fields.len() && (#[trigger] fields[j].0@) == name {
        Some(choose|j: int| 0 <= j < fields.len() && (#[trigger] fields[j].0@) == name && forall|
            k: int,
        | 0 <= k < j ==> (#[trigger] fields[k].0@) != name)
    } else {
        None
    }
}

/// Looks a field up by name: the first entry with that name, or nothing.
pub fn field_lookup<'a>(fields: &'a Vec<(String, StoreType)>, name: &String) -> (r: Option<
    &'a StoreType,
>)
    ensures
        match spec_field_lookup(fields@, name@) {
            Option::Some(j) => 0 <= j < fields@.len() && (r matches Some(t) && *t == fields@[j].1),
            Option::None => r is None,
        },
{
    let mut i: usize = 0;
    while i < fields.len()
        invariant
            i <= fields@.len(),
            forall|k: int| 0 <= k < i ==> (#[trigger] fields@[k].0@) != name@,
        decreases fields@.len() - i,
    {
        if fields[i].0.eq(name) {
            proof {
                assert(fields@[i as int].0@ == name@);
                let j = choose|j: int|
                    0 <= j < fields@.len() && (#[trigger] fields@[j].0@) == name@ && forall|k: int|
                        0 <= k < j ==> (#[trigger] fields@[k].0@) != name@;
                assert(spec_field_lookup(fields@, name@) == Some(j));
                assert(j == i as int);
            }
            return Some(&fields[i].1);
        }
        i = i + 1;
    }
    None
}

} // verus!
