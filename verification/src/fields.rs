//! The per-resource field selection registries and the machinery shared
//! between them: a naming trait and the CSV rendering of a selection.

use vstd::prelude::*;

use crate::wire::{join_csv, spec_csv};

pub mod character;
pub mod producer;
pub mod release;
pub mod staff;
pub mod tag;
pub mod traits;
pub mod ulist;
pub mod vn;

verus! {

/// A selectable field with a fixed wire name.
pub trait WireField: Sized + Copy {
    /// The dotted field path as it appears on the wire.
    spec fn spec_wire(self) -> Seq<char>;

    /// Returns the wire name.
    fn wire_name(self) -> (r: &'static str)
        ensures
            r@ == self.spec_wire(),
    ;
}

/// Joins the wire names of the chosen fields with `,`, in order.
pub fn fields_csv<F: WireField>(choices: &Vec<F>) -> (r: String)
    ensures
        r@ == spec_csv(choices@.map_values(|f: F| f.spec_wire())),
{
    let mut names: Vec<String> = Vec::new();
    for i in 0..choices.len()
        invariant
            names@.len() == i as int,
            forall|k: int| 0 <= k < i as int ==> names@[k]@ == choices@[k].spec_wire(),
    {
        names.push(choices[i].wire_name().to_owned());
    }
    proof {
        assert(names@.map_values(|s: String| s@) =~= choices@.map_values(|f: F| f.spec_wire()));
    }
    join_csv(&names)
}

} // verus!
