//! The release-list patch: sets the status of a release in the user's
//! list.

use vstd::prelude::*;

use crate::ulist::UListStatus;
use crate::wire::{dec_u8, spec_dec_u8, spec_obj, spec_opt_pair, spec_quoted};

verus! {

/// A partial update of one release in the user's list.
#[derive(Clone, Copy, PartialEq, Eq, Structural, Debug)]
pub struct RListPatch {
    pub status: Option<UListStatus>,
}

/// The members of the patch body: the status code when set, nothing
/// otherwise.
pub open spec fn spec_rlist_pairs(p: RListPatch) -> Seq<Seq<char>> {
    spec_opt_pair(
        "status"@,
        match p.status {
            Option::Some(s) => Option::Some(spec_dec_u8(s.spec_code())),
            Option::None => Option::None,
        },
    )
}

/// The complete JSON patch body.
pub open spec fn spec_rlist_wire(p: RListPatch) -> Seq<char> {
    spec_obj(spec_rlist_pairs(p))
}

impl RListPatch {
    /// A patch with the status set to `Unknown`.
    pub fn new() -> (r: Self)
        ensures
            r.status == Some(UListStatus::Unknown),
    {
        RListPatch { status: Some(UListStatus::Unknown) }
    }

    /// Sets the status.
    pub fn status(self, s: UListStatus) -> (r: Self)
        ensures
            r.status == Some(s),
    {
        let mut b = self;
        b.status = Some(s);
        b
    }

    /// Renders the patch body.
    pub fn to_json(&self) -> (r: String)
        ensures
            r@ == spec_rlist_wire(*self),
    {
        let mut out = String::new();
        out.append("{");
        if let Some(s) = self.status {
            out.append("\"status\":");
            out.append(dec_u8(s.code()).as_str());
            proof {
                reveal_strlit("\"status\":");
                reveal_strlit("status");
                assert("\"status\":"@ =~= spec_quoted("status"@) + seq![':']);
            }
        }
        out.append("}");
        proof {
            reveal_strlit("{");
            reveal_strlit("}");
            assert("{"@ =~= seq!['{']);
            assert("}"@ =~= seq!['}']);
            assert(out@ =~= spec_rlist_wire(*self));
        }
        out
    }
}

} // verus!
