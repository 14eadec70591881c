//! What the operations of the library are for.
//!
//! The laws here speak of calls: of what a function was given and what it gave back, or of how
//! several calls relate.  They name the values themselves and no model of an operation.
use vstd::prelude::*;
use crate::text::views;

pub mod adapting;
pub mod beginning;
pub mod carrying;
pub mod controlling;
pub mod conversing;
pub mod desktop;
pub mod finding;
pub mod hosting;
pub mod phrasing;
pub mod preparing;
pub mod rendering;
pub mod serving;
pub mod windows;
pub mod wording;

verus! {

/// Both are absent, or both are the same text.
pub open spec fn same_option(a: Option<String>, b: Option<String>) -> bool {
    match (a, b) {
        (Some(x), Some(y)) => x@ == y@,
        (None, None) => true,
        _ => false,
    }
}

/// The same texts in the same order.
pub open spec fn same_list(a: Seq<String>, b: Seq<String>) -> bool {
    a.len() == b.len() && forall|i: int| 0 <= i < a.len() ==> (#[trigger] a[i])@ == b[i]@
}

pub(crate) proof fn lists_agree(a: Seq<String>, b: Seq<String>)
    requires
        views(a) == views(b),
    ensures
        same_list(a, b),
{
    assert(views(a).len() == a.len() && views(b).len() == b.len());
    assert forall|i: int| 0 <= i < a.len() implies (#[trigger] a[i])@ == b[i]@ by {
        assert(views(a)[i] == a[i]@ && views(b)[i] == b[i]@);
    }
}

} // verus!
