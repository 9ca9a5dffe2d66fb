//! The modes that a shell starts with.

use vstd::prelude::*;
use crate::sh::mode::{Mode, ModeView};

pub mod bookmark;

verus! {

/// The content of the default modes: the bookmark mode alone.
pub open spec fn all_view<A>() -> Seq<ModeView<A>> {
    seq![bookmark::mode_view()]
}

/// The default modes.
pub fn all<A>() -> (modes: Vec<Mode<A>>)
    ensures
        modes.deep_view() == all_view::<A>(),
{
    let mut modes = Vec::new();
    modes.push(bookmark::mode());
    modes
}

} // verus!
