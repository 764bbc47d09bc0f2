//! How a sound is to be played.

use vstd::prelude::*;

verus! {

/// Whether a sound starts over when it has ended.
#[allow(non_camel_case_types)]
#[derive(Clone, Copy, Debug, PartialEq, Eq, Structural)]
pub enum LOOPING {
    NO,
    YES,
}

} // verus!
