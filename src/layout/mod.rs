use vstd::prelude::*;

pub mod scrolling;

verus! {

} // verus!
