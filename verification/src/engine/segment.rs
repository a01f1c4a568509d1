use vstd::prelude::*;

verus! {

/// The rendered text of one segment.
pub struct SegmentOutput {
    pub text: String,
}

/// The text of a rendered segment, if there is one.
pub open spec fn text_of(o: Option<SegmentOutput>) -> Option<Seq<char>> {
    match o {
        Some(out) => Some(out.text@),
        None => None,
    }
}

} // verus!
