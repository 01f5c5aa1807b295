use vstd::prelude::*;

verus! {

/// A decoded frame, as far as the stages look at it: its presentation time.
#[derive(Debug, Clone, Copy, PartialEq, Eq, Structural)]
pub struct Frame {
    pub pts: i64,
}

impl Frame {
    pub fn new(pts: i64) -> (frame: Frame)
        ensures
            frame.pts == pts,
    {
        Frame { pts }
    }

    pub fn get_pts(&self) -> (pts: i64)
        ensures
            pts == self.pts,
    {
        self.pts
    }
}

} // verus!
