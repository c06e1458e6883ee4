//! The demo scene's bookkeeping: the entities it spawned, in order. The
//! scene setup and the per-frame logic drive the engine from outside.

use vstd::prelude::*;

verus! {

pub struct Game {
    pub entities: Vec<u32>,
}

impl Game {
    pub fn new() -> (g: Game)
        ensures
            g.entities@ == Seq::<u32>::empty(),
    {
        Game { entities: Vec::new() }
    }
}

} // verus!
