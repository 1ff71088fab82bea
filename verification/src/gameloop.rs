//! The hooks of the embedding program.

use vstd::prelude::*;
use crate::graphics::WgpuRenderer;
use crate::time::Time;

verus! {

/// What a hook is handed: the frame clock to read, and the renderer to
/// resize or to present with. It gives no access to the platform's window
/// or to its events.
pub struct EngineContext<'a> {
    pub timer: &'a Time,
    pub renderer: &'a mut WgpuRenderer,
}

/// The simulation that the shell drives. `start` runs once, after the
/// window and the renderer exist; `update` runs once per frame tick.
/// Nothing is asked of either, and the shell relies on nothing that they
/// do to the renderer.
pub trait GameLoop {
    fn start(&mut self, c: &mut EngineContext);

    fn update(&mut self, c: &mut EngineContext);
}

} // verus!
