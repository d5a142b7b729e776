use vstd::prelude::*;
use crate::controls::ControlHandler;
use crate::world::World;

verus! {

/// The shared context threaded through every state and overlay call: the
/// control mapping and the world. Frame-rate figures and asset handles are
/// render-side and live with the platform layer.
///
/// `control_reload_needed` is raised when a state's restore asks for the
/// persisted control bindings to be re-read; the caller that owns the
/// persistence performs the read and answers through `reload_controls`.
#[derive(Debug)]
pub struct GameData {
    pub control_handler: ControlHandler,
    pub world: World,
    pub control_reload_needed: bool,
}

impl GameData {
    pub fn new(control_handler: ControlHandler, world: World) -> (r: Self)
        ensures
            r.control_handler == control_handler,
            r.world == world,
            r.control_reload_needed == false,
    {
        GameData { control_handler, world, control_reload_needed: false }
    }

    /// Installs a freshly loaded control mapping, answering a pending reload
    /// request; a failed load is reported with a message and changes
    /// nothing.
    pub fn reload_controls(&mut self, loaded: Result<ControlHandler, String>) -> (r: Result<
        (),
        String,
    >)
        ensures
            loaded matches Ok(c) ==> r is Ok && final(self).control_handler == c
                && final(self).world == old(self).world
                && final(self).control_reload_needed == false,
            loaded matches Err(e) ==> (r matches Err(m) && *final(self) == *old(self) && m@
                == "Failed to load control handler: "@ + e@),
    {
        match loaded {
            Ok(c) => {
                self.control_handler = c;
                self.control_reload_needed = false;
                Ok(())
            },
            Err(e) => {
                let mut m = "Failed to load control handler: ".to_owned();
                m.append(e.as_str());
                Err(m)
            },
        }
    }
}

} // verus!
