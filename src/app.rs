//! How a program is laid out: which sides of the protocol run in this process.

use vstd::prelude::*;

use crate::common::Component;
use crate::gui::{GuiData, WidgetView};
use crate::manager::Manager;
use crate::common::ToGuiLoopMessage;

verus! {

/// Visualization mode.
#[derive(Clone, Copy, Debug, PartialEq, Eq, Structural)]
pub enum VVizMode {
    /// The presentation side runs in this process: a local window and render loop.
    Local,
    /// The presentation side runs in another process, connected over a websocket.
    Remote,
}

/// Application arguments.
#[derive(Clone, Copy, Debug, PartialEq, Eq, Structural)]
pub struct Args {
    /// Visualization mode.
    pub mode: VVizMode,
}

/// The state with which a program starts: a fresh control side, and, in local mode, a
/// fresh presentation side in the same process. In remote mode the presentation side's
/// store lives in the other process.
pub fn spawn(mode: VVizMode) -> (r: (Manager, Option<GuiData>))
    ensures
        r.0.mirror() == Seq::<(Seq<char>, Component)>::empty(),
        r.0.queue() == Seq::<ToGuiLoopMessage>::empty(),
        r.1 is Some <==> mode == VVizMode::Local,
        r.1 is Some ==> r.1->0.component_view() == Seq::<(Seq<char>, Component)>::empty()
            && r.1->0.widget_view() == Seq::<(Seq<char>, WidgetView)>::empty(),
{
    let manager = Manager::new();
    match mode {
        VVizMode::Local => (manager, Some(GuiData::new())),
        VVizMode::Remote => (manager, None),
    }
}

} // verus!
