//! The state that the user interface keeps between frames.

use vstd::prelude::*;

verus! {

/// What the user has chosen to see.
#[derive(Clone, Copy, Debug, PartialEq, Eq)]
pub struct Gui {
    /// Index of the model on display. It starts at 0, on the assumption that the
    /// scene holds at least one model.
    pub selected_model: usize,
    /// Whether the skeleton is drawn inside the mesh.
    pub draw_skeleton: bool,
    /// Whether the mesh is drawn.
    pub mesh_visible: bool,
}

impl Gui {
    pub fn new() -> (gui: Gui)
        ensures
            gui.selected_model == 0,
            !gui.draw_skeleton,
            gui.mesh_visible,
    {
        Gui { selected_model: 0, draw_skeleton: false, mesh_visible: true }
    }

    /// Puts the model at `index` on display.
    pub fn select_model(&mut self, index: usize)
        ensures
            final(self).selected_model == index,
            final(self).draw_skeleton == old(self).draw_skeleton,
            final(self).mesh_visible == old(self).mesh_visible,
    {
        self.selected_model = index;
    }

    /// Switches the skeleton view on or off.
    pub fn toggle_skeleton(&mut self)
        ensures
            final(self).draw_skeleton == !old(self).draw_skeleton,
            final(self).selected_model == old(self).selected_model,
            final(self).mesh_visible == old(self).mesh_visible,
    {
        self.draw_skeleton = !self.draw_skeleton;
    }

    /// Switches the mesh on or off.
    pub fn toggle_mesh(&mut self)
        ensures
            final(self).mesh_visible == !old(self).mesh_visible,
            final(self).selected_model == old(self).selected_model,
            final(self).draw_skeleton == old(self).draw_skeleton,
    {
        self.mesh_visible = !self.mesh_visible;
    }
}

/// Selection state of the scene view.
#[derive(Clone, Copy, Debug, PartialEq, Eq)]
pub struct GuiState {
    pub selected_node: Option<u32>,
    /// Index of the model on display. It starts at 0, on the assumption that the
    /// scene holds at least one model.
    pub selected_model: usize,
    /// Whether joints are visible inside the mesh.
    pub debug_joints: bool,
}

impl GuiState {
    pub fn new() -> (state: GuiState)
        ensures
            state.selected_node.is_none(),
            state.selected_model == 0,
            state.debug_joints,
    {
        GuiState { selected_node: None, selected_model: 0, debug_joints: true }
    }
}

/// The rendering switches that the shaders read.
#[derive(Clone, Copy, Debug, PartialEq, Eq)]
pub struct Settings {
    pub do_skinning: bool,
}

impl Settings {
    pub fn new() -> (settings: Settings)
        ensures
            !settings.do_skinning,
    {
        Settings { do_skinning: false }
    }

    /// The switch as the integer that the shader reads: 1 for on, 0 for off.
    pub fn flag(&self) -> (n: i32)
        ensures
            n == if self.do_skinning { 1i32 } else { 0i32 },
    {
        if self.do_skinning {
            1
        } else {
            0
        }
    }
}

} // verus!
