use vstd::prelude::*;
use crate::rotation::{RotationPlane, PLANE_COUNT};

verus! {

/// The viewer's control state: which rotation plane is selected, whether auto-rotation is on,
/// and whether the viewer is still running. The rotation angles themselves are real numbers
/// and are kept by the caller beside this state.
pub struct App {
    /// Index of the selected rotation plane (0..9).
    pub active_plane: usize,
    /// Whether auto-rotation is enabled.
    pub auto_rotate: bool,
    /// Whether the viewer is still running.
    pub running: bool,
}

/// The rotations that one frame of auto-rotation applies: the selected plane at the full
/// auto-rotation speed, and the secondary plane WV at a slower speed.
#[derive(Debug, Clone, Copy, PartialEq, Eq, Structural)]
pub struct AutoRotation {
    pub primary: RotationPlane,
    pub secondary: RotationPlane,
}

impl App {
    /// The selected plane index names one of the ten planes.
    pub open spec fn wf(&self) -> bool {
        self.active_plane < PLANE_COUNT
    }

    /// The state after asking to select plane `index`: indices beyond the ten planes are ignored.
    pub open spec fn with_plane_selected(self, index: int) -> App {
        if 0 <= index < PLANE_COUNT {
            App { active_plane: index as usize, ..self }
        } else {
            self
        }
    }

    /// The state with auto-rotation switched over.
    pub open spec fn with_auto_rotate_toggled(self) -> App {
        App { auto_rotate: !self.auto_rotate, ..self }
    }

    /// The state after a request to quit.
    pub open spec fn stopped(self) -> App {
        App { running: false, ..self }
    }

    /// The initial state: plane XY selected, auto-rotation off, running.
    pub fn new() -> (app: App)
        ensures
            app.active_plane == 0,
            !app.auto_rotate,
            app.running,
            app.wf(),
    {
        App { active_plane: 0, auto_rotate: false, running: true }
    }

    /// The selected rotation plane.
    pub fn selected_plane(&self) -> (p: RotationPlane)
        requires
            self.wf(),
        ensures
            p.spec_index() == self.active_plane,
    {
        proof {
            crate::rotation::lemma_all_in_canonical_order();
        }
        RotationPlane::ALL[self.active_plane]
    }

    /// The rotations that one frame applies: none when auto-rotation is off; otherwise the
    /// selected plane, and, slowly, the secondary plane WV.
    pub fn update(&self) -> (steps: Option<AutoRotation>)
        requires
            self.auto_rotate ==> self.wf(),
        ensures
            steps is Some <==> self.auto_rotate,
            steps matches Some(s) ==> {
                &&& s.primary.spec_index() == self.active_plane
                &&& s.secondary == RotationPlane::WV
            },
    {
        if self.auto_rotate {
            let primary = self.selected_plane();
            Some(AutoRotation { primary, secondary: RotationPlane::WV })
        } else {
            None
        }
    }

    /// Selects the rotation plane of the given index; an index beyond the ten planes is ignored.
    pub fn select_plane(&mut self, index: usize)
        ensures
            *final(self) == old(self).with_plane_selected(index as int),
    {
        if index < PLANE_COUNT {
            self.active_plane = index;
        }
    }

    /// Switches auto-rotation on or off.
    pub fn toggle_auto_rotate(&mut self)
        ensures
            *final(self) == old(self).with_auto_rotate_toggled(),
    {
        self.auto_rotate = !self.auto_rotate;
    }

    /// Asks the viewer to stop.
    pub fn quit(&mut self)
        ensures
            *final(self) == old(self).stopped(),
    {
        self.running = false;
    }
}

impl Default for App {
    fn default() -> (app: App)
        ensures
            app.active_plane == 0,
            !app.auto_rotate,
            app.running,
            app.wf(),
    {
        App::new()
    }
}

/// Every transition keeps the selected plane index among the ten planes.
pub proof fn lemma_transitions_keep_wf(app: App, index: int)
    requires
        app.wf(),
    ensures
        app.with_plane_selected(index).wf(),
        app.with_auto_rotate_toggled().wf(),
        app.stopped().wf(),
{
}

/// Switching auto-rotation flips it in every state and changes nothing else; quitting sets
/// running to false in every state and changes nothing else.
pub proof fn lemma_toggle_and_quit(app: App)
    ensures
        app.with_auto_rotate_toggled() == (App {
            active_plane: app.active_plane,
            auto_rotate: !app.auto_rotate,
            running: app.running,
        }),
        app.stopped() == (App {
            active_plane: app.active_plane,
            auto_rotate: app.auto_rotate,
            running: false,
        }),
{
}

/// Switching auto-rotation twice gives back the state one started from.
pub proof fn lemma_toggle_twice(app: App)
    ensures
        app.with_auto_rotate_toggled().with_auto_rotate_toggled() == app,
{
}

/// Selecting a plane changes only the selected plane, and only when the index names a plane;
/// selecting the same plane again changes nothing.
pub proof fn lemma_select_plane(app: App, index: int)
    ensures
        app.with_plane_selected(index).auto_rotate == app.auto_rotate,
        app.with_plane_selected(index).running == app.running,
        0 <= index < PLANE_COUNT ==> app.with_plane_selected(index).active_plane == index,
        !(0 <= index < PLANE_COUNT) ==> app.with_plane_selected(index) == app,
        app.with_plane_selected(index).with_plane_selected(index) == app.with_plane_selected(index),
{
}

} // verus!
