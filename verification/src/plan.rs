use vstd::prelude::*;
use crate::controls::ControlScheme;
use crate::menu::{MenuWidgets, ShadowSettings, MouseFlags, check_box_sync, flags_of};
use crate::video::{
    VideoMode, filter_video_modes, is_offered, offered_positions, video_mode_labels, video_mode_text,
};

verus! {

/// The row of the controls tab at which the first binding stands; the rows
/// above hold mouse sensitivity, inverse mouse Y, smooth mouse and shake
/// camera.
pub const FIRST_BINDING_ROW: usize = 4;

/// The states the check boxes of a new menu start in.
#[derive(Clone, Copy, Debug, PartialEq, Eq, Structural)]
pub struct InitialChecks {
    pub fullscreen: bool,
    pub spot_shadows: bool,
    pub soft_spot_shadows: bool,
    pub point_shadows: bool,
    pub soft_point_shadows: bool,
    pub use_hrtf: bool,
    pub mouse_y_inverse: bool,
    pub smooth_mouse: bool,
    pub shake_camera: bool,
}

/// What a new options menu is built from.
pub struct MenuPlan {
    /// The video modes of the list, in order.
    pub video_modes: Vec<VideoMode>,
    /// The position of each of them among the modes the monitor reported.
    pub video_mode_positions: Vec<usize>,
    /// The text of each entry of the list.
    pub video_mode_labels: Vec<String>,
    pub checks: InitialChecks,
    /// The row of the controls tab of each binding, in order.
    pub control_rows: Vec<usize>,
    /// The row of the controls tab that holds its reset button.
    pub reset_controls_row: usize,
    /// The number of rows of the controls tab.
    pub controls_row_count: usize,
}

/// A new menu starts windowed, with HRTF on, and with the other check
/// boxes showing the renderer's settings and the control scheme's flags.
pub open spec fn initial_checks(settings: ShadowSettings, f: MouseFlags) -> InitialChecks {
    InitialChecks {
        fullscreen: false,
        spot_shadows: settings.spot_shadows_enabled,
        soft_spot_shadows: settings.spot_soft_shadows,
        point_shadows: settings.point_shadows_enabled,
        soft_point_shadows: settings.point_soft_shadows,
        use_hrtf: true,
        mouse_y_inverse: f.mouse_y_inverse,
        smooth_mouse: f.smooth_mouse,
        shake_camera: f.shake_camera,
    }
}

/// The row of the binding at position `i` of the controls tab.
pub open spec fn binding_row(i: int) -> int {
    i + FIRST_BINDING_ROW
}

/// Plans a new options menu from the video modes the monitor reports, the
/// renderer's on/off settings and the control scheme: the offered modes
/// and their list texts, the initial check states, and the rows of the
/// controls tab (one per binding below the four mouse rows, then the reset
/// button).
pub fn plan_menu<K>(
    available: &Vec<VideoMode>,
    settings: ShadowSettings,
    scheme: &ControlScheme<K>,
) -> (plan: MenuPlan)
    requires
        scheme.buttons@.len() + FIRST_BINDING_ROW + 1 <= usize::MAX,
    ensures
        plan.video_modes@ == available@.filter(|m: VideoMode| is_offered(m)),
        plan.video_mode_positions@.map_values(|p: usize| available@[p as int]) == plan.video_modes@,
        forall|k: int|
            0 <= k < plan.video_mode_positions@.len() ==> #[trigger] plan.video_mode_positions@[k]
                < available@.len(),
        forall|k: int, l: int|
            0 <= k < l < plan.video_mode_positions@.len() ==> plan.video_mode_positions@[k]
                < plan.video_mode_positions@[l],
        forall|i: int|
            0 <= i < available@.len() && is_offered(#[trigger] available@[i])
                ==> plan.video_mode_positions@.contains(i as usize),
        plan.video_mode_labels@.len() == plan.video_modes@.len(),
        forall|i: int|
            0 <= i < plan.video_modes@.len() ==> #[trigger] plan.video_mode_labels@[i]@
                == video_mode_text(plan.video_modes@[i]),
        plan.checks == initial_checks(settings, flags_of(*scheme)),
        !plan.checks.fullscreen,
        plan.checks.use_hrtf,
        plan.checks.spot_shadows == settings.spot_shadows_enabled,
        plan.checks.soft_spot_shadows == settings.spot_soft_shadows,
        plan.checks.point_shadows == settings.point_shadows_enabled,
        plan.checks.soft_point_shadows == settings.point_soft_shadows,
        plan.checks.mouse_y_inverse == scheme.mouse_y_inverse,
        plan.checks.smooth_mouse == scheme.smooth_mouse,
        plan.checks.shake_camera == scheme.shake_camera,
        forall|i: int| 0 <= i < scheme.buttons@.len() ==> #[trigger] plan.control_rows@[i] == i + 4,
        plan.reset_controls_row == scheme.buttons@.len() + 4,
        plan.controls_row_count == scheme.buttons@.len() + 5,
        plan.control_rows@.len() == scheme.buttons@.len(),
        forall|i: int|
            0 <= i < scheme.buttons@.len() ==> #[trigger] plan.control_rows@[i] == binding_row(i),
        plan.reset_controls_row == scheme.buttons@.len() + FIRST_BINDING_ROW,
        plan.controls_row_count == scheme.buttons@.len() + FIRST_BINDING_ROW + 1,
{
    let video_modes = filter_video_modes(available);
    let video_mode_positions = offered_positions(available);
    let video_mode_labels = video_mode_labels(&video_modes);
    let checks = InitialChecks {
        fullscreen: false,
        spot_shadows: settings.spot_shadows_enabled,
        soft_spot_shadows: settings.spot_soft_shadows,
        point_shadows: settings.point_shadows_enabled,
        soft_point_shadows: settings.point_soft_shadows,
        use_hrtf: true,
        mouse_y_inverse: scheme.mouse_y_inverse,
        smooth_mouse: scheme.smooth_mouse,
        shake_camera: scheme.shake_camera,
    };
    let n = scheme.buttons.len();
    let mut control_rows: Vec<usize> = Vec::new();
    let mut i: usize = 0;
    while i < n
        invariant
            n == scheme.buttons@.len(),
            n + FIRST_BINDING_ROW + 1 <= usize::MAX,
            i <= n,
            control_rows@.len() == i,
            forall|j: int| 0 <= j < i ==> #[trigger] control_rows@[j] == binding_row(j),
        decreases n - i,
    {
        control_rows.push(i + FIRST_BINDING_ROW);
        i = i + 1;
    }
    MenuPlan {
        video_modes,
        video_mode_positions,
        video_mode_labels,
        checks,
        control_rows,
        reset_controls_row: n + FIRST_BINDING_ROW,
        controls_row_count: n + FIRST_BINDING_ROW + 1,
    }
}

/// A new menu's check boxes start as the menu would show them once
/// synchronised with HRTF on: each shadow box shows the renderer setting of
/// the same name and each mouse box the control scheme's flag of the same
/// name; the full-screen box starts unticked and the HRTF box ticked.
pub proof fn law_initial_checks_match_sync(w: MenuWidgets, s: ShadowSettings, f: MouseFlags)
    ensures
        ({
            let c = initial_checks(s, f);
            let sync = check_box_sync(w, s, f, true);
            &&& !c.fullscreen
            &&& c.spot_shadows == s.spot_shadows_enabled
            &&& c.soft_spot_shadows == s.spot_soft_shadows
            &&& c.point_shadows == s.point_shadows_enabled
            &&& c.soft_point_shadows == s.point_soft_shadows
            &&& c.mouse_y_inverse == f.mouse_y_inverse
            &&& c.smooth_mouse == f.smooth_mouse
            &&& c.shake_camera == f.shake_camera
            &&& c.use_hrtf
            &&& sync.contains((w.cb_spot_shadows, c.spot_shadows))
            &&& sync.contains((w.cb_soft_spot_shadows, c.soft_spot_shadows))
            &&& sync.contains((w.cb_point_shadows, c.point_shadows))
            &&& sync.contains((w.cb_soft_point_shadows, c.soft_point_shadows))
            &&& sync.contains((w.cb_mouse_y_inverse, c.mouse_y_inverse))
            &&& sync.contains((w.cb_smooth_mouse, c.smooth_mouse))
            &&& sync.contains((w.cb_shake_camera, c.shake_camera))
            &&& sync.contains((w.cb_use_hrtf, c.use_hrtf))
        }),
{
    let sync = check_box_sync(w, s, f, true);
    assert(sync[0] == (w.cb_spot_shadows, s.spot_shadows_enabled));
    assert(sync[1] == (w.cb_soft_spot_shadows, s.spot_soft_shadows));
    assert(sync[2] == (w.cb_point_shadows, s.point_shadows_enabled));
    assert(sync[3] == (w.cb_soft_point_shadows, s.point_soft_shadows));
    assert(sync[4] == (w.cb_mouse_y_inverse, f.mouse_y_inverse));
    assert(sync[5] == (w.cb_smooth_mouse, f.smooth_mouse));
    assert(sync[6] == (w.cb_shake_camera, f.shake_camera));
    assert(sync[7] == (w.cb_use_hrtf, true));
}

} // verus!
