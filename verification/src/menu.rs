use vstd::prelude::*;
use crate::controls::{
    ControlButton, ControlButtonDefinition, ControlScheme, InputEvent, control_button_of,
    designated_button,
};
use crate::video::VideoMode;
use crate::plan::MenuPlan;

verus! {

/// A handle of a widget of the user interface: its slot in the widget
/// pool and the generation of that slot.
#[derive(Clone, Copy, Debug, PartialEq, Eq, Structural)]
pub struct WidgetHandle {
    pub index: u32,
    pub generation: u32,
}

/// The widgets of the options menu that its logic tells apart.
#[derive(Clone, Copy, Debug, PartialEq, Eq, Structural)]
pub struct MenuWidgets {
    pub window: WidgetHandle,
    pub sb_sound_volume: WidgetHandle,
    pub sb_music_volume: WidgetHandle,
    pub lb_video_modes: WidgetHandle,
    pub cb_fullscreen: WidgetHandle,
    pub cb_spot_shadows: WidgetHandle,
    pub cb_soft_spot_shadows: WidgetHandle,
    pub cb_point_shadows: WidgetHandle,
    pub cb_soft_point_shadows: WidgetHandle,
    pub sb_point_shadow_distance: WidgetHandle,
    pub sb_spot_shadow_distance: WidgetHandle,
    pub sb_mouse_sens: WidgetHandle,
    pub cb_mouse_y_inverse: WidgetHandle,
    pub cb_smooth_mouse: WidgetHandle,
    pub cb_shake_camera: WidgetHandle,
    pub btn_reset_control_scheme: WidgetHandle,
    pub cb_use_hrtf: WidgetHandle,
    pub btn_reset_audio_settings: WidgetHandle,
}

/// The on/off part of the renderer's quality settings.
#[derive(Clone, Copy, Debug, PartialEq, Eq, Structural)]
pub struct ShadowSettings {
    pub spot_shadows_enabled: bool,
    pub spot_soft_shadows: bool,
    pub point_shadows_enabled: bool,
    pub point_soft_shadows: bool,
}

/// The mouse flags of a control scheme.
#[derive(Clone, Copy, Debug, PartialEq, Eq, Structural)]
pub struct MouseFlags {
    pub mouse_y_inverse: bool,
    pub smooth_mouse: bool,
    pub shake_camera: bool,
}

/// A numeric setting that a scroll bar of the menu stands for.
#[derive(Clone, Copy, Debug, PartialEq, Eq, Structural)]
pub enum NumericSetting {
    /// The master gain of the sound context.
    SoundVolume,
    PointShadowDistance,
    SpotShadowDistance,
    MouseSensitivity,
    MusicVolume,
}

/// A reset that a button of the menu asks for.
#[derive(Clone, Copy, Debug, PartialEq, Eq, Structural)]
pub enum ResetRequest {
    /// Restore the default control scheme, then synchronise the menu.
    ControlScheme,
    /// Restore the master gain to 1, then synchronise the menu.
    AudioSettings,
}

/// What happened to a widget. A numeric change carries its new value
/// separately, with the caller.
#[derive(Clone, Copy, Debug, PartialEq, Eq)]
pub enum UiEventKind {
    NumericValueChanged,
    SelectionChanged(Option<usize>),
    Checked(Option<bool>),
    Click,
    Other,
}

/// An event of the user interface and the widget it came from.
#[derive(Clone, Copy, Debug, PartialEq, Eq)]
pub struct UiEvent {
    pub source: WidgetHandle,
    pub kind: UiEventKind,
}

/// What the caller must do after a user interface event.
#[derive(Clone, Copy, Debug, PartialEq, Eq)]
pub struct UiResponse {
    /// The setting that receives the new value of a numeric change.
    pub numeric: Option<NumericSetting>,
    /// The mode to switch the window to, exclusively full-screen.
    pub fullscreen: Option<VideoMode>,
    /// The on/off quality settings after the event; where they differ
    /// from the ones handed in, the renderer is to get them.
    pub settings: ShadowSettings,
    pub reset: Option<ResetRequest>,
    /// The binding whose button now waits for an input; its label is to
    /// read `[WAITING INPUT]`.
    pub awaiting_input: Option<usize>,
}

/// What the widgets must be set to so that they show the model.
pub struct SyncPlan<K> {
    pub check_boxes: Vec<(WidgetHandle, bool)>,
    pub scroll_bars: Vec<(WidgetHandle, NumericSetting)>,
    /// A binding's button widget and the button whose name it must show.
    pub button_labels: Vec<(WidgetHandle, ControlButton<K>)>,
}

/// The options menu: the widgets it reacts to, the video modes of its
/// list, one button widget per binding of the control scheme, and the
/// binding that waits for an input, if any.
pub struct OptionsMenu {
    widgets: MenuWidgets,
    video_modes: Vec<VideoMode>,
    control_scheme_buttons: Vec<WidgetHandle>,
    active_control_button: Option<usize>,
}

/// The state of an options menu.
pub struct MenuView {
    pub widgets: MenuWidgets,
    pub video_modes: Seq<VideoMode>,
    pub control_scheme_buttons: Seq<WidgetHandle>,
    pub active_control_button: Option<usize>,
}

/// The named widgets of the menu, in a fixed order.
pub open spec fn named_handles(w: MenuWidgets) -> Seq<WidgetHandle> {
    seq![
        w.window,
        w.sb_sound_volume,
        w.sb_music_volume,
        w.lb_video_modes,
        w.cb_fullscreen,
        w.cb_spot_shadows,
        w.cb_soft_spot_shadows,
        w.cb_point_shadows,
        w.cb_soft_point_shadows,
        w.sb_point_shadow_distance,
        w.sb_spot_shadow_distance,
        w.sb_mouse_sens,
        w.cb_mouse_y_inverse,
        w.cb_smooth_mouse,
        w.cb_shake_camera,
        w.btn_reset_control_scheme,
        w.cb_use_hrtf,
        w.btn_reset_audio_settings,
    ]
}

/// Every widget of the menu: the named ones, then the button of each
/// binding.
pub open spec fn all_handles(w: MenuWidgets, buttons: Seq<WidgetHandle>) -> Seq<WidgetHandle> {
    named_handles(w) + buttons
}

/// No two named widgets of the menu are the same widget.
pub open spec fn named_distinct(w: MenuWidgets) -> bool {
    &&& w.window != w.sb_sound_volume
    &&& w.window != w.sb_music_volume
    &&& w.window != w.lb_video_modes
    &&& w.window != w.cb_fullscreen
    &&& w.window != w.cb_spot_shadows
    &&& w.window != w.cb_soft_spot_shadows
    &&& w.window != w.cb_point_shadows
    &&& w.window != w.cb_soft_point_shadows
    &&& w.window != w.sb_point_shadow_distance
    &&& w.window != w.sb_spot_shadow_distance
    &&& w.window != w.sb_mouse_sens
    &&& w.window != w.cb_mouse_y_inverse
    &&& w.window != w.cb_smooth_mouse
    &&& w.window != w.cb_shake_camera
    &&& w.window != w.btn_reset_control_scheme
    &&& w.window != w.cb_use_hrtf
    &&& w.window != w.btn_reset_audio_settings
    &&& w.sb_sound_volume != w.sb_music_volume
    &&& w.sb_sound_volume != w.lb_video_modes
    &&& w.sb_sound_volume != w.cb_fullscreen
    &&& w.sb_sound_volume != w.cb_spot_shadows
    &&& w.sb_sound_volume != w.cb_soft_spot_shadows
    &&& w.sb_sound_volume != w.cb_point_shadows
    &&& w.sb_sound_volume != w.cb_soft_point_shadows
    &&& w.sb_sound_volume != w.sb_point_shadow_distance
    &&& w.sb_sound_volume != w.sb_spot_shadow_distance
    &&& w.sb_sound_volume != w.sb_mouse_sens
    &&& w.sb_sound_volume != w.cb_mouse_y_inverse
    &&& w.sb_sound_volume != w.cb_smooth_mouse
    &&& w.sb_sound_volume != w.cb_shake_camera
    &&& w.sb_sound_volume != w.btn_reset_control_scheme
    &&& w.sb_sound_volume != w.cb_use_hrtf
    &&& w.sb_sound_volume != w.btn_reset_audio_settings
    &&& w.sb_music_volume != w.lb_video_modes
    &&& w.sb_music_volume != w.cb_fullscreen
    &&& w.sb_music_volume != w.cb_spot_shadows
    &&& w.sb_music_volume != w.cb_soft_spot_shadows
    &&& w.sb_music_volume != w.cb_point_shadows
    &&& w.sb_music_volume != w.cb_soft_point_shadows
    &&& w.sb_music_volume != w.sb_point_shadow_distance
    &&& w.sb_music_volume != w.sb_spot_shadow_distance
    &&& w.sb_music_volume != w.sb_mouse_sens
    &&& w.sb_music_volume != w.cb_mouse_y_inverse
    &&& w.sb_music_volume != w.cb_smooth_mouse
    &&& w.sb_music_volume != w.cb_shake_camera
    &&& w.sb_music_volume != w.btn_reset_control_scheme
    &&& w.sb_music_volume != w.cb_use_hrtf
    &&& w.sb_music_volume != w.btn_reset_audio_settings
    &&& w.lb_video_modes != w.cb_fullscreen
    &&& w.lb_video_modes != w.cb_spot_shadows
    &&& w.lb_video_modes != w.cb_soft_spot_shadows
    &&& w.lb_video_modes != w.cb_point_shadows
    &&& w.lb_video_modes != w.cb_soft_point_shadows
    &&& w.lb_video_modes != w.sb_point_shadow_distance
    &&& w.lb_video_modes != w.sb_spot_shadow_distance
    &&& w.lb_video_modes != w.sb_mouse_sens
    &&& w.lb_video_modes != w.cb_mouse_y_inverse
    &&& w.lb_video_modes != w.cb_smooth_mouse
    &&& w.lb_video_modes != w.cb_shake_camera
    &&& w.lb_video_modes != w.btn_reset_control_scheme
    &&& w.lb_video_modes != w.cb_use_hrtf
    &&& w.lb_video_modes != w.btn_reset_audio_settings
    &&& w.cb_fullscreen != w.cb_spot_shadows
    &&& w.cb_fullscreen != w.cb_soft_spot_shadows
    &&& w.cb_fullscreen != w.cb_point_shadows
    &&& w.cb_fullscreen != w.cb_soft_point_shadows
    &&& w.cb_fullscreen != w.sb_point_shadow_distance
    &&& w.cb_fullscreen != w.sb_spot_shadow_distance
    &&& w.cb_fullscreen != w.sb_mouse_sens
    &&& w.cb_fullscreen != w.cb_mouse_y_inverse
    &&& w.cb_fullscreen != w.cb_smooth_mouse
    &&& w.cb_fullscreen != w.cb_shake_camera
    &&& w.cb_fullscreen != w.btn_reset_control_scheme
    &&& w.cb_fullscreen != w.cb_use_hrtf
    &&& w.cb_fullscreen != w.btn_reset_audio_settings
    &&& w.cb_spot_shadows != w.cb_soft_spot_shadows
    &&& w.cb_spot_shadows != w.cb_point_shadows
    &&& w.cb_spot_shadows != w.cb_soft_point_shadows
    &&& w.cb_spot_shadows != w.sb_point_shadow_distance
    &&& w.cb_spot_shadows != w.sb_spot_shadow_distance
    &&& w.cb_spot_shadows != w.sb_mouse_sens
    &&& w.cb_spot_shadows != w.cb_mouse_y_inverse
    &&& w.cb_spot_shadows != w.cb_smooth_mouse
    &&& w.cb_spot_shadows != w.cb_shake_camera
    &&& w.cb_spot_shadows != w.btn_reset_control_scheme
    &&& w.cb_spot_shadows != w.cb_use_hrtf
    &&& w.cb_spot_shadows != w.btn_reset_audio_settings
    &&& w.cb_soft_spot_shadows != w.cb_point_shadows
    &&& w.cb_soft_spot_shadows != w.cb_soft_point_shadows
    &&& w.cb_soft_spot_shadows != w.sb_point_shadow_distance
    &&& w.cb_soft_spot_shadows != w.sb_spot_shadow_distance
    &&& w.cb_soft_spot_shadows != w.sb_mouse_sens
    &&& w.cb_soft_spot_shadows != w.cb_mouse_y_inverse
    &&& w.cb_soft_spot_shadows != w.cb_smooth_mouse
    &&& w.cb_soft_spot_shadows != w.cb_shake_camera
    &&& w.cb_soft_spot_shadows != w.btn_reset_control_scheme
    &&& w.cb_soft_spot_shadows != w.cb_use_hrtf
    &&& w.cb_soft_spot_shadows != w.btn_reset_audio_settings
    &&& w.cb_point_shadows != w.cb_soft_point_shadows
    &&& w.cb_point_shadows != w.sb_point_shadow_distance
    &&& w.cb_point_shadows != w.sb_spot_shadow_distance
    &&& w.cb_point_shadows != w.sb_mouse_sens
    &&& w.cb_point_shadows != w.cb_mouse_y_inverse
    &&& w.cb_point_shadows != w.cb_smooth_mouse
    &&& w.cb_point_shadows != w.cb_shake_camera
    &&& w.cb_point_shadows != w.btn_reset_control_scheme
    &&& w.cb_point_shadows != w.cb_use_hrtf
    &&& w.cb_point_shadows != w.btn_reset_audio_settings
    &&& w.cb_soft_point_shadows != w.sb_point_shadow_distance
    &&& w.cb_soft_point_shadows != w.sb_spot_shadow_distance
    &&& w.cb_soft_point_shadows != w.sb_mouse_sens
    &&& w.cb_soft_point_shadows != w.cb_mouse_y_inverse
    &&& w.cb_soft_point_shadows != w.cb_smooth_mouse
    &&& w.cb_soft_point_shadows != w.cb_shake_camera
    &&& w.cb_soft_point_shadows != w.btn_reset_control_scheme
    &&& w.cb_soft_point_shadows != w.cb_use_hrtf
    &&& w.cb_soft_point_shadows != w.btn_reset_audio_settings
    &&& w.sb_point_shadow_distance != w.sb_spot_shadow_distance
    &&& w.sb_point_shadow_distance != w.sb_mouse_sens
    &&& w.sb_point_shadow_distance != w.cb_mouse_y_inverse
    &&& w.sb_point_shadow_distance != w.cb_smooth_mouse
    &&& w.sb_point_shadow_distance != w.cb_shake_camera
    &&& w.sb_point_shadow_distance != w.btn_reset_control_scheme
    &&& w.sb_point_shadow_distance != w.cb_use_hrtf
    &&& w.sb_point_shadow_distance != w.btn_reset_audio_settings
    &&& w.sb_spot_shadow_distance != w.sb_mouse_sens
    &&& w.sb_spot_shadow_distance != w.cb_mouse_y_inverse
    &&& w.sb_spot_shadow_distance != w.cb_smooth_mouse
    &&& w.sb_spot_shadow_distance != w.cb_shake_camera
    &&& w.sb_spot_shadow_distance != w.btn_reset_control_scheme
    &&& w.sb_spot_shadow_distance != w.cb_use_hrtf
    &&& w.sb_spot_shadow_distance != w.btn_reset_audio_settings
    &&& w.sb_mouse_sens != w.cb_mouse_y_inverse
    &&& w.sb_mouse_sens != w.cb_smooth_mouse
    &&& w.sb_mouse_sens != w.cb_shake_camera
    &&& w.sb_mouse_sens != w.btn_reset_control_scheme
    &&& w.sb_mouse_sens != w.cb_use_hrtf
    &&& w.sb_mouse_sens != w.btn_reset_audio_settings
    &&& w.cb_mouse_y_inverse != w.cb_smooth_mouse
    &&& w.cb_mouse_y_inverse != w.cb_shake_camera
    &&& w.cb_mouse_y_inverse != w.btn_reset_control_scheme
    &&& w.cb_mouse_y_inverse != w.cb_use_hrtf
    &&& w.cb_mouse_y_inverse != w.btn_reset_audio_settings
    &&& w.cb_smooth_mouse != w.cb_shake_camera
    &&& w.cb_smooth_mouse != w.btn_reset_control_scheme
    &&& w.cb_smooth_mouse != w.cb_use_hrtf
    &&& w.cb_smooth_mouse != w.btn_reset_audio_settings
    &&& w.cb_shake_camera != w.btn_reset_control_scheme
    &&& w.cb_shake_camera != w.cb_use_hrtf
    &&& w.cb_shake_camera != w.btn_reset_audio_settings
    &&& w.btn_reset_control_scheme != w.cb_use_hrtf
    &&& w.btn_reset_control_scheme != w.btn_reset_audio_settings
    &&& w.cb_use_hrtf != w.btn_reset_audio_settings
}

/// Whether `h` is the button widget of some binding.
pub open spec fn is_binding_button(buttons: Seq<WidgetHandle>, h: WidgetHandle) -> bool {
    exists|j: int| 0 <= j < buttons.len() && buttons[j] == h
}

/// In a menu whose widgets are all distinct, the named widgets differ from
/// each other and none of them is the button of a binding.
pub proof fn lemma_widgets_distinct(w: MenuWidgets, buttons: Seq<WidgetHandle>)
    requires
        all_handles(w, buttons).no_duplicates(),
    ensures
        named_distinct(w),
        !is_binding_button(buttons, w.window),
        !is_binding_button(buttons, w.sb_sound_volume),
        !is_binding_button(buttons, w.sb_music_volume),
        !is_binding_button(buttons, w.lb_video_modes),
        !is_binding_button(buttons, w.cb_fullscreen),
        !is_binding_button(buttons, w.cb_spot_shadows),
        !is_binding_button(buttons, w.cb_soft_spot_shadows),
        !is_binding_button(buttons, w.cb_point_shadows),
        !is_binding_button(buttons, w.cb_soft_point_shadows),
        !is_binding_button(buttons, w.sb_point_shadow_distance),
        !is_binding_button(buttons, w.sb_spot_shadow_distance),
        !is_binding_button(buttons, w.sb_mouse_sens),
        !is_binding_button(buttons, w.cb_mouse_y_inverse),
        !is_binding_button(buttons, w.cb_smooth_mouse),
        !is_binding_button(buttons, w.cb_shake_camera),
        !is_binding_button(buttons, w.btn_reset_control_scheme),
        !is_binding_button(buttons, w.cb_use_hrtf),
        !is_binding_button(buttons, w.btn_reset_audio_settings),
{
    let all = all_handles(w, buttons);
    assert(all[0] == w.window);
    assert(all[1] == w.sb_sound_volume);
    assert(all[2] == w.sb_music_volume);
    assert(all[3] == w.lb_video_modes);
    assert(all[4] == w.cb_fullscreen);
    assert(all[5] == w.cb_spot_shadows);
    assert(all[6] == w.cb_soft_spot_shadows);
    assert(all[7] == w.cb_point_shadows);
    assert(all[8] == w.cb_soft_point_shadows);
    assert(all[9] == w.sb_point_shadow_distance);
    assert(all[10] == w.sb_spot_shadow_distance);
    assert(all[11] == w.sb_mouse_sens);
    assert(all[12] == w.cb_mouse_y_inverse);
    assert(all[13] == w.cb_smooth_mouse);
    assert(all[14] == w.cb_shake_camera);
    assert(all[15] == w.btn_reset_control_scheme);
    assert(all[16] == w.cb_use_hrtf);
    assert(all[17] == w.btn_reset_audio_settings);
    assert forall|j: int| 0 <= j < buttons.len() implies #[trigger] buttons[j] == all[18 + j] by {}
}

impl MenuView {
    /// The widgets of the menu are distinct, as freshly built widgets are,
    /// and a binding waits for input only if it has a button widget.
    pub open spec fn wf(self) -> bool {
        &&& all_handles(self.widgets, self.control_scheme_buttons).no_duplicates()
        &&& self.active_control_button matches Some(i) ==> i < self.control_scheme_buttons.len()
    }
}

impl View for OptionsMenu {
    type V = MenuView;

    closed spec fn view(&self) -> MenuView {
        MenuView {
            widgets: self.widgets,
            video_modes: self.video_modes@,
            control_scheme_buttons: self.control_scheme_buttons@,
            active_control_button: self.active_control_button,
        }
    }
}

/// The value a check box reports, an undetermined state counting as off.
pub open spec fn checked_value(value: Option<bool>) -> bool {
    match value {
        Some(b) => b,
        None => false,
    }
}

/// The setting whose scroll bar is `source`, the first match in the order
/// sound volume, point shadow distance, spot shadow distance, mouse
/// sensitivity, music volume.
pub open spec fn numeric_target(w: MenuWidgets, source: WidgetHandle) -> Option<NumericSetting> {
    if source == w.sb_sound_volume {
        Some(NumericSetting::SoundVolume)
    } else if source == w.sb_point_shadow_distance {
        Some(NumericSetting::PointShadowDistance)
    } else if source == w.sb_spot_shadow_distance {
        Some(NumericSetting::SpotShadowDistance)
    } else if source == w.sb_mouse_sens {
        Some(NumericSetting::MouseSensitivity)
    } else if source == w.sb_music_volume {
        Some(NumericSetting::MusicVolume)
    } else {
        None
    }
}

/// Whether `source` is one of the four shadow check boxes.
pub open spec fn is_shadow_box(w: MenuWidgets, source: WidgetHandle) -> bool {
    source == w.cb_point_shadows || source == w.cb_spot_shadows || source
        == w.cb_soft_spot_shadows || source == w.cb_soft_point_shadows
}

/// The shadow settings after the check box `source` reported `value`: the
/// first matching box in the order point shadows, spot shadows, soft spot
/// shadows, soft point shadows sets its setting.
pub open spec fn checked_settings(
    w: MenuWidgets,
    source: WidgetHandle,
    value: bool,
    s: ShadowSettings,
) -> ShadowSettings {
    if source == w.cb_point_shadows {
        ShadowSettings { point_shadows_enabled: value, ..s }
    } else if source == w.cb_spot_shadows {
        ShadowSettings { spot_shadows_enabled: value, ..s }
    } else if source == w.cb_soft_spot_shadows {
        ShadowSettings { spot_soft_shadows: value, ..s }
    } else if source == w.cb_soft_point_shadows {
        ShadowSettings { point_soft_shadows: value, ..s }
    } else {
        s
    }
}

/// The mouse flags after the check box `source` reported `value`: a
/// shadow check box takes precedence and leaves them; otherwise the first
/// match in the order inverse mouse Y, smooth mouse, shake camera is set.
pub open spec fn checked_flags(
    w: MenuWidgets,
    source: WidgetHandle,
    value: bool,
    f: MouseFlags,
) -> MouseFlags {
    if is_shadow_box(w, source) {
        f
    } else if source == w.cb_mouse_y_inverse {
        MouseFlags { mouse_y_inverse: value, ..f }
    } else if source == w.cb_smooth_mouse {
        MouseFlags { smooth_mouse: value, ..f }
    } else if source == w.cb_shake_camera {
        MouseFlags { shake_camera: value, ..f }
    } else {
        f
    }
}

/// The reset that a click on `source` asks for.
pub open spec fn reset_request(w: MenuWidgets, source: WidgetHandle) -> Option<ResetRequest> {
    if source == w.btn_reset_control_scheme {
        Some(ResetRequest::ControlScheme)
    } else if source == w.btn_reset_audio_settings {
        Some(ResetRequest::AudioSettings)
    } else {
        None
    }
}

/// The last position at which `h` occurs in `handles`.
pub open spec fn last_index_of(handles: Seq<WidgetHandle>, h: WidgetHandle) -> Option<usize>
    decreases handles.len(),
{
    if handles.len() == 0 {
        None
    } else if handles.last() == h {
        Some((handles.len() - 1) as usize)
    } else {
        last_index_of(handles.drop_last(), h)
    }
}

/// The mouse flags of a control scheme.
pub open spec fn flags_of<K>(scheme: ControlScheme<K>) -> MouseFlags {
    MouseFlags {
        mouse_y_inverse: scheme.mouse_y_inverse,
        smooth_mouse: scheme.smooth_mouse,
        shake_camera: scheme.shake_camera,
    }
}

/// A response that asks for nothing and keeps the settings.
pub open spec fn quiet_response(settings: ShadowSettings) -> UiResponse {
    UiResponse {
        numeric: None,
        fullscreen: None,
        settings,
        reset: None,
        awaiting_input: None,
    }
}

/// What the caller must do after `event`, with `settings` the on/off
/// quality settings of the renderer at that moment.
pub open spec fn ui_response(m: MenuView, settings: ShadowSettings, event: UiEvent) -> UiResponse {
    let w = m.widgets;
    let source = event.source;
    match event.kind {
        UiEventKind::NumericValueChanged => UiResponse {
            numeric: numeric_target(w, source),
            ..quiet_response(settings)
        },
        UiEventKind::SelectionChanged(selection) => UiResponse {
            fullscreen: if source == w.lb_video_modes && selection is Some {
                Some(m.video_modes[selection->0 as int])
            } else {
                None
            },
            ..quiet_response(settings)
        },
        UiEventKind::Checked(value) => UiResponse {
            settings: checked_settings(w, source, checked_value(value), settings),
            ..quiet_response(settings)
        },
        UiEventKind::Click => UiResponse {
            reset: reset_request(w, source),
            awaiting_input: last_index_of(m.control_scheme_buttons, source),
            ..quiet_response(settings)
        },
        UiEventKind::Other => quiet_response(settings),
    }
}

/// The menu after `event`: a click on a binding's button makes that
/// binding wait for input; nothing else changes the menu.
pub open spec fn menu_after_ui(m: MenuView, event: UiEvent) -> MenuView {
    match event.kind {
        UiEventKind::Click => match last_index_of(m.control_scheme_buttons, event.source) {
            Some(i) => MenuView { active_control_button: Some(i), ..m },
            None => m,
        },
        _ => m,
    }
}

/// The mouse flags after `event`.
pub open spec fn flags_after_ui(m: MenuView, f: MouseFlags, event: UiEvent) -> MouseFlags {
    match event.kind {
        UiEventKind::Checked(value) => checked_flags(
            m.widgets,
            event.source,
            checked_value(value),
            f,
        ),
        _ => f,
    }
}

/// Whether `h` is one of the widgets the menu reacts to: one of its named
/// widgets or the button of a binding.
pub open spec fn is_menu_widget(m: MenuView, h: WidgetHandle) -> bool {
    let w = m.widgets;
    ||| h == w.window
    ||| h == w.sb_sound_volume
    ||| h == w.sb_music_volume
    ||| h == w.lb_video_modes
    ||| h == w.cb_fullscreen
    ||| h == w.cb_spot_shadows
    ||| h == w.cb_soft_spot_shadows
    ||| h == w.cb_point_shadows
    ||| h == w.cb_soft_point_shadows
    ||| h == w.sb_point_shadow_distance
    ||| h == w.sb_spot_shadow_distance
    ||| h == w.sb_mouse_sens
    ||| h == w.cb_mouse_y_inverse
    ||| h == w.cb_smooth_mouse
    ||| h == w.cb_shake_camera
    ||| h == w.btn_reset_control_scheme
    ||| h == w.cb_use_hrtf
    ||| h == w.btn_reset_audio_settings
    ||| m.control_scheme_buttons.contains(h)
}

/// Whether `event` can be handled without indexing past the video modes.
pub open spec fn ui_event_in_range(m: MenuView, event: UiEvent) -> bool {
    event.source == m.widgets.lb_video_modes ==> (event.kind matches UiEventKind::SelectionChanged(
        Some(i),
    ) ==> i < m.video_modes.len())
}

/// The binding that an input event completes: the waiting binding, if the
/// event designates a button.
pub open spec fn rebinding<K>(m: MenuView, event: InputEvent<K>) -> Option<(usize, ControlButton<K>)> {
    match (designated_button(event), m.active_control_button) {
        (Some(b), Some(i)) => Some((i, b)),
        _ => None,
    }
}

/// The menu after an input event: a completed rebinding stops the waiting.
pub open spec fn menu_after_input<K>(m: MenuView, event: InputEvent<K>) -> MenuView {
    if rebinding(m, event) is Some {
        MenuView { active_control_button: None, ..m }
    } else {
        m
    }
}

/// The bindings after an input event: a completed rebinding gives the
/// waiting binding the designated button and keeps its description.
pub open spec fn bindings_after_input<K>(
    m: MenuView,
    defs: Seq<ControlButtonDefinition<K>>,
    event: InputEvent<K>,
) -> Seq<ControlButtonDefinition<K>> {
    match rebinding(m, event) {
        Some((i, b)) => defs.update(
            i as int,
            ControlButtonDefinition { description: defs[i as int].description, button: b },
        ),
        None => defs,
    }
}

/// The label update after an input event: the button widget of the
/// rebound binding and the button whose name it must show.
pub open spec fn label_after_input<K>(m: MenuView, event: InputEvent<K>) -> Option<
    (WidgetHandle, ControlButton<K>),
> {
    match rebinding(m, event) {
        Some((i, b)) => Some((m.control_scheme_buttons[i as int], b)),
        None => None,
    }
}

/// The check boxes and the values they must show, in the order the menu
/// sets them.
pub open spec fn check_box_sync(
    w: MenuWidgets,
    settings: ShadowSettings,
    f: MouseFlags,
    use_hrtf: bool,
) -> Seq<(WidgetHandle, bool)> {
    seq![
        (w.cb_spot_shadows, settings.spot_shadows_enabled),
        (w.cb_soft_spot_shadows, settings.spot_soft_shadows),
        (w.cb_point_shadows, settings.point_shadows_enabled),
        (w.cb_soft_point_shadows, settings.point_soft_shadows),
        (w.cb_mouse_y_inverse, f.mouse_y_inverse),
        (w.cb_smooth_mouse, f.smooth_mouse),
        (w.cb_shake_camera, f.shake_camera),
        (w.cb_use_hrtf, use_hrtf),
    ]
}

/// The scroll bars and the settings whose values they must show, in the
/// order the menu sets them.
pub open spec fn scroll_bar_sync(w: MenuWidgets) -> Seq<(WidgetHandle, NumericSetting)> {
    seq![
        (w.sb_point_shadow_distance, NumericSetting::PointShadowDistance),
        (w.sb_spot_shadow_distance, NumericSetting::SpotShadowDistance),
        (w.sb_mouse_sens, NumericSetting::MouseSensitivity),
        (w.sb_sound_volume, NumericSetting::SoundVolume),
    ]
}

/// The button labels: the button widgets paired with the bindings, as far
/// as both go.
pub open spec fn label_sync<K>(
    buttons: Seq<WidgetHandle>,
    defs: Seq<ControlButtonDefinition<K>>,
) -> Seq<(WidgetHandle, ControlButton<K>)> {
    Seq::new(
        if buttons.len() <= defs.len() {
            buttons.len()
        } else {
            defs.len()
        },
        |k: int| (buttons[k], defs[k].button),
    )
}

/// The last position of `h` lies within `handles` and holds `h`.
pub proof fn lemma_last_index_of_bounds(handles: Seq<WidgetHandle>, h: WidgetHandle)
    requires
        handles.len() <= usize::MAX,
    ensures
        last_index_of(handles, h) matches Some(i) ==> i < handles.len() && handles[i as int] == h,
    decreases handles.len(),
{
    if handles.len() > 0 && handles.last() != h {
        lemma_last_index_of_bounds(handles.drop_last(), h);
    }
}

/// Extending a prefix by one handle moves the last position of `h` to that
/// handle if it is `h`, and keeps it otherwise.
proof fn lemma_last_index_of_step(handles: Seq<WidgetHandle>, i: int, h: WidgetHandle)
    requires
        0 <= i < handles.len(),
        handles.len() <= usize::MAX,
    ensures
        last_index_of(handles.take(i + 1), h) == if handles[i] == h {
            Some(i as usize)
        } else {
            last_index_of(handles.take(i), h)
        },
{
    assert(handles.take(i + 1).drop_last() =~= handles.take(i));
    assert(handles.take(i + 1).last() == handles[i]);
}

/// The setting whose scroll bar is `source`.
pub fn numeric_target_of(w: &MenuWidgets, source: WidgetHandle) -> (target: Option<NumericSetting>)
    ensures
        target == numeric_target(*w, source),
{
    if source == w.sb_sound_volume {
        Some(NumericSetting::SoundVolume)
    } else if source == w.sb_point_shadow_distance {
        Some(NumericSetting::PointShadowDistance)
    } else if source == w.sb_spot_shadow_distance {
        Some(NumericSetting::SpotShadowDistance)
    } else if source == w.sb_mouse_sens {
        Some(NumericSetting::MouseSensitivity)
    } else if source == w.sb_music_volume {
        Some(NumericSetting::MusicVolume)
    } else {
        None
    }
}

/// The reset that a click on `source` asks for.
pub fn reset_request_of(w: &MenuWidgets, source: WidgetHandle) -> (request: Option<ResetRequest>)
    ensures
        request == reset_request(*w, source),
{
    if source == w.btn_reset_control_scheme {
        Some(ResetRequest::ControlScheme)
    } else if source == w.btn_reset_audio_settings {
        Some(ResetRequest::AudioSettings)
    } else {
        None
    }
}

/// The last position at which `h` occurs in `handles`.
pub fn last_position(handles: &Vec<WidgetHandle>, h: WidgetHandle) -> (position: Option<usize>)
    ensures
        position == last_index_of(handles@, h),
        position matches Some(i) ==> i < handles@.len() && handles@[i as int] == h,
{
    let mut position: Option<usize> = None;
    let mut i: usize = 0;
    while i < handles.len()
        invariant
            i <= handles.len(),
            position == last_index_of(handles@.take(i as int), h),
        decreases handles.len() - i,
    {
        proof {
            lemma_last_index_of_step(handles@, i as int, h);
        }
        if handles[i] == h {
            position = Some(i);
        }
        i = i + 1;
    }
    proof {
        assert(handles@.take(handles@.len() as int) =~= handles@);
        lemma_last_index_of_bounds(handles@, h);
    }
    position
}

/// Every widget of the menu, in the order of `all_handles`.
pub fn collect_handles(w: &MenuWidgets, buttons: &Vec<WidgetHandle>) -> (all: Vec<WidgetHandle>)
    ensures
        all@ == all_handles(*w, buttons@),
{
    let mut all: Vec<WidgetHandle> = Vec::new();
    all.push(w.window);
    all.push(w.sb_sound_volume);
    all.push(w.sb_music_volume);
    all.push(w.lb_video_modes);
    all.push(w.cb_fullscreen);
    all.push(w.cb_spot_shadows);
    all.push(w.cb_soft_spot_shadows);
    all.push(w.cb_point_shadows);
    all.push(w.cb_soft_point_shadows);
    all.push(w.sb_point_shadow_distance);
    all.push(w.sb_spot_shadow_distance);
    all.push(w.sb_mouse_sens);
    all.push(w.cb_mouse_y_inverse);
    all.push(w.cb_smooth_mouse);
    all.push(w.cb_shake_camera);
    all.push(w.btn_reset_control_scheme);
    all.push(w.cb_use_hrtf);
    all.push(w.btn_reset_audio_settings);
    proof {
        assert(all@ =~= named_handles(*w));
    }
    let mut k: usize = 0;
    while k < buttons.len()
        invariant
            k <= buttons.len(),
            all@ == named_handles(*w) + buttons@.take(k as int),
        decreases buttons.len() - k,
    {
        all.push(buttons[k]);
        proof {
            assert(buttons@.take(k as int + 1) =~= buttons@.take(k as int).push(buttons@[k as int]));
            assert(all@ =~= named_handles(*w) + buttons@.take(k as int + 1));
        }
        k = k + 1;
    }
    proof {
        assert(buttons@.take(buttons@.len() as int) =~= buttons@);
    }
    all
}

/// Whether no handle occurs twice in `handles`.
pub fn handles_distinct(handles: &Vec<WidgetHandle>) -> (distinct: bool)
    ensures
        distinct == handles@.no_duplicates(),
{
    let n = handles.len();
    let mut i: usize = 0;
    while i < n
        invariant
            n == handles@.len(),
            i <= n,
            forall|x: int, y: int| 0 <= x < i && 0 <= y < n && x != y ==> handles@[x] != handles@[y],
        decreases n - i,
    {
        let mut j: usize = 0;
        while j < n
            invariant
                n == handles@.len(),
                i < n,
                j <= n,
                forall|x: int, y: int| 0 <= x < i && 0 <= y < n && x != y ==> handles@[x] != handles@[y],
                forall|y: int| 0 <= y < j && y != i ==> handles@[i as int] != handles@[y],
            decreases n - j,
        {
            if j != i && handles[i] == handles[j] {
                return false;
            }
            j = j + 1;
        }
        i = i + 1;
    }
    true
}

/// Whether the widgets handed to a new menu are all distinct, as
/// `OptionsMenu::new` requires.
pub fn widgets_distinct(w: &MenuWidgets, buttons: &Vec<WidgetHandle>) -> (distinct: bool)
    ensures
        distinct == all_handles(*w, buttons@).no_duplicates(),
{
    let all = collect_handles(w, buttons);
    handles_distinct(&all)
}

/// Applies a check box change to the shadow settings and the mouse flags.
fn apply_checked<K>(
    w: &MenuWidgets,
    source: WidgetHandle,
    value: bool,
    settings: &mut ShadowSettings,
    scheme: &mut ControlScheme<K>,
)
    ensures
        *final(settings) == checked_settings(*w, source, value, *old(settings)),
        flags_of(*final(scheme)) == checked_flags(*w, source, value, flags_of(*old(scheme))),
        final(scheme).buttons@ == old(scheme).buttons@,
{
    if source == w.cb_point_shadows {
        settings.point_shadows_enabled = value;
    } else if source == w.cb_spot_shadows {
        settings.spot_shadows_enabled = value;
    } else if source == w.cb_soft_spot_shadows {
        settings.spot_soft_shadows = value;
    } else if source == w.cb_soft_point_shadows {
        settings.point_soft_shadows = value;
    } else if source == w.cb_mouse_y_inverse {
        scheme.mouse_y_inverse = value;
    } else if source == w.cb_smooth_mouse {
        scheme.smooth_mouse = value;
    } else if source == w.cb_shake_camera {
        scheme.shake_camera = value;
    }
}

impl OptionsMenu {
    #[verifier::type_invariant]
    spec fn inv(self) -> bool {
        &&& all_handles(self.widgets, self.control_scheme_buttons@).no_duplicates()
        &&& self.active_control_button matches Some(i) ==> i < self.control_scheme_buttons.len()
    }

    /// A menu over the widgets that were built from `plan`, all distinct,
    /// with one button widget per binding row of the plan (so one per
    /// binding of the control scheme the plan was made from) and the video
    /// modes of the plan's list; no binding waits for input.
    pub fn new(
        widgets: MenuWidgets,
        control_scheme_buttons: Vec<WidgetHandle>,
        plan: MenuPlan,
    ) -> (menu: Self)
        requires
            all_handles(widgets, control_scheme_buttons@).no_duplicates(),
            control_scheme_buttons@.len() == plan.control_rows@.len(),
        ensures
            menu@.widgets == widgets,
            menu@.control_scheme_buttons == control_scheme_buttons@,
            menu@.control_scheme_buttons.len() == plan.control_rows@.len(),
            menu@.video_modes == plan.video_modes@,
            (menu@.active_control_button is None),
            menu@.wf(),
    {
        let video_modes = plan.video_modes;
        OptionsMenu { widgets, video_modes, control_scheme_buttons, active_control_button: None }
    }

    /// Reacts to an event of the user interface. `settings` are the on/off
    /// quality settings of the renderer at this moment; `scheme` is the
    /// control scheme the menu edits. A click on a binding's button makes
    /// that binding wait for the next input; a check box sets its shadow
    /// setting or mouse flag; a scroll bar names the setting its value is
    /// for; the video mode list names the mode to switch to; the reset
    /// buttons ask for their reset.
    pub fn handle_ui_event<K>(
        &mut self,
        scheme: &mut ControlScheme<K>,
        settings: ShadowSettings,
        event: &UiEvent,
    ) -> (response: UiResponse)
        requires
            ui_event_in_range(old(self)@, *event),
        ensures
            response == ui_response(old(self)@, settings, *event),
            event.source == old(self)@.widgets.lb_video_modes ==> (event.kind matches UiEventKind::SelectionChanged(
                Some(i),
            ) ==> response.fullscreen == Some(old(self)@.video_modes[i as int])),
            final(self)@ == menu_after_ui(old(self)@, *event),
            flags_of(*final(scheme)) == flags_after_ui(old(self)@, flags_of(*old(scheme)), *event),
            final(scheme).buttons@ == old(scheme).buttons@,
            final(self)@.wf(),
    {
        proof {
            use_type_invariant(&*self);
        }
        let w = self.widgets;
        let source = event.source;
        let mut response = UiResponse {
            numeric: None,
            fullscreen: None,
            settings,
            reset: None,
            awaiting_input: None,
        };
        match event.kind {
            UiEventKind::NumericValueChanged => {
                response.numeric = numeric_target_of(&w, source);
            },
            UiEventKind::SelectionChanged(selection) => {
                if source == w.lb_video_modes {
                    if let Some(index) = selection {
                        response.fullscreen = Some(self.video_modes[index]);
                    }
                }
            },
            UiEventKind::Checked(value) => {
                let v = match value {
                    Some(b) => b,
                    None => false,
                };
                apply_checked(&w, source, v, &mut response.settings, scheme);
            },
            UiEventKind::Click => {
                response.reset = reset_request_of(&w, source);
                let awaiting = last_position(&self.control_scheme_buttons, source);
                response.awaiting_input = awaiting;
                if let Some(i) = awaiting {
                    self.active_control_button = Some(i);
                }
            },
            UiEventKind::Other => {},
        }
        proof {
            use_type_invariant(&*self);
        }
        response
    }

    /// Reacts to a raw input event. If a binding waits for input and the
    /// event designates a button, the binding gets that button, nothing
    /// waits any more, and the binding's button widget is returned with
    /// the button whose name it must now show. Otherwise nothing changes.
    pub fn process_input_event<K: Copy>(
        &mut self,
        scheme: &mut ControlScheme<K>,
        event: &InputEvent<K>,
    ) -> (label: Option<(WidgetHandle, ControlButton<K>)>)
        requires
            rebinding(old(self)@, *event) matches Some((i, _)) ==> i < old(scheme).buttons.len(),
        ensures
            final(self)@ == menu_after_input(old(self)@, *event),
            final(scheme).buttons@ == bindings_after_input(old(self)@, old(scheme).buttons@, *event),
            flags_of(*final(scheme)) == flags_of(*old(scheme)),
            label == label_after_input(old(self)@, *event),
            final(self)@.wf(),
    {
        proof {
            use_type_invariant(&*self);
        }
        let control_button = control_button_of(event);
        let label = match control_button {
            Some(b) => match self.active_control_button {
                Some(i) => {
                    let handle = self.control_scheme_buttons[i];
                    scheme.buttons[i].button = b;
                    self.active_control_button = None;
                    proof {
                        assert(scheme.buttons@ =~= bindings_after_input(
                            old(self)@,
                            old(scheme).buttons@,
                            *event,
                        ));
                    }
                    Some((handle, b))
                },
                None => None,
            },
            None => None,
        };
        proof {
            use_type_invariant(&*self);
        }
        label
    }

    /// What the widgets must be set to so that they show the model: the
    /// check boxes from the shadow settings, the mouse flags and whether
    /// the sound renderer uses HRTF; the scroll bars from their settings;
    /// each binding's button from its bound button.
    pub fn sync_to_model<K: Copy>(
        &self,
        scheme: &ControlScheme<K>,
        settings: ShadowSettings,
        use_hrtf: bool,
    ) -> (plan: SyncPlan<K>)
        ensures
            plan.check_boxes@ == check_box_sync(self@.widgets, settings, flags_of(*scheme), use_hrtf),
            plan.scroll_bars@ == scroll_bar_sync(self@.widgets),
            plan.button_labels@ == label_sync(self@.control_scheme_buttons, scheme.buttons@),
    {
        let w = self.widgets;
        let mut check_boxes: Vec<(WidgetHandle, bool)> = Vec::new();
        check_boxes.push((w.cb_spot_shadows, settings.spot_shadows_enabled));
        check_boxes.push((w.cb_soft_spot_shadows, settings.spot_soft_shadows));
        check_boxes.push((w.cb_point_shadows, settings.point_shadows_enabled));
        check_boxes.push((w.cb_soft_point_shadows, settings.point_soft_shadows));
        check_boxes.push((w.cb_mouse_y_inverse, scheme.mouse_y_inverse));
        check_boxes.push((w.cb_smooth_mouse, scheme.smooth_mouse));
        check_boxes.push((w.cb_shake_camera, scheme.shake_camera));
        check_boxes.push((w.cb_use_hrtf, use_hrtf));
        let mut scroll_bars: Vec<(WidgetHandle, NumericSetting)> = Vec::new();
        scroll_bars.push((w.sb_point_shadow_distance, NumericSetting::PointShadowDistance));
        scroll_bars.push((w.sb_spot_shadow_distance, NumericSetting::SpotShadowDistance));
        scroll_bars.push((w.sb_mouse_sens, NumericSetting::MouseSensitivity));
        scroll_bars.push((w.sb_sound_volume, NumericSetting::SoundVolume));
        let mut button_labels: Vec<(WidgetHandle, ControlButton<K>)> = Vec::new();
        let mut k: usize = 0;
        while k < self.control_scheme_buttons.len() && k < scheme.buttons.len()
            invariant
                k <= self.control_scheme_buttons.len(),
                k <= scheme.buttons.len(),
                button_labels@.len() == k,
                forall|j: int|
                    0 <= j < k ==> #[trigger] button_labels@[j] == (
                        self.control_scheme_buttons@[j],
                        scheme.buttons@[j].button,
                    ),
            decreases self.control_scheme_buttons.len() - k,
        {
            let b = scheme.buttons[k].button;
            button_labels.push((self.control_scheme_buttons[k], b));
            k = k + 1;
        }
        proof {
            assert(check_boxes@ =~= check_box_sync(w, settings, flags_of(*scheme), use_hrtf));
            assert(scroll_bars@ =~= scroll_bar_sync(w));
            assert(button_labels@ =~= label_sync(self@.control_scheme_buttons, scheme.buttons@));
        }
        SyncPlan { check_boxes, scroll_bars, button_labels }
    }

    /// The menu's window.
    pub fn window(&self) -> (w: WidgetHandle)
        ensures
            w == self@.widgets.window,
    {
        self.widgets.window
    }

    /// The music volume scroll bar.
    pub fn sb_music_volume(&self) -> (w: WidgetHandle)
        ensures
            w == self@.widgets.sb_music_volume,
    {
        self.widgets.sb_music_volume
    }

    /// All the widgets the menu reacts to.
    pub fn widgets(&self) -> (w: MenuWidgets)
        ensures
            w == self@.widgets,
    {
        self.widgets
    }

    /// The button widget of each binding.
    pub fn control_scheme_buttons(&self) -> (buttons: &Vec<WidgetHandle>)
        ensures
            buttons@ == self@.control_scheme_buttons,
    {
        &self.control_scheme_buttons
    }

    /// The video modes of the list, in order.
    pub fn video_modes(&self) -> (modes: &Vec<VideoMode>)
        ensures
            modes@ == self@.video_modes,
    {
        &self.video_modes
    }

    /// The binding that waits for an input, if any.
    pub fn active_control_button(&self) -> (active: Option<usize>)
        ensures
            active == self@.active_control_button,
            self@.wf(),
    {
        proof {
            use_type_invariant(self);
        }
        self.active_control_button
    }
}

} // verus!
