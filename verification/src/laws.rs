use vstd::prelude::*;
use crate::controls::{
    AxisSign, ControlButton, ControlButtonDefinition, InputEvent, MouseButton, ScrollDelta, bindings,
    descriptions, designated_button,
};
use crate::menu::{
    lemma_widgets_distinct, named_distinct, is_binding_button, NumericSetting, ResetRequest, UiResponse, scroll_bar_sync,
    all_handles, check_box_sync, named_handles, rebinding, MenuView, MouseFlags, ShadowSettings, UiEvent, UiEventKind, WidgetHandle, bindings_after_input,
    flags_after_ui, is_menu_widget, is_shadow_box, label_after_input, label_sync, last_index_of,
    lemma_last_index_of_bounds, menu_after_input, menu_after_ui, quiet_response,
    ui_response,
};
use crate::video::{VideoMode, decimal, digit_char, is_offered, video_mode_text};

verus! {

/// If `h` occurs in `handles` only at position `i`, its last position is `i`.
pub proof fn lemma_last_index_of_unique(handles: Seq<WidgetHandle>, h: WidgetHandle, i: int)
    requires
        handles.len() <= usize::MAX,
        0 <= i < handles.len(),
        handles[i] == h,
        forall|j: int| 0 <= j < handles.len() && j != i ==> handles[j] != h,
    ensures
        last_index_of(handles, h) == Some(i as usize),
    decreases handles.len(),
{
    if handles.last() != h {
        let shorter = handles.drop_last();
        assert(shorter[i] == h);
        assert forall|j: int| 0 <= j < shorter.len() && j != i implies shorter[j] != h by {
            assert(shorter[j] == handles[j]);
        }
        lemma_last_index_of_unique(shorter, h, i);
    }
}

/// In a well-formed menu, the button widget of binding `i` is the button
/// of no other binding and none of the named widgets.
pub proof fn lemma_binding_button_unique(m: MenuView, i: int)
    requires
        m.wf(),
        0 <= i < m.control_scheme_buttons.len(),
    ensures
        forall|j: int|
            0 <= j < m.control_scheme_buttons.len() && j != i ==> m.control_scheme_buttons[j]
                != m.control_scheme_buttons[i],
{
    let all = all_handles(m.widgets, m.control_scheme_buttons);
    assert forall|j: int|
        0 <= j < m.control_scheme_buttons.len() && j != i implies m.control_scheme_buttons[j]
        != m.control_scheme_buttons[i] by {
        assert(all[18 + j] == m.control_scheme_buttons[j]);
        assert(all[18 + i] == m.control_scheme_buttons[i]);
    }
}

/// Rebinding a control: when the button widget of binding `i` is clicked,
/// binding `i` waits for input; the next input event that designates a
/// button `b` binds `i` to `b`, leaves every other binding and every
/// description as it was, ends the waiting, and asks for the widget of
/// binding `i` to show `b`. After that, no input event changes anything
/// until a binding's button is clicked again.
pub proof fn law_click_then_input_rebinds<K>(
    m: MenuView,
    defs: Seq<ControlButtonDefinition<K>>,
    settings: ShadowSettings,
    click: UiEvent,
    input: InputEvent<K>,
    i: int,
    b: ControlButton<K>,
)
    requires
        m.wf(),
        m.control_scheme_buttons.len() <= usize::MAX,
        click.kind == UiEventKind::Click,
        0 <= i < m.control_scheme_buttons.len(),
        i < defs.len(),
        m.control_scheme_buttons[i] == click.source,
        designated_button(input) == Some(b),
    ensures
        ui_response(m, settings, click).awaiting_input == Some(i as usize),
        menu_after_ui(m, click).active_control_button == Some(i as usize),
        menu_after_input(menu_after_ui(m, click), input) == (MenuView {
            active_control_button: None,
            ..m
        }),
        bindings(bindings_after_input(menu_after_ui(m, click), defs, input)) == bindings(
            defs,
        ).update(i, b),
        descriptions(bindings_after_input(menu_after_ui(m, click), defs, input)) == descriptions(
            defs,
        ),
        label_after_input(menu_after_ui(m, click), input) == Some((click.source, b)),
        forall|later: InputEvent<K>|
            #![trigger menu_after_input(menu_after_input(menu_after_ui(m, click), input), later)]
            menu_after_input(menu_after_input(menu_after_ui(m, click), input), later)
                == menu_after_input(menu_after_ui(m, click), input) && bindings_after_input(
                menu_after_input(menu_after_ui(m, click), input),
                bindings_after_input(menu_after_ui(m, click), defs, input),
                later,
            ) == bindings_after_input(menu_after_ui(m, click), defs, input) && (label_after_input(
                menu_after_input(menu_after_ui(m, click), input),
                later,
            ) is None),
{
    lemma_binding_button_unique(m, i);
    lemma_last_index_of_unique(m.control_scheme_buttons, click.source, i);
    let after = bindings_after_input(menu_after_ui(m, click), defs, input);
    assert(bindings(after) =~= bindings(defs).update(i, b));
    assert(descriptions(after) =~= descriptions(defs));
}

/// Checking a box and then synchronising the menu shows the reported
/// value: for each of the check boxes of the shadow settings and the mouse
/// flags (all but the HRTF box, position `k` of the synchronised list),
/// when that box reports `b`, the list built from the resulting settings
/// and flags shows `b` on that box.
pub proof fn law_check_then_sync_shows_value(
    m: MenuView,
    settings: ShadowSettings,
    flags: MouseFlags,
    use_hrtf: bool,
    k: int,
    b: bool,
)
    requires
        m.wf(),
        0 <= k < 7,
    ensures
        ({
            let source = check_box_sync(m.widgets, settings, flags, use_hrtf)[k].0;
            let event = UiEvent { source, kind: UiEventKind::Checked(Some(b)) };
            check_box_sync(
                m.widgets,
                ui_response(m, settings, event).settings,
                flags_after_ui(m, flags, event),
                use_hrtf,
            )[k] == (source, b)
        }),
{
    let w = m.widgets;
    let named = named_handles(w);
    let all = all_handles(w, m.control_scheme_buttons);
    assert forall|x: int, y: int| 0 <= x < 18 && 0 <= y < 18 && x != y implies named[x] != named[y] by {
        assert(all[x] == named[x]);
        assert(all[y] == named[y]);
    }
    assert(named[5] == w.cb_spot_shadows);
    assert(named[6] == w.cb_soft_spot_shadows);
    assert(named[7] == w.cb_point_shadows);
    assert(named[8] == w.cb_soft_point_shadows);
    assert(named[12] == w.cb_mouse_y_inverse);
    assert(named[13] == w.cb_smooth_mouse);
    assert(named[14] == w.cb_shake_camera);
}

/// Every step keeps the menu well formed: a user interface event that
/// selects within the video modes, and any input event.
pub proof fn law_steps_keep_menu_well_formed<K>(
    m: MenuView,
    ui_event: UiEvent,
    input: InputEvent<K>,
)
    requires
        m.wf(),
        m.control_scheme_buttons.len() <= usize::MAX,
    ensures
        menu_after_ui(m, ui_event).wf(),
        menu_after_input(m, input).wf(),
{
    lemma_last_index_of_bounds(m.control_scheme_buttons, ui_event.source);
}

/// No step changes the widgets, the video modes or the button widgets of
/// the menu; only which binding waits for input.
pub proof fn law_steps_keep_menu_layout<K>(m: MenuView, ui_event: UiEvent, input: InputEvent<K>)
    ensures
        menu_after_ui(m, ui_event) == (MenuView {
            active_control_button: menu_after_ui(m, ui_event).active_control_button,
            ..m
        }),
        menu_after_input(m, input) == (MenuView {
            active_control_button: menu_after_input(m, input).active_control_button,
            ..m
        }),
{
}

/// A binding starts waiting for input only when its own button widget is
/// clicked: if a user interface event changes the waiting binding to `i`,
/// the event was a click and its source is the button widget of binding `i`.
pub proof fn law_waiting_starts_only_by_its_button(m: MenuView, event: UiEvent)
    requires
        m.control_scheme_buttons.len() <= usize::MAX,
    ensures
        menu_after_ui(m, event).active_control_button != m.active_control_button ==> (
        menu_after_ui(m, event).active_control_button matches Some(i) && (event.kind
            == UiEventKind::Click) && i < m.control_scheme_buttons.len()
            && m.control_scheme_buttons[i as int] == event.source),
{
    lemma_last_index_of_bounds(m.control_scheme_buttons, event.source);
}

/// One button widget per binding is kept by every step: a user interface
/// event changes neither the button widgets nor the bindings, and an input
/// event keeps their number.
pub proof fn law_steps_keep_one_button_per_binding<K>(
    m: MenuView,
    defs: Seq<ControlButtonDefinition<K>>,
    ui_event: UiEvent,
    input: InputEvent<K>,
)
    requires
        m.wf(),
        defs.len() == m.control_scheme_buttons.len(),
    ensures
        menu_after_ui(m, ui_event).control_scheme_buttons == m.control_scheme_buttons,
        menu_after_input(m, input).control_scheme_buttons.len() == bindings_after_input(
            m,
            defs,
            input,
        ).len(),
{
}

/// An event from a widget that is not part of the menu asks for nothing
/// and changes neither the menu, the settings nor the mouse flags.
pub proof fn law_foreign_events_are_ignored(
    m: MenuView,
    settings: ShadowSettings,
    flags: MouseFlags,
    event: UiEvent,
)
    requires
        m.control_scheme_buttons.len() <= usize::MAX,
        !is_menu_widget(m, event.source),
    ensures
        ui_response(m, settings, event) == quiet_response(settings),
        menu_after_ui(m, event) == m,
        flags_after_ui(m, flags, event) == flags,
{
    lemma_last_index_of_bounds(m.control_scheme_buttons, event.source);
    if last_index_of(m.control_scheme_buttons, event.source) is Some {
        let i = last_index_of(m.control_scheme_buttons, event.source)->0;
        assert(m.control_scheme_buttons.contains(m.control_scheme_buttons[i as int]));
    }
}

/// An input event changes nothing unless a binding waits for input and
/// the event designates a button.
pub proof fn law_idle_input_changes_nothing<K>(
    m: MenuView,
    defs: Seq<ControlButtonDefinition<K>>,
    input: InputEvent<K>,
)
    requires
        (m.active_control_button is None) || (designated_button(input) is None),
    ensures
        menu_after_input(m, input) == m,
        bindings_after_input(m, defs, input) == defs,
        (label_after_input(m, input) is None),
{
}

/// The shadow settings change only when one of the four shadow check boxes
/// reports a state.
pub proof fn law_settings_change_only_by_shadow_boxes(
    m: MenuView,
    settings: ShadowSettings,
    event: UiEvent,
)
    ensures
        ui_response(m, settings, event).settings != settings ==> ((event.kind is Checked)
            && is_shadow_box(m.widgets, event.source)),
{
}

/// Handling the same event twice has the effect of handling it once: the
/// menu, the shadow settings and the mouse flags come out the same.
pub proof fn law_repeated_event_settles(
    m: MenuView,
    settings: ShadowSettings,
    flags: MouseFlags,
    event: UiEvent,
)
    requires
        m.wf(),
    ensures
        menu_after_ui(menu_after_ui(m, event), event) == menu_after_ui(m, event),
        ui_response(menu_after_ui(m, event), ui_response(m, settings, event).settings, event).settings
            == ui_response(m, settings, event).settings,
        flags_after_ui(menu_after_ui(m, event), flags_after_ui(m, flags, event), event)
            == flags_after_ui(m, flags, event),
{
}

/// After a rebinding, synchronising the menu shows the new button on the
/// rebound binding's widget.
pub proof fn law_sync_shows_rebinding<K>(
    m: MenuView,
    defs: Seq<ControlButtonDefinition<K>>,
    input: InputEvent<K>,
    i: usize,
    b: ControlButton<K>,
)
    requires
        m.wf(),
        m.active_control_button == Some(i),
        i < defs.len(),
        designated_button(input) == Some(b),
    ensures
        label_sync(m.control_scheme_buttons, bindings_after_input(m, defs, input))[i as int] == (
            m.control_scheme_buttons[i as int],
            b,
        ),
{
}

/// When the control scheme has one binding per button widget, as when the
/// menu was built from it, every input event can be processed: a completed
/// rebinding always names an existing binding.
pub proof fn law_matching_scheme_admits_every_input<K>(
    m: MenuView,
    defs: Seq<ControlButtonDefinition<K>>,
    input: InputEvent<K>,
)
    requires
        m.wf(),
        defs.len() == m.control_scheme_buttons.len(),
    ensures
        rebinding(m, input) matches Some((i, _)) ==> i < defs.len(),
{
}

/// The menu offers exactly the acceptable modes the monitor reports: each
/// offered mode is acceptable and was reported, and each acceptable
/// reported mode is offered.
pub proof fn law_offered_modes(available: Seq<VideoMode>, mode: VideoMode)
    ensures
        available.filter(|m: VideoMode| is_offered(m)).contains(mode) <==> (available.contains(
            mode,
        ) && is_offered(mode)),
{
    let offered = available.filter(|m: VideoMode| is_offered(m));
    if offered.contains(mode) {
        available.lemma_filter_contains_rev(|m: VideoMode| is_offered(m), mode);
        let k = choose|k: int| 0 <= k < offered.len() && offered[k] == mode;
        available.lemma_filter_pred(|m: VideoMode| is_offered(m), k);
    }
    if available.contains(mode) && is_offered(mode) {
        let k = choose|k: int| 0 <= k < available.len() && available[k] == mode;
        available.lemma_filter_contains(|m: VideoMode| is_offered(m), k);
    }
}



/// The event of check box `source` reporting `value`.
pub open spec fn check_event(source: WidgetHandle, value: Option<bool>) -> UiEvent {
    UiEvent { source, kind: UiEventKind::Checked(value) }
}

/// Ticking or unticking a shadow check box sets exactly the renderer
/// setting of the same name to the reported value: the other three shadow
/// settings and the mouse flags stay as they were.
pub proof fn law_shadow_box_sets_only_its_setting(
    m: MenuView,
    s: ShadowSettings,
    f: MouseFlags,
    v: bool,
)
    requires
        m.wf(),
    ensures
        ({
            let r = ui_response(m, s, check_event(m.widgets.cb_spot_shadows, Some(v))).settings;
            &&& r.spot_shadows_enabled == v
            &&& r.spot_soft_shadows == s.spot_soft_shadows
            &&& r.point_shadows_enabled == s.point_shadows_enabled
            &&& r.point_soft_shadows == s.point_soft_shadows
        }),
        ({
            let r = ui_response(m, s, check_event(m.widgets.cb_soft_spot_shadows, Some(v))).settings;
            &&& r.spot_shadows_enabled == s.spot_shadows_enabled
            &&& r.spot_soft_shadows == v
            &&& r.point_shadows_enabled == s.point_shadows_enabled
            &&& r.point_soft_shadows == s.point_soft_shadows
        }),
        ({
            let r = ui_response(m, s, check_event(m.widgets.cb_point_shadows, Some(v))).settings;
            &&& r.spot_shadows_enabled == s.spot_shadows_enabled
            &&& r.spot_soft_shadows == s.spot_soft_shadows
            &&& r.point_shadows_enabled == v
            &&& r.point_soft_shadows == s.point_soft_shadows
        }),
        ({
            let r = ui_response(m, s, check_event(m.widgets.cb_soft_point_shadows, Some(v))).settings;
            &&& r.spot_shadows_enabled == s.spot_shadows_enabled
            &&& r.spot_soft_shadows == s.spot_soft_shadows
            &&& r.point_shadows_enabled == s.point_shadows_enabled
            &&& r.point_soft_shadows == v
        }),
        flags_after_ui(m, f, check_event(m.widgets.cb_spot_shadows, Some(v))) == f,
        flags_after_ui(m, f, check_event(m.widgets.cb_soft_spot_shadows, Some(v))) == f,
        flags_after_ui(m, f, check_event(m.widgets.cb_point_shadows, Some(v))) == f,
        flags_after_ui(m, f, check_event(m.widgets.cb_soft_point_shadows, Some(v))) == f,
{
    lemma_widgets_distinct(m.widgets, m.control_scheme_buttons);
}

/// Ticking or unticking a mouse check box sets exactly the control
/// scheme's flag of the same name: the other two flags and the shadow
/// settings stay as they were.
pub proof fn law_mouse_box_sets_only_its_flag(m: MenuView, s: ShadowSettings, f: MouseFlags, v: bool)
    requires
        m.wf(),
    ensures
        ({
            let e = check_event(m.widgets.cb_mouse_y_inverse, Some(v));
            let g = flags_after_ui(m, f, e);
            &&& g.mouse_y_inverse == v
            &&& g.smooth_mouse == f.smooth_mouse
            &&& g.shake_camera == f.shake_camera
            &&& ui_response(m, s, e).settings == s
        }),
        ({
            let e = check_event(m.widgets.cb_smooth_mouse, Some(v));
            let g = flags_after_ui(m, f, e);
            &&& g.mouse_y_inverse == f.mouse_y_inverse
            &&& g.smooth_mouse == v
            &&& g.shake_camera == f.shake_camera
            &&& ui_response(m, s, e).settings == s
        }),
        ({
            let e = check_event(m.widgets.cb_shake_camera, Some(v));
            let g = flags_after_ui(m, f, e);
            &&& g.mouse_y_inverse == f.mouse_y_inverse
            &&& g.smooth_mouse == f.smooth_mouse
            &&& g.shake_camera == v
            &&& ui_response(m, s, e).settings == s
        }),
{
    lemma_widgets_distinct(m.widgets, m.control_scheme_buttons);
}

/// The full-screen and HRTF check boxes change neither the shadow
/// settings nor the mouse flags.
pub proof fn law_fullscreen_and_hrtf_boxes_change_nothing(
    m: MenuView,
    s: ShadowSettings,
    f: MouseFlags,
    value: Option<bool>,
)
    requires
        m.wf(),
    ensures
        ui_response(m, s, check_event(m.widgets.cb_fullscreen, value)).settings == s,
        flags_after_ui(m, f, check_event(m.widgets.cb_fullscreen, value)) == f,
        ui_response(m, s, check_event(m.widgets.cb_use_hrtf, value)).settings == s,
        flags_after_ui(m, f, check_event(m.widgets.cb_use_hrtf, value)) == f,
{
    lemma_widgets_distinct(m.widgets, m.control_scheme_buttons);
}

/// A check box in the undetermined state counts as unticked, and a check
/// box event asks for nothing but new settings or flags.
pub proof fn law_check_events(
    m: MenuView,
    s: ShadowSettings,
    f: MouseFlags,
    source: WidgetHandle,
    value: Option<bool>,
)
    ensures
        ui_response(m, s, check_event(source, None)) == ui_response(
            m,
            s,
            check_event(source, Some(false)),
        ),
        flags_after_ui(m, f, check_event(source, None)) == flags_after_ui(
            m,
            f,
            check_event(source, Some(false)),
        ),
        ({
            let r = ui_response(m, s, check_event(source, value));
            &&& r.numeric is None
            &&& r.fullscreen is None
            &&& r.reset is None
            &&& r.awaiting_input is None
        }),
        menu_after_ui(m, check_event(source, value)) == m,
{
}

/// The event of scroll bar `source` changing its value.
pub open spec fn numeric_event(source: WidgetHandle) -> UiEvent {
    UiEvent { source, kind: UiEventKind::NumericValueChanged }
}

/// Moving a scroll bar names the setting of the same name, and nothing
/// else: the settings, the mouse flags and the menu stay as they were.
pub proof fn law_scroll_bar_names_its_setting(m: MenuView, s: ShadowSettings, f: MouseFlags)
    requires
        m.wf(),
    ensures
        ui_response(m, s, numeric_event(m.widgets.sb_sound_volume)).numeric
            == Some(NumericSetting::SoundVolume),
        ui_response(m, s, numeric_event(m.widgets.sb_music_volume)).numeric
            == Some(NumericSetting::MusicVolume),
        ui_response(m, s, numeric_event(m.widgets.sb_point_shadow_distance)).numeric
            == Some(NumericSetting::PointShadowDistance),
        ui_response(m, s, numeric_event(m.widgets.sb_spot_shadow_distance)).numeric
            == Some(NumericSetting::SpotShadowDistance),
        ui_response(m, s, numeric_event(m.widgets.sb_mouse_sens)).numeric
            == Some(NumericSetting::MouseSensitivity),
        forall|source: WidgetHandle|
            #![trigger ui_response(m, s, numeric_event(source))]
            ui_response(m, s, numeric_event(source)).settings == s
                && ui_response(m, s, numeric_event(source)).fullscreen is None
                && ui_response(m, s, numeric_event(source)).reset is None
                && ui_response(m, s, numeric_event(source)).awaiting_input is None
                && flags_after_ui(m, f, numeric_event(source)) == f
                && menu_after_ui(m, numeric_event(source)) == m,
{
    lemma_widgets_distinct(m.widgets, m.control_scheme_buttons);
}

/// Selecting entry `i` of the video mode list asks to switch to the `i`-th
/// listed mode, whichever entry it is; a cleared selection, or a selection
/// in any other widget, asks for no switch.
pub proof fn law_selection_switches_to_the_selected_mode(
    m: MenuView,
    s: ShadowSettings,
    source: WidgetHandle,
    selection: Option<usize>,
)
    ensures
        forall|i: usize|
            i < m.video_modes.len() ==> #[trigger] ui_response(
                m,
                s,
                UiEvent { source: m.widgets.lb_video_modes, kind: UiEventKind::SelectionChanged(Some(i)) },
            ).fullscreen == Some(m.video_modes[i as int]),
        (ui_response(m, s, (UiEvent { source, kind: UiEventKind::SelectionChanged(None) })).fullscreen is None),
        source != m.widgets.lb_video_modes ==> (ui_response(
            m,
            s,
            (UiEvent { source, kind: UiEventKind::SelectionChanged(selection) }),
        ).fullscreen is None),
        ui_response(m, s, UiEvent { source, kind: UiEventKind::SelectionChanged(selection) }).settings
            == s,
        menu_after_ui(m, UiEvent { source, kind: UiEventKind::SelectionChanged(selection) }) == m,
{
}

/// Clicking a reset button asks for its own reset and makes no binding
/// wait; clicking a binding's button asks for no reset.
pub proof fn law_reset_buttons(m: MenuView, s: ShadowSettings, i: int)
    requires
        m.wf(),
        m.control_scheme_buttons.len() <= usize::MAX,
    ensures
        ({
            let r = ui_response(m, s, UiEvent { source: m.widgets.btn_reset_control_scheme, kind: UiEventKind::Click });
            &&& r.reset == Some(ResetRequest::ControlScheme)
            &&& r.awaiting_input is None
            &&& r.settings == s
        }),
        ({
            let r = ui_response(m, s, UiEvent { source: m.widgets.btn_reset_audio_settings, kind: UiEventKind::Click });
            &&& r.reset == Some(ResetRequest::AudioSettings)
            &&& r.awaiting_input is None
            &&& r.settings == s
        }),
        0 <= i < m.control_scheme_buttons.len() ==> (ui_response(
            m,
            s,
            (UiEvent { source: m.control_scheme_buttons[i], kind: UiEventKind::Click }),
        ).reset is None),
{
    let w = m.widgets;
    let b = m.control_scheme_buttons;
    lemma_widgets_distinct(w, b);
    lemma_last_index_of_bounds(b, w.btn_reset_control_scheme);
    lemma_last_index_of_bounds(b, w.btn_reset_audio_settings);
    if last_index_of(b, w.btn_reset_control_scheme) is Some {
        let j = last_index_of(b, w.btn_reset_control_scheme)->0 as int;
        assert(b[j] == w.btn_reset_control_scheme);
    }
    if last_index_of(b, w.btn_reset_audio_settings) is Some {
        let j = last_index_of(b, w.btn_reset_audio_settings)->0 as int;
        assert(b[j] == w.btn_reset_audio_settings);
    }
    if 0 <= i < b.len() {
        assert(b[i] != w.btn_reset_control_scheme);
        assert(b[i] != w.btn_reset_audio_settings);
    }
}

/// Every mouse button designates a button to bind, numbered 1 for the
/// left, 2 for the right and 3 for the middle button, and by its own
/// number for any other; every named key designates that key; a line
/// scroll up or down designates the wheel in that direction.
pub proof fn law_inputs_designate_buttons<K>(n: u8, key: K)
    ensures
        designated_button(InputEvent::<K>::MouseInput(MouseButton::Left)) == Some(
            ControlButton::<K>::Mouse(1),
        ),
        designated_button(InputEvent::<K>::MouseInput(MouseButton::Right)) == Some(
            ControlButton::<K>::Mouse(2),
        ),
        designated_button(InputEvent::<K>::MouseInput(MouseButton::Middle)) == Some(
            ControlButton::<K>::Mouse(3),
        ),
        designated_button(InputEvent::<K>::MouseInput(MouseButton::Other(n))) == Some(
            ControlButton::<K>::Mouse(n),
        ),
        designated_button(InputEvent::<K>::KeyboardInput(Some(key))) == Some(ControlButton::Key(key)),
        designated_button(InputEvent::<K>::MouseWheel(ScrollDelta::LineDelta(AxisSign::Positive)))
            == Some(ControlButton::<K>::WheelUp),
        designated_button(InputEvent::<K>::MouseWheel(ScrollDelta::LineDelta(AxisSign::Negative)))
            == Some(ControlButton::<K>::WheelDown),
        (designated_button(InputEvent::<K>::MouseWheel(ScrollDelta::LineDelta(AxisSign::Zero))) is None),
        (designated_button(InputEvent::<K>::MouseWheel(ScrollDelta::PixelDelta)) is None),
        (designated_button(InputEvent::<K>::KeyboardInput(None)) is None),
        (designated_button(InputEvent::<K>::Other) is None),
{
}

/// Synchronising shows on each check box the value of the setting or flag
/// of the same name, and on each scroll bar the setting of the same name;
/// every such widget is set.
pub proof fn law_sync_shows_each_setting_on_its_widget(
    m: MenuView,
    s: ShadowSettings,
    f: MouseFlags,
    use_hrtf: bool,
)
    requires
        m.wf(),
    ensures
        ({
            let c = check_box_sync(m.widgets, s, f, use_hrtf);
            let w = m.widgets;
            &&& c.len() == 8
            &&& c.contains((w.cb_spot_shadows, s.spot_shadows_enabled))
            &&& c.contains((w.cb_soft_spot_shadows, s.spot_soft_shadows))
            &&& c.contains((w.cb_point_shadows, s.point_shadows_enabled))
            &&& c.contains((w.cb_soft_point_shadows, s.point_soft_shadows))
            &&& c.contains((w.cb_mouse_y_inverse, f.mouse_y_inverse))
            &&& c.contains((w.cb_smooth_mouse, f.smooth_mouse))
            &&& c.contains((w.cb_shake_camera, f.shake_camera))
            &&& c.contains((w.cb_use_hrtf, use_hrtf))
            &&& forall|k: int|
                0 <= k < 8 ==> {
                    &&& #[trigger] c[k].0 == w.cb_spot_shadows ==> c[k].1 == s.spot_shadows_enabled
                    &&& c[k].0 == w.cb_soft_spot_shadows ==> c[k].1 == s.spot_soft_shadows
                    &&& c[k].0 == w.cb_point_shadows ==> c[k].1 == s.point_shadows_enabled
                    &&& c[k].0 == w.cb_soft_point_shadows ==> c[k].1 == s.point_soft_shadows
                    &&& c[k].0 == w.cb_mouse_y_inverse ==> c[k].1 == f.mouse_y_inverse
                    &&& c[k].0 == w.cb_smooth_mouse ==> c[k].1 == f.smooth_mouse
                    &&& c[k].0 == w.cb_shake_camera ==> c[k].1 == f.shake_camera
                    &&& c[k].0 == w.cb_use_hrtf ==> c[k].1 == use_hrtf
                }
        }),
        ({
            let b = scroll_bar_sync(m.widgets);
            let w = m.widgets;
            &&& b.len() == 4
            &&& b.contains((w.sb_point_shadow_distance, NumericSetting::PointShadowDistance))
            &&& b.contains((w.sb_spot_shadow_distance, NumericSetting::SpotShadowDistance))
            &&& b.contains((w.sb_mouse_sens, NumericSetting::MouseSensitivity))
            &&& b.contains((w.sb_sound_volume, NumericSetting::SoundVolume))
            &&& forall|k: int|
                0 <= k < 4 ==> {
                    &&& (#[trigger] b[k].0 == w.sb_point_shadow_distance ==> b[k].1
                        == NumericSetting::PointShadowDistance)
                    &&& (b[k].0 == w.sb_spot_shadow_distance ==> b[k].1
                        == NumericSetting::SpotShadowDistance)
                    &&& (b[k].0 == w.sb_mouse_sens ==> b[k].1 == NumericSetting::MouseSensitivity)
                    &&& (b[k].0 == w.sb_sound_volume ==> b[k].1 == NumericSetting::SoundVolume)
                }
        }),
{
    let w = m.widgets;
    lemma_widgets_distinct(w, m.control_scheme_buttons);
    let c = check_box_sync(w, s, f, use_hrtf);
    assert(c[0] == (w.cb_spot_shadows, s.spot_shadows_enabled));
    assert(c[1] == (w.cb_soft_spot_shadows, s.spot_soft_shadows));
    assert(c[2] == (w.cb_point_shadows, s.point_shadows_enabled));
    assert(c[3] == (w.cb_soft_point_shadows, s.point_soft_shadows));
    assert(c[4] == (w.cb_mouse_y_inverse, f.mouse_y_inverse));
    assert(c[5] == (w.cb_smooth_mouse, f.smooth_mouse));
    assert(c[6] == (w.cb_shake_camera, f.shake_camera));
    assert(c[7] == (w.cb_use_hrtf, use_hrtf));
    let b = scroll_bar_sync(w);
    assert(b[0] == (w.sb_point_shadow_distance, NumericSetting::PointShadowDistance));
    assert(b[1] == (w.sb_spot_shadow_distance, NumericSetting::SpotShadowDistance));
    assert(b[2] == (w.sb_mouse_sens, NumericSetting::MouseSensitivity));
    assert(b[3] == (w.sb_sound_volume, NumericSetting::SoundVolume));
}

/// The modes the menu offers among `available`.
pub open spec fn offered_modes(available: Seq<VideoMode>) -> Seq<VideoMode> {
    available.filter(|m: VideoMode| is_offered(m))
}

/// The offered video modes are exactly the reported ones that are wider
/// than 800 pixels, taller than 600 pixels and 32 bits deep.
pub proof fn law_offered_modes_by_fields(available: Seq<VideoMode>)
    ensures
        forall|k: int|
            0 <= k < offered_modes(available).len() ==> #[trigger] offered_modes(available)[k].width
                > 800 && offered_modes(available)[k].height > 600 && offered_modes(available)[k].bit_depth
                == 32,
        forall|i: int|
            0 <= i < available.len() && available[i].width > 800 && available[i].height > 600
                && available[i].bit_depth == 32 ==> offered_modes(available).contains(
                #[trigger] available[i],
            ),
{
    assert forall|k: int| 0 <= k < offered_modes(available).len() implies #[trigger] offered_modes(
        available,
    )[k].width > 800 && offered_modes(available)[k].height > 600 && offered_modes(available)[k].bit_depth
        == 32 by {
        available.lemma_filter_pred(|m: VideoMode| is_offered(m), k);
    }
    assert forall|i: int|
        0 <= i < available.len() && available[i].width > 800 && available[i].height > 600
            && available[i].bit_depth == 32 implies offered_modes(available).contains(
        #[trigger] available[i],
    ) by {
        available.lemma_filter_contains(|m: VideoMode| is_offered(m), i);
    }
}

/// A waiting binding takes the button that the next input designates: it
/// is bound to that button under its own description, every other binding
/// stays as it was, the waiting ends, and the binding's widget is to show
/// the new button.
pub proof fn law_waiting_binding_takes_the_input<K>(
    m: MenuView,
    defs: Seq<ControlButtonDefinition<K>>,
    input: InputEvent<K>,
    i: usize,
    b: ControlButton<K>,
)
    requires
        m.wf(),
        m.active_control_button == Some(i),
        i < defs.len(),
        designated_button(input) == Some(b),
    ensures
        bindings_after_input(m, defs, input).len() == defs.len(),
        bindings_after_input(m, defs, input)[i as int].button == b,
        bindings_after_input(m, defs, input)[i as int].description == defs[i as int].description,
        forall|j: int|
            0 <= j < defs.len() && j != i ==> #[trigger] bindings_after_input(m, defs, input)[j]
                == defs[j],
        (menu_after_input(m, input).active_control_button is None),
        menu_after_input(m, input).control_scheme_buttons == m.control_scheme_buttons,
        label_after_input(m, input) == Some((m.control_scheme_buttons[i as int], b)),
{
}

/// The number that a sequence of decimal digits denotes.
pub open spec fn digits_value(digits: Seq<char>) -> int
    decreases digits.len(),
{
    if digits.len() == 0 {
        0
    } else {
        digits_value(digits.drop_last()) * 10 + (digits.last() as int - '0' as int)
    }
}

/// Each digit character stands for its digit.
proof fn lemma_digit_char_value(d: nat)
    requires
        d < 10,
    ensures
        digit_char(d) as int - '0' as int == d,
        '0' as int <= digit_char(d) as int <= '9' as int,
{
    assert('0' as int == 48);
    assert('9' as int == 57);
    if d == 0 {
        assert('0' as int == 48);
    } else if d == 1 {
        assert('1' as int == 49);
    } else if d == 2 {
        assert('2' as int == 50);
    } else if d == 3 {
        assert('3' as int == 51);
    } else if d == 4 {
        assert('4' as int == 52);
    } else if d == 5 {
        assert('5' as int == 53);
    } else if d == 6 {
        assert('6' as int == 54);
    } else if d == 7 {
        assert('7' as int == 55);
    } else if d == 8 {
        assert('8' as int == 56);
    } else {
        assert('9' as int == 57);
    }
}

/// The decimal notation of `n` is a non-empty string of the digits `0` to
/// `9`, without a leading zero unless it is `0` itself, and it reads back
/// as `n`.
pub proof fn law_decimal_reads_back(n: nat)
    ensures
        digits_value(decimal(n)) == n,
        decimal(n).len() >= 1,
        forall|k: int|
            0 <= k < decimal(n).len() ==> '0' as int <= #[trigger] decimal(n)[k] as int <= '9' as int,
        n >= 10 ==> decimal(n)[0] != '0',
    decreases n,
{
    if n < 10 {
        lemma_digit_char_value(n);
        assert(decimal(n).drop_last() =~= Seq::<char>::empty());
        assert(digits_value(Seq::<char>::empty()) == 0);
        assert(digits_value(decimal(n)) == digits_value(decimal(n).drop_last()) * 10 + (
        decimal(n).last() as int - '0' as int));
    } else {
        law_decimal_reads_back(n / 10);
        lemma_digit_char_value(n % 10);
        let d = decimal(n);
        assert(d.drop_last() =~= decimal(n / 10));
        assert(d.last() == digit_char(n % 10));
        assert(digits_value(d) == digits_value(d.drop_last()) * 10 + (d.last() as int - '0' as int));
        assert(n == (n / 10) * 10 + n % 10);
        assert(d[0] == decimal(n / 10)[0]);
        assert forall|k: int| 0 <= k < d.len() implies '0' as int <= #[trigger] d[k] as int <= '9' as int by {
            if k < d.len() - 1 {
                assert(d[k] == decimal(n / 10)[k]);
            }
        }
    }
}

/// The list entry of a video mode reads: the width's digits, `x`, the
/// height's digits, `@`, the refresh rate's digits, `Hz`.
pub proof fn law_video_mode_text_layout(mode: VideoMode)
    ensures
        ({
            let t = video_mode_text(mode);
            let w = decimal(mode.width as nat).len() as int;
            let h = decimal(mode.height as nat).len() as int;
            let r = decimal(mode.refresh_rate as nat).len() as int;
            &&& t.len() == w + h + r + 4
            &&& t.subrange(0, w) == decimal(mode.width as nat)
            &&& t[w] == 'x'
            &&& t.subrange(w + 1, w + 1 + h) == decimal(mode.height as nat)
            &&& t[w + 1 + h] == '@'
            &&& t.subrange(w + 2 + h, w + 2 + h + r) == decimal(mode.refresh_rate as nat)
            &&& t[w + 2 + h + r] == 'H'
            &&& t[w + 3 + h + r] == 'z'
        }),
{
    let t = video_mode_text(mode);
    let w = decimal(mode.width as nat).len() as int;
    let h = decimal(mode.height as nat).len() as int;
    let r = decimal(mode.refresh_rate as nat).len() as int;
    assert(t.subrange(0, w) =~= decimal(mode.width as nat));
    assert(t.subrange(w + 1, w + 1 + h) =~= decimal(mode.height as nat));
    assert(t.subrange(w + 2 + h, w + 2 + h + r) =~= decimal(mode.refresh_rate as nat));
}

/// Synchronising labels each binding's button widget, as far as both lists
/// go, with the button of the binding at the same position.
pub proof fn law_sync_labels_pair_by_position<K>(
    buttons: Seq<WidgetHandle>,
    defs: Seq<ControlButtonDefinition<K>>,
)
    ensures
        label_sync(buttons, defs).len() == if buttons.len() <= defs.len() {
            buttons.len()
        } else {
            defs.len()
        },
        forall|k: int|
            0 <= k < label_sync(buttons, defs).len() ==> #[trigger] label_sync(buttons, defs)[k] == (
                buttons[k],
                defs[k].button,
            ),
{
}

} // verus!
