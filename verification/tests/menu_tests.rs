use options_menu::controls::{
    AxisSign, ControlButton, ControlButtonDefinition, ControlScheme, InputEvent, MouseButton,
    ScrollDelta,
};
use options_menu::menu::{
    collect_handles, handles_distinct, last_position, numeric_target_of, widgets_distinct, reset_request_of, MenuWidgets, NumericSetting, OptionsMenu,
    ResetRequest, ShadowSettings, UiEvent, UiEventKind, UiResponse, WidgetHandle,
};
use options_menu::plan::{plan_menu, InitialChecks};
use options_menu::video::VideoMode;

fn h(index: u32) -> WidgetHandle {
    WidgetHandle { index, generation: 1 }
}

fn widgets() -> MenuWidgets {
    MenuWidgets {
        window: h(0),
        sb_sound_volume: h(1),
        sb_music_volume: h(2),
        lb_video_modes: h(3),
        cb_fullscreen: h(4),
        cb_spot_shadows: h(5),
        cb_soft_spot_shadows: h(6),
        cb_point_shadows: h(7),
        cb_soft_point_shadows: h(8),
        sb_point_shadow_distance: h(9),
        sb_spot_shadow_distance: h(10),
        sb_mouse_sens: h(11),
        cb_mouse_y_inverse: h(12),
        cb_smooth_mouse: h(13),
        cb_shake_camera: h(14),
        btn_reset_control_scheme: h(15),
        cb_use_hrtf: h(16),
        btn_reset_audio_settings: h(17),
    }
}

fn modes() -> Vec<VideoMode> {
    vec![
        VideoMode { width: 1280, height: 720, bit_depth: 32, refresh_rate: 60 },
        VideoMode { width: 1920, height: 1080, bit_depth: 32, refresh_rate: 60 },
    ]
}

fn menu() -> OptionsMenu {
    OptionsMenu::new(widgets(), vec![h(20), h(21), h(22)], plan_menu(&modes(), settings(), &scheme()))
}

fn scheme() -> ControlScheme<u32> {
    ControlScheme {
        buttons: vec![
            ControlButtonDefinition { description: "Move Forward".to_string(), button: ControlButton::Key(17) },
            ControlButtonDefinition { description: "Shoot".to_string(), button: ControlButton::Mouse(1) },
            ControlButtonDefinition { description: "Next Weapon".to_string(), button: ControlButton::WheelUp },
        ],
        mouse_y_inverse: false,
        smooth_mouse: true,
        shake_camera: true,
    }
}

fn settings() -> ShadowSettings {
    ShadowSettings {
        spot_shadows_enabled: true,
        spot_soft_shadows: false,
        point_shadows_enabled: true,
        point_soft_shadows: false,
    }
}

fn quiet(s: ShadowSettings) -> UiResponse {
    UiResponse { numeric: None, fullscreen: None, settings: s, reset: None, awaiting_input: None }
}

fn bound(s: &ControlScheme<u32>) -> Vec<ControlButton<u32>> {
    s.buttons.iter().map(|d| d.button).collect()
}

#[test]
fn new_menu_waits_for_nothing() {
    let m = menu();
    assert_eq!(m.active_control_button(), None);
    assert_eq!(m.window(), h(0));
    assert_eq!(m.sb_music_volume(), h(2));
    assert_eq!(m.widgets(), widgets());
    assert_eq!(m.control_scheme_buttons(), &vec![h(20), h(21), h(22)]);
    assert_eq!(m.video_modes(), &modes());
    assert_eq!(m.control_scheme_buttons().len(), scheme().buttons.len());
}

#[test]
fn click_then_key_rebinds_the_clicked_control() {
    let mut m = menu();
    let mut s = scheme();
    let r = m.handle_ui_event(&mut s, settings(), &UiEvent { source: h(21), kind: UiEventKind::Click });
    assert_eq!(r, UiResponse { awaiting_input: Some(1), ..quiet(settings()) });
    assert_eq!(m.active_control_button(), Some(1));
    let label = m.process_input_event(&mut s, &InputEvent::KeyboardInput(Some(57)));
    assert_eq!(label, Some((h(21), ControlButton::Key(57))));
    assert_eq!(bound(&s), vec![ControlButton::Key(17), ControlButton::Key(57), ControlButton::WheelUp]);
    assert_eq!(s.buttons[1].description, "Shoot");
    assert_eq!(m.active_control_button(), None);
}

#[test]
fn wheel_and_mouse_rebind_too() {
    let mut m = menu();
    let mut s = scheme();
    m.handle_ui_event(&mut s, settings(), &UiEvent { source: h(20), kind: UiEventKind::Click });
    let label = m.process_input_event(
        &mut s,
        &InputEvent::MouseWheel(ScrollDelta::LineDelta(AxisSign::Negative)),
    );
    assert_eq!(label, Some((h(20), ControlButton::WheelDown)));
    m.handle_ui_event(&mut s, settings(), &UiEvent { source: h(22), kind: UiEventKind::Click });
    let label = m.process_input_event(&mut s, &InputEvent::MouseInput(MouseButton::Middle));
    assert_eq!(label, Some((h(22), ControlButton::Mouse(3))));
    assert_eq!(bound(&s), vec![ControlButton::WheelDown, ControlButton::Mouse(1), ControlButton::Mouse(3)]);
}

#[test]
fn input_without_waiting_changes_nothing() {
    let mut m = menu();
    let mut s = scheme();
    let label = m.process_input_event(&mut s, &InputEvent::KeyboardInput(Some(3)));
    assert_eq!(label, None);
    assert_eq!(bound(&s), bound(&scheme()));
}

#[test]
fn input_without_a_button_keeps_waiting() {
    let mut m = menu();
    let mut s = scheme();
    m.handle_ui_event(&mut s, settings(), &UiEvent { source: h(22), kind: UiEventKind::Click });
    assert_eq!(m.process_input_event(&mut s, &InputEvent::KeyboardInput(None)), None);
    assert_eq!(m.process_input_event(&mut s, &InputEvent::MouseWheel(ScrollDelta::PixelDelta)), None);
    assert_eq!(m.process_input_event(&mut s, &InputEvent::Other), None);
    assert_eq!(m.active_control_button(), Some(2));
    assert_eq!(bound(&s), bound(&scheme()));
}

#[test]
fn a_later_click_moves_the_waiting() {
    let mut m = menu();
    let mut s = scheme();
    m.handle_ui_event(&mut s, settings(), &UiEvent { source: h(20), kind: UiEventKind::Click });
    m.handle_ui_event(&mut s, settings(), &UiEvent { source: h(22), kind: UiEventKind::Click });
    assert_eq!(m.active_control_button(), Some(2));
    let r = m.handle_ui_event(&mut s, settings(), &UiEvent { source: h(1), kind: UiEventKind::Click });
    assert_eq!(r, quiet(settings()));
    assert_eq!(m.active_control_button(), Some(2));
}

#[test]
fn numeric_changes_name_their_setting() {
    let mut m = menu();
    let mut s = scheme();
    let cases = [
        (h(1), Some(NumericSetting::SoundVolume)),
        (h(9), Some(NumericSetting::PointShadowDistance)),
        (h(10), Some(NumericSetting::SpotShadowDistance)),
        (h(11), Some(NumericSetting::MouseSensitivity)),
        (h(2), Some(NumericSetting::MusicVolume)),
        (h(5), None),
    ];
    for (source, target) in cases {
        let r = m.handle_ui_event(&mut s, settings(), &UiEvent { source, kind: UiEventKind::NumericValueChanged });
        assert_eq!(r, UiResponse { numeric: target, ..quiet(settings()) });
        assert_eq!(numeric_target_of(&widgets(), source), target);
    }
}

#[test]
fn selecting_a_mode_asks_for_fullscreen() {
    let mut m = menu();
    let mut s = scheme();
    let r = m.handle_ui_event(&mut s, settings(), &UiEvent { source: h(3), kind: UiEventKind::SelectionChanged(Some(1)) });
    assert_eq!(r.fullscreen, Some(modes()[1]));
    let r = m.handle_ui_event(&mut s, settings(), &UiEvent { source: h(3), kind: UiEventKind::SelectionChanged(None) });
    assert_eq!(r, quiet(settings()));
    let r = m.handle_ui_event(&mut s, settings(), &UiEvent { source: h(4), kind: UiEventKind::SelectionChanged(Some(0)) });
    assert_eq!(r, quiet(settings()));
}

#[test]
fn shadow_boxes_set_their_setting() {
    let mut m = menu();
    let mut s = scheme();
    let r = m.handle_ui_event(&mut s, settings(), &UiEvent { source: h(7), kind: UiEventKind::Checked(Some(false)) });
    assert_eq!(r.settings, ShadowSettings { point_shadows_enabled: false, ..settings() });
    let r = m.handle_ui_event(&mut s, settings(), &UiEvent { source: h(5), kind: UiEventKind::Checked(None) });
    assert_eq!(r.settings, ShadowSettings { spot_shadows_enabled: false, ..settings() });
    let r = m.handle_ui_event(&mut s, settings(), &UiEvent { source: h(6), kind: UiEventKind::Checked(Some(true)) });
    assert_eq!(r.settings, ShadowSettings { spot_soft_shadows: true, ..settings() });
    let r = m.handle_ui_event(&mut s, settings(), &UiEvent { source: h(8), kind: UiEventKind::Checked(Some(true)) });
    assert_eq!(r.settings, ShadowSettings { point_soft_shadows: true, ..settings() });
    assert!(!s.mouse_y_inverse && s.smooth_mouse && s.shake_camera);
}

#[test]
fn mouse_boxes_set_the_scheme() {
    let mut m = menu();
    let mut s = scheme();
    let r = m.handle_ui_event(&mut s, settings(), &UiEvent { source: h(12), kind: UiEventKind::Checked(Some(true)) });
    assert_eq!(r, quiet(settings()));
    m.handle_ui_event(&mut s, settings(), &UiEvent { source: h(13), kind: UiEventKind::Checked(Some(false)) });
    m.handle_ui_event(&mut s, settings(), &UiEvent { source: h(14), kind: UiEventKind::Checked(None) });
    assert!(s.mouse_y_inverse && !s.smooth_mouse && !s.shake_camera);
}

#[test]
fn fullscreen_and_hrtf_boxes_change_nothing() {
    let mut m = menu();
    let mut s = scheme();
    for source in [h(4), h(16)] {
        let r = m.handle_ui_event(&mut s, settings(), &UiEvent { source, kind: UiEventKind::Checked(Some(false)) });
        assert_eq!(r, quiet(settings()));
    }
    assert!(!s.mouse_y_inverse && s.smooth_mouse && s.shake_camera);
}

#[test]
fn reset_buttons_ask_for_their_reset() {
    let mut m = menu();
    let mut s = scheme();
    let r = m.handle_ui_event(&mut s, settings(), &UiEvent { source: h(15), kind: UiEventKind::Click });
    assert_eq!(r, UiResponse { reset: Some(ResetRequest::ControlScheme), ..quiet(settings()) });
    let r = m.handle_ui_event(&mut s, settings(), &UiEvent { source: h(17), kind: UiEventKind::Click });
    assert_eq!(r, UiResponse { reset: Some(ResetRequest::AudioSettings), ..quiet(settings()) });
    assert_eq!(reset_request_of(&widgets(), h(15)), Some(ResetRequest::ControlScheme));
    assert_eq!(reset_request_of(&widgets(), h(3)), None);
}

#[test]
fn foreign_widgets_are_ignored() {
    let mut m = menu();
    let mut s = scheme();
    let kinds = [
        UiEventKind::Click,
        UiEventKind::NumericValueChanged,
        UiEventKind::Checked(Some(true)),
        UiEventKind::SelectionChanged(Some(0)),
        UiEventKind::Other,
    ];
    for kind in kinds {
        let r = m.handle_ui_event(&mut s, settings(), &UiEvent { source: h(99), kind });
        assert_eq!(r, quiet(settings()));
    }
    assert_eq!(m.active_control_button(), None);
    assert!(!s.mouse_y_inverse && s.smooth_mouse && s.shake_camera);
}

#[test]
fn repeated_check_settles() {
    let mut m = menu();
    let mut s = scheme();
    let e = UiEvent { source: h(8), kind: UiEventKind::Checked(Some(true)) };
    let once = m.handle_ui_event(&mut s, settings(), &e).settings;
    let twice = m.handle_ui_event(&mut s, once, &e).settings;
    assert_eq!(once, twice);
}

#[test]
fn last_position_finds_the_last_match() {
    let hs = vec![h(1), h(2), h(1), h(3)];
    assert_eq!(last_position(&hs, h(1)), Some(2));
    assert_eq!(last_position(&hs, h(3)), Some(3));
    assert_eq!(last_position(&hs, h(4)), None);
    assert_eq!(last_position(&hs, WidgetHandle { index: 1, generation: 2 }), None);
}

#[test]
fn sync_plan_shows_the_model() {
    let mut m = menu();
    let mut s = scheme();
    m.handle_ui_event(&mut s, settings(), &UiEvent { source: h(20), kind: UiEventKind::Click });
    m.process_input_event(&mut s, &InputEvent::KeyboardInput(Some(30)));
    let plan = m.sync_to_model(&s, settings(), false);
    assert_eq!(
        plan.check_boxes,
        vec![
            (h(5), true),
            (h(6), false),
            (h(7), true),
            (h(8), false),
            (h(12), false),
            (h(13), true),
            (h(14), true),
            (h(16), false),
        ]
    );
    assert_eq!(
        plan.scroll_bars,
        vec![
            (h(9), NumericSetting::PointShadowDistance),
            (h(10), NumericSetting::SpotShadowDistance),
            (h(11), NumericSetting::MouseSensitivity),
            (h(1), NumericSetting::SoundVolume),
        ]
    );
    assert_eq!(
        plan.button_labels,
        vec![(h(20), ControlButton::Key(30)), (h(21), ControlButton::Mouse(1)), (h(22), ControlButton::WheelUp)]
    );
}

#[test]
fn sync_labels_stop_at_the_shorter_list() {
    let m = menu();
    let mut short = scheme();
    short.buttons.truncate(1);
    let plan = m.sync_to_model(&short, settings(), true);
    assert_eq!(plan.button_labels, vec![(h(20), ControlButton::Key(17))]);
    assert_eq!(plan.check_boxes[7], (h(16), true));
}

#[test]
fn plan_lays_out_a_new_menu() {
    let available = vec![
        VideoMode { width: 640, height: 480, bit_depth: 32, refresh_rate: 60 },
        VideoMode { width: 1280, height: 720, bit_depth: 32, refresh_rate: 60 },
    ];
    let plan = plan_menu(&available, settings(), &scheme());
    assert_eq!(plan.video_modes, vec![available[1]]);
    assert_eq!(plan.video_mode_positions, vec![1]);
    assert_eq!(plan.video_mode_labels, vec!["1280x720@60Hz".to_string()]);
    assert_eq!(
        plan.checks,
        InitialChecks {
            fullscreen: false,
            spot_shadows: true,
            soft_spot_shadows: false,
            point_shadows: true,
            soft_point_shadows: false,
            use_hrtf: true,
            mouse_y_inverse: false,
            smooth_mouse: true,
            shake_camera: true,
        }
    );
    assert_eq!(plan.control_rows, vec![4, 5, 6]);
    assert_eq!(plan.reset_controls_row, 7);
    assert_eq!(plan.controls_row_count, 8);
}

#[test]
fn distinct_widgets_are_recognised() {
    assert!(widgets_distinct(&widgets(), &vec![h(20), h(21), h(22)]));
    assert!(!widgets_distinct(&widgets(), &vec![h(20), h(20)]));
    assert!(!widgets_distinct(&widgets(), &vec![h(5)]));
    let mut twice = widgets();
    twice.cb_use_hrtf = h(4);
    assert!(!widgets_distinct(&twice, &Vec::new()));
    let all = collect_handles(&widgets(), &vec![h(20)]);
    assert_eq!(all.len(), 19);
    assert_eq!(all[0], h(0));
    assert_eq!(all[18], h(20));
    assert!(handles_distinct(&Vec::new()));
}

#[test]
fn check_then_sync_shows_the_value() {
    let boxes = [h(5), h(6), h(7), h(8), h(12), h(13), h(14)];
    for (k, source) in boxes.iter().enumerate() {
        for b in [true, false] {
            let mut m = menu();
            let mut s = scheme();
            let r = m.handle_ui_event(&mut s, settings(), &UiEvent { source: *source, kind: UiEventKind::Checked(Some(b)) });
            let plan = m.sync_to_model(&s, r.settings, true);
            assert_eq!(plan.check_boxes[k], (*source, b));
        }
    }
}
