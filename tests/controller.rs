use gameboy_eink::controller::{Controller, PanelAction};

fn is_clear(a: &PanelAction) -> bool {
    matches!(a, PanelAction::Clear)
}

#[test]
fn eleventh_draw_wipes_once_before_push() {
    let mut c = Controller::new();
    c.cleared();
    let mut wipes = 0;
    for n in 1..=11 {
        let acts = c.draw();
        let clear_at = acts.iter().position(is_clear);
        let push_at = acts.iter().position(|a| matches!(a, PanelAction::UpdateAndDisplay)).unwrap();
        if let Some(k) = clear_at {
            wipes += 1;
            assert_eq!(n, 11);
            assert!(k < push_at);
            assert!(matches!(acts[0], PanelAction::SetBackground(epd_waveshare::color::OctColor::HiZ)));
            c.cleared();
        }
        assert!(matches!(acts[acts.len() - 3], PanelAction::SetBackground(epd_waveshare::color::OctColor::White)));
        assert!(matches!(acts[acts.len() - 2], PanelAction::Render));
    }
    assert_eq!(wipes, 1);
    assert_eq!(c.frames_since_clear, 0);
}

#[test]
fn failed_draw_still_counts() {
    let mut c = Controller::new();
    for _ in 0..10 {
        let acts = c.draw();
        assert_eq!(acts.len(), 3);
    }
    // the eleventh draw asks for a wipe; if the clear fails the count is not reset
    let acts = c.draw();
    assert_eq!(acts.len(), 5);
    assert_eq!(c.frames_since_clear, 11);
    let acts = c.draw();
    assert_eq!(acts.len(), 5);
    assert_eq!(c.frames_since_clear, 12);
}

#[test]
fn wipe_sets_unset_background_then_clears() {
    let c = Controller::new();
    let acts = c.wipe();
    assert_eq!(acts.len(), 2);
    assert!(matches!(acts[0], PanelAction::SetBackground(epd_waveshare::color::OctColor::HiZ)));
    assert!(is_clear(&acts[1]));
}
