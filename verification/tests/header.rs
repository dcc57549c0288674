use kiro_synth_host::ui::data::header::{Header, SelectedView};
use kiro_synth_host::ui::model::synth::AudioLevel;

#[test]
fn selected_view_titles() {
    assert_eq!(SelectedView::Presets.title(), "Presets");
    assert_eq!(SelectedView::Synth.title(), "Synth");
    assert_eq!(SelectedView::Effects.title(), "Effects");
}

#[test]
fn selected_view_titles_are_distinct() {
    let titles = [
        SelectedView::Presets.title(),
        SelectedView::Synth.title(),
        SelectedView::Effects.title(),
    ];
    assert_ne!(titles[0], titles[1]);
    assert_ne!(titles[1], titles[2]);
    assert_ne!(titles[0], titles[2]);
}

#[test]
fn header_shows_feedback() {
    let silence = AudioLevel { peak: f64::NEG_INFINITY, level: f64::NEG_INFINITY };
    let mut header = Header::new(silence);
    assert_eq!(header.selected_view, SelectedView::Synth);
    assert_eq!(header.active_voices, 0);
    assert_eq!(header.left_level, silence);
    header.selected_view = SelectedView::Effects;
    let left = AudioLevel { peak: -1.0, level: -2.0 };
    let right = AudioLevel { peak: -3.0, level: -4.0 };
    header.update_feedback(3, left, right);
    assert_eq!(header.active_voices, 3);
    assert_eq!(header.left_level, left);
    assert_eq!(header.right_level, right);
    assert_eq!(header.selected_view, SelectedView::Effects);
}
