use vstd::prelude::*;

use crate::ui::model::synth::AudioLevel;

verus! {

/// The page that the user interface shows below its header.
#[derive(Debug, Clone, Copy, PartialEq, Eq, Structural)]
pub enum SelectedView {
    Presets,
    Synth,
    Effects,
}

/// The title of each page, as the header's tabs show it.
pub open spec fn view_title(view: SelectedView) -> Seq<char> {
    match view {
        SelectedView::Presets => "Presets"@,
        SelectedView::Synth => "Synth"@,
        SelectedView::Effects => "Effects"@,
    }
}

impl SelectedView {
    /// The title of the page.
    pub fn title(&self) -> (title: &'static str)
        ensures
            title@ == view_title(*self),
    {
        match *self {
            SelectedView::Presets => "Presets",
            SelectedView::Synth => "Synth",
            SelectedView::Effects => "Effects",
        }
    }
}

/// The header of the user interface: the page on view, and what the audio
/// thread last reported of the active voices and the output levels.
#[derive(Debug, Clone, Copy, PartialEq, Eq, Structural)]
pub struct Header<N> {
    pub selected_view: SelectedView,
    pub active_voices: usize,
    pub left_level: AudioLevel<N>,
    pub right_level: AudioLevel<N>,
}

impl<N: Copy> Header<N> {
    /// The header as the user interface first shows it: the synth page, no
    /// active voice, and both levels at `silence`.
    pub fn new(silence: AudioLevel<N>) -> (header: Header<N>)
        ensures
            header == (Header {
                selected_view: SelectedView::Synth,
                active_voices: 0,
                left_level: silence,
                right_level: silence,
            }),
    {
        Header { selected_view: SelectedView::Synth, active_voices: 0, left_level: silence, right_level: silence }
    }

    /// Shows what the audio thread reported; the page on view stays.
    pub fn update_feedback(&mut self, active_voices: usize, left_level: AudioLevel<N>, right_level: AudioLevel<N>)
        ensures
            *final(self) == (Header { active_voices, left_level, right_level, ..*old(self) }),
    {
        self.active_voices = active_voices;
        self.left_level = left_level;
        self.right_level = right_level;
    }
}

} // verus!
