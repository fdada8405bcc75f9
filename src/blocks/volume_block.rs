use vstd::prelude::*;

use super::{segment_of, single_segment, BlockInterface, BlockOutput, SegmentView};
use crate::colors::Color;
use crate::events::{Button, InputEvent};

verus! {

/// What a click on the volume block asks the sound server to do.
#[derive(Debug, Clone, Copy, PartialEq, Eq, Structural)]
pub enum VolumeCommand {
    ToggleMute,
    Raise,
    Lower,
}

pub open spec fn volume_command_of(b: Button) -> Option<VolumeCommand> {
    match b {
        Button::Left => Some(VolumeCommand::ToggleMute),
        Button::ScrollUp => Some(VolumeCommand::Raise),
        Button::ScrollDown => Some(VolumeCommand::Lower),
        _ => None,
    }
}

/// The volume of the default output device.
#[derive(Debug)]
pub struct VolumeBlock {
    pub text: String,
}

impl Default for VolumeBlock {
    fn default() -> (r: VolumeBlock)
        ensures
            r.text@ == Seq::<char>::empty(),
    {
        VolumeBlock { text: String::new() }
    }
}

impl VolumeBlock {
    pub fn color(&self) -> (r: Color)
        ensures
            r == Color::Red,
    {
        Color::Red
    }

    pub fn text(&self) -> (r: &str)
        ensures
            r@ == self.text@,
    {
        self.text.as_str()
    }

    /// Shows the device's average volume, as the sound server writes it.
    pub fn update(&mut self, volume: &str)
        ensures
            final(self).text@ == volume@,
    {
        self.text = String::from_str(volume);
    }

    /// The command that a click asks for; `None` when the click is ignored.
    pub fn handle_input(&self, event: &InputEvent) -> (r: Option<VolumeCommand>)
        ensures
            r == volume_command_of(event.button),
    {
        match event.button {
            Button::Left => Some(VolumeCommand::ToggleMute),
            Button::ScrollUp => Some(VolumeCommand::Raise),
            Button::ScrollDown => Some(VolumeCommand::Lower),
            _ => None,
        }
    }
}

impl BlockInterface for VolumeBlock {
    open spec fn name_spec(&self) -> Seq<char> {
        "volume"@
    }

    open spec fn segments_spec(&self) -> Seq<SegmentView> {
        seq![segment_of("volume"@, self.text@, Color::Red)]
    }

    fn name(&self) -> (r: &str) {
        "volume"
    }

    fn get_blocks(&self) -> (r: Vec<BlockOutput>) {
        single_segment("volume", self.text.as_str(), Color::Red)
    }
}

} // verus!
