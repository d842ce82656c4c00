use crate::image::RgbImage;
use crate::settings::Settings;
use vstd::prelude::*;

verus! {

/// Whether the worker holds a live stream, as reported to the display
/// layer through messages; it is never polled.
#[derive(Clone, Copy, PartialEq, Eq, Structural, Debug)]
pub enum ConnectionStatus {
    Disconnected,
    Connected,
}

/// One rendered frame: the colorized image together with the dynamic
/// range of the raster it was rendered from. `min` and `max` are raw
/// sensor units, tenths of a degree; the display layer divides by ten.
#[derive(Clone, PartialEq, Eq, Debug)]
pub struct Frame {
    pub image: RgbImage,
    pub min: u16,
    pub max: u16,
}

/// Messages from the worker to the display layer.
#[derive(Clone, PartialEq, Eq, Debug)]
pub enum ProducerMessage {
    Frame(Frame),
    ConnectionStatusChange(ConnectionStatus),
}

/// Messages from the display layer to the worker.
#[derive(Clone, PartialEq, Eq, Debug)]
pub enum UiMessage {
    ChangeSettings(Settings),
}

/// The settings snapshot a message carries.
pub open spec fn settings_of(m: UiMessage) -> Settings {
    match m {
        UiMessage::ChangeSettings(s) => s,
    }
}

} // verus!
