use vstd::prelude::*;

verus! {

/// The render settings: image size, samples per pixel, where the image is
/// written and whether it is also shown in the terminal.
pub struct Config {
    width: u32,
    height: u32,
    samples: u32,
    output: String,
    inline: bool,
}

/// The settings as plain values.
pub struct ConfigView {
    pub width: u32,
    pub height: u32,
    pub samples: u32,
    pub output: Seq<char>,
    pub inline: bool,
}

impl View for Config {
    type V = ConfigView;

    closed spec fn view(&self) -> ConfigView {
        ConfigView {
            width: self.width,
            height: self.height,
            samples: self.samples,
            output: self.output@,
            inline: self.inline,
        }
    }
}

impl Config {
    /// Settings from their values.
    pub fn new(width: u32, height: u32, samples: u32, output: String, inline: bool) -> (r: Self)
        ensures
            r@ == (ConfigView { width, height, samples, output: output@, inline }),
    {
        Config { width, height, samples, output, inline }
    }

    /// Image width in pixels.
    pub fn width(&self) -> (r: u32)
        ensures
            r == self@.width,
    {
        self.width
    }

    /// Image height in pixels.
    pub fn height(&self) -> (r: u32)
        ensures
            r == self@.height,
    {
        self.height
    }

    /// Samples averaged per pixel.
    pub fn samples(&self) -> (r: u32)
        ensures
            r == self@.samples,
    {
        self.samples
    }

    /// Path of the image file.
    pub fn output(&self) -> (r: &str)
        ensures
            r@ == self@.output,
    {
        self.output.as_str()
    }

    /// Whether the image is also shown in the terminal.
    pub fn inline(&self) -> (r: bool)
        ensures
            r == self@.inline,
    {
        self.inline
    }
}

} // verus!
