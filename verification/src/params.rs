use vstd::prelude::*;
use crate::envelope::AMP_ONE;
use crate::oscillator::FREQ_MAX_MHZ;
use crate::text::{scaled_decimal, spec_scaled_decimal};

verus! {

/// How many addressable parameters the surface exposes.
pub const PARAM_COUNT: i32 = 5;

/// The parameter surface shared between the renderer and the control
/// thread. The renderer owns the writes to `brightness` and `playing`; the
/// control thread owns the writes to the color channels and `frequency_mhz`.
/// Each field is published atomically by the embedding, one field at a
/// time; nothing here assumes consistency across fields.
///
/// `brightness` is an amplitude fraction in `[0, AMP_ONE]`; `frequency_mhz`
/// is the oscillator frequency in millihertz, at most `FREQ_MAX_MHZ`.
pub struct FlashbangParameters {
    pub brightness: u32,
    pub playing: bool,
    pub frequency_mhz: u32,
    pub red: u8,
    pub green: u8,
    pub blue: u8,
}

impl FlashbangParameters {
    /// Every stored value sits inside its declared range.
    pub open spec fn inv(self) -> bool {
        &&& self.brightness <= AMP_ONE
        &&& self.frequency_mhz <= FREQ_MAX_MHZ
    }

    /// The value read back for a parameter index: brightness, the three
    /// color channels, then frequency; an out-of-range index reads 0.
    pub open spec fn spec_get(self, index: i32) -> u32 {
        if index == 0 {
            self.brightness
        } else if index == 1 {
            self.red as u32
        } else if index == 2 {
            self.green as u32
        } else if index == 3 {
            self.blue as u32
        } else if index == 4 {
            self.frequency_mhz
        } else {
            0
        }
    }

    /// The highest value a parameter index accepts; writes above it are
    /// clamped down to it.
    pub open spec fn spec_max(index: i32) -> u32 {
        if index == 0 {
            AMP_ONE
        } else if 1 <= index <= 3 {
            255
        } else if index == 4 {
            FREQ_MAX_MHZ
        } else {
            0
        }
    }

    /// The state after writing `value` to a parameter index: the addressed
    /// field holds the value clamped into its range, every other field is
    /// untouched, and an out-of-range index writes nothing.
    pub open spec fn spec_set(self, index: i32, value: u32) -> FlashbangParameters {
        let v = if value <= Self::spec_max(index) {
            value
        } else {
            Self::spec_max(index)
        };
        if index == 0 {
            FlashbangParameters { brightness: v, ..self }
        } else if index == 1 {
            FlashbangParameters { red: v as u8, ..self }
        } else if index == 2 {
            FlashbangParameters { green: v as u8, ..self }
        } else if index == 3 {
            FlashbangParameters { blue: v as u8, ..self }
        } else if index == 4 {
            FlashbangParameters { frequency_mhz: v, ..self }
        } else {
            self
        }
    }

    /// Read the addressed parameter.
    pub fn get_parameter(&self, index: i32) -> (value: u32)
        ensures
            value == self.spec_get(index),
    {
        match index {
            0 => self.brightness,
            1 => self.red as u32,
            2 => self.green as u32,
            3 => self.blue as u32,
            4 => self.frequency_mhz,
            _ => 0,
        }
    }

    /// Write the addressed parameter, clamping the value into the
    /// parameter's range; an out-of-range index is a no-op.
    pub fn set_parameter(&mut self, index: i32, value: u32)
        ensures
            *final(self) == old(self).spec_set(index, value),
            old(self).inv() ==> final(self).inv(),
    {
        match index {
            0 => {
                self.brightness = if value <= AMP_ONE {
                    value
                } else {
                    AMP_ONE
                };
            },
            1 => {
                self.red = if value <= 255 {
                    value as u8
                } else {
                    255
                };
            },
            2 => {
                self.green = if value <= 255 {
                    value as u8
                } else {
                    255
                };
            },
            3 => {
                self.blue = if value <= 255 {
                    value as u8
                } else {
                    255
                };
            },
            4 => {
                self.frequency_mhz = if value <= FREQ_MAX_MHZ {
                    value
                } else {
                    FREQ_MAX_MHZ
                };
            },
            _ => {},
        }
    }

    /// The label of the addressed parameter; an out-of-range index has the
    /// empty label.
    pub fn get_parameter_name(&self, index: i32) -> (name: String)
        ensures
            index == 0 ==> name@ == "Brightness"@,
            index == 1 ==> name@ == "Red"@,
            index == 2 ==> name@ == "Green"@,
            index == 3 ==> name@ == "Blue"@,
            index == 4 ==> name@ == "Frequency"@,
            !(0 <= index < PARAM_COUNT) ==> name@ == ""@,
    {
        match index {
            0 => "Brightness".to_owned(),
            1 => "Red".to_owned(),
            2 => "Green".to_owned(),
            3 => "Blue".to_owned(),
            4 => "Frequency".to_owned(),
            _ => "".to_owned(),
        }
    }

    /// How many decimal places separate a parameter's stored fixed-point
    /// value from its display unit: brightness is stored in millionths of
    /// its 0–1 range, frequency in thousandths of a hertz, and the color
    /// channels are already in display units.
    pub open spec fn spec_places(index: i32) -> nat {
        if index == 0 {
            6
        } else if index == 4 {
            3
        } else {
            0
        }
    }

    /// The value of the addressed parameter, rendered in decimal in its
    /// display unit — brightness over 0–1, the color channels over 0–255,
    /// frequency in hertz; an out-of-range index has the empty text.
    pub fn get_parameter_text(&self, index: i32) -> (text: String)
        ensures
            0 <= index < PARAM_COUNT ==> text@ == spec_scaled_decimal(
                self.spec_get(index) as int,
                Self::spec_places(index),
            ),
            !(0 <= index < PARAM_COUNT) ==> text@ == ""@,
    {
        if 0 <= index && index < PARAM_COUNT {
            let places: u32 = if index == 0 {
                6
            } else if index == 4 {
                3
            } else {
                0
            };
            scaled_decimal(self.get_parameter(index), places)
        } else {
            "".to_owned()
        }
    }
}

impl Default for FlashbangParameters {
    /// The power-on parameter state: dark, silent, a 5 kHz tone, and all
    /// three color channels at full.
    fn default() -> (p: FlashbangParameters)
        ensures
            p.inv(),
            p.brightness == 0,
            !p.playing,
            p.frequency_mhz == 5_000_000,
            p.red == 255,
            p.green == 255,
            p.blue == 255,
    {
        FlashbangParameters {
            brightness: 0,
            playing: false,
            frequency_mhz: 5_000_000,
            red: 255,
            green: 255,
            blue: 255,
        }
    }
}

/// Parameter round-trip: a value written to any of the five parameter
/// indices, within that parameter's range, is read back unchanged.
pub proof fn lemma_parameter_round_trip(p: FlashbangParameters, index: i32, value: u32)
    requires
        0 <= index < PARAM_COUNT,
        value <= FlashbangParameters::spec_max(index),
    ensures
        p.spec_set(index, value).spec_get(index) == value,
{
}

} // verus!
