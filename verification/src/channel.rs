//! Oscilloscope channels and the names under which the oscilloscope addresses them.

use vstd::prelude::*;

verus! {

/// A channel of the oscilloscope, or none.
#[derive(Clone, Copy, Debug, PartialEq, Eq, Structural, Hash, PartialOrd, Ord)]
pub enum Channel {
    Off,
    Ch1,
    Ch2,
    Ch3,
    Ch4,
    D0,
    D1,
    D2,
    D3,
    D4,
    D5,
    D6,
    D7,
    D8,
    D9,
    D10,
    D11,
    D12,
    D13,
    D14,
    D15,
}

impl Channel {
    /// The name under which the oscilloscope addresses this channel.
    pub open spec fn code_spec(self) -> Seq<char> {
        match self {
            Channel::Off => seq!['O', 'F', 'F'],
            Channel::Ch1 => seq!['C', 'H', 'A', 'N', '1'],
            Channel::Ch2 => seq!['C', 'H', 'A', 'N', '2'],
            Channel::Ch3 => seq!['C', 'H', 'A', 'N', '3'],
            Channel::Ch4 => seq!['C', 'H', 'A', 'N', '4'],
            Channel::D0 => seq!['D', '0'],
            Channel::D1 => seq!['D', '1'],
            Channel::D2 => seq!['D', '2'],
            Channel::D3 => seq!['D', '3'],
            Channel::D4 => seq!['D', '4'],
            Channel::D5 => seq!['D', '5'],
            Channel::D6 => seq!['D', '6'],
            Channel::D7 => seq!['D', '7'],
            Channel::D8 => seq!['D', '8'],
            Channel::D9 => seq!['D', '9'],
            Channel::D10 => seq!['D', '1', '0'],
            Channel::D11 => seq!['D', '1', '1'],
            Channel::D12 => seq!['D', '1', '2'],
            Channel::D13 => seq!['D', '1', '3'],
            Channel::D14 => seq!['D', '1', '4'],
            Channel::D15 => seq!['D', '1', '5'],
        }
    }

    /// The name under which the oscilloscope addresses this channel.
    pub fn code(&self) -> (ret: &'static str)
        ensures
            ret@ == self.code_spec(),
    {
        match self {
            Channel::Off => {
                proof { reveal_strlit("OFF"); }
                "OFF"
            },
            Channel::Ch1 => {
                proof { reveal_strlit("CHAN1"); }
                "CHAN1"
            },
            Channel::Ch2 => {
                proof { reveal_strlit("CHAN2"); }
                "CHAN2"
            },
            Channel::Ch3 => {
                proof { reveal_strlit("CHAN3"); }
                "CHAN3"
            },
            Channel::Ch4 => {
                proof { reveal_strlit("CHAN4"); }
                "CHAN4"
            },
            Channel::D0 => {
                proof { reveal_strlit("D0"); }
                "D0"
            },
            Channel::D1 => {
                proof { reveal_strlit("D1"); }
                "D1"
            },
            Channel::D2 => {
                proof { reveal_strlit("D2"); }
                "D2"
            },
            Channel::D3 => {
                proof { reveal_strlit("D3"); }
                "D3"
            },
            Channel::D4 => {
                proof { reveal_strlit("D4"); }
                "D4"
            },
            Channel::D5 => {
                proof { reveal_strlit("D5"); }
                "D5"
            },
            Channel::D6 => {
                proof { reveal_strlit("D6"); }
                "D6"
            },
            Channel::D7 => {
                proof { reveal_strlit("D7"); }
                "D7"
            },
            Channel::D8 => {
                proof { reveal_strlit("D8"); }
                "D8"
            },
            Channel::D9 => {
                proof { reveal_strlit("D9"); }
                "D9"
            },
            Channel::D10 => {
                proof { reveal_strlit("D10"); }
                "D10"
            },
            Channel::D11 => {
                proof { reveal_strlit("D11"); }
                "D11"
            },
            Channel::D12 => {
                proof { reveal_strlit("D12"); }
                "D12"
            },
            Channel::D13 => {
                proof { reveal_strlit("D13"); }
                "D13"
            },
            Channel::D14 => {
                proof { reveal_strlit("D14"); }
                "D14"
            },
            Channel::D15 => {
                proof { reveal_strlit("D15"); }
                "D15"
            },
        }
    }

    /// The name under which this channel is shown to the user.
    pub open spec fn label_spec(self) -> Seq<char> {
        match self {
            Channel::Off => seq!['O', 'f', 'f'],
            Channel::Ch1 => seq!['C', 'h', '1'],
            Channel::Ch2 => seq!['C', 'h', '2'],
            Channel::Ch3 => seq!['C', 'h', '3'],
            Channel::Ch4 => seq!['C', 'h', '4'],
            Channel::D0 => seq!['D', '0'],
            Channel::D1 => seq!['D', '1'],
            Channel::D2 => seq!['D', '2'],
            Channel::D3 => seq!['D', '3'],
            Channel::D4 => seq!['D', '4'],
            Channel::D5 => seq!['D', '5'],
            Channel::D6 => seq!['D', '6'],
            Channel::D7 => seq!['D', '7'],
            Channel::D8 => seq!['D', '8'],
            Channel::D9 => seq!['D', '9'],
            Channel::D10 => seq!['D', '1', '0'],
            Channel::D11 => seq!['D', '1', '1'],
            Channel::D12 => seq!['D', '1', '2'],
            Channel::D13 => seq!['D', '1', '3'],
            Channel::D14 => seq!['D', '1', '4'],
            Channel::D15 => seq!['D', '1', '5'],
        }
    }

    /// The name under which this channel is shown to the user.
    pub fn label(&self) -> (ret: &'static str)
        ensures
            ret@ == self.label_spec(),
    {
        match self {
            Channel::Off => {
                proof { reveal_strlit("Off"); }
                "Off"
            },
            Channel::Ch1 => {
                proof { reveal_strlit("Ch1"); }
                "Ch1"
            },
            Channel::Ch2 => {
                proof { reveal_strlit("Ch2"); }
                "Ch2"
            },
            Channel::Ch3 => {
                proof { reveal_strlit("Ch3"); }
                "Ch3"
            },
            Channel::Ch4 => {
                proof { reveal_strlit("Ch4"); }
                "Ch4"
            },
            Channel::D0 => {
                proof { reveal_strlit("D0"); }
                "D0"
            },
            Channel::D1 => {
                proof { reveal_strlit("D1"); }
                "D1"
            },
            Channel::D2 => {
                proof { reveal_strlit("D2"); }
                "D2"
            },
            Channel::D3 => {
                proof { reveal_strlit("D3"); }
                "D3"
            },
            Channel::D4 => {
                proof { reveal_strlit("D4"); }
                "D4"
            },
            Channel::D5 => {
                proof { reveal_strlit("D5"); }
                "D5"
            },
            Channel::D6 => {
                proof { reveal_strlit("D6"); }
                "D6"
            },
            Channel::D7 => {
                proof { reveal_strlit("D7"); }
                "D7"
            },
            Channel::D8 => {
                proof { reveal_strlit("D8"); }
                "D8"
            },
            Channel::D9 => {
                proof { reveal_strlit("D9"); }
                "D9"
            },
            Channel::D10 => {
                proof { reveal_strlit("D10"); }
                "D10"
            },
            Channel::D11 => {
                proof { reveal_strlit("D11"); }
                "D11"
            },
            Channel::D12 => {
                proof { reveal_strlit("D12"); }
                "D12"
            },
            Channel::D13 => {
                proof { reveal_strlit("D13"); }
                "D13"
            },
            Channel::D14 => {
                proof { reveal_strlit("D14"); }
                "D14"
            },
            Channel::D15 => {
                proof { reveal_strlit("D15"); }
                "D15"
            },
        }
    }
}

} // verus!
