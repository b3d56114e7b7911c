//! The closed set of severities a record can carry.

use vstd::prelude::*;

verus! {

/// Severity of a log record.
#[derive(Clone, Copy, Debug, PartialEq, Eq, Structural)]
pub enum LogLevels {
    Info,
    Warn,
    Error,
    Debug,
}

impl LogLevels {
    /// The upper-case name under which the level is written.
    pub open spec fn spec_name(self) -> Seq<char> {
        match self {
            LogLevels::Info => seq!['I', 'N', 'F', 'O'],
            LogLevels::Warn => seq!['W', 'A', 'R', 'N'],
            LogLevels::Error => seq!['E', 'R', 'R', 'O', 'R'],
            LogLevels::Debug => seq!['D', 'E', 'B', 'U', 'G'],
        }
    }

    /// The red, green and blue parts of the colour the level is shown in.
    pub open spec fn spec_color(self) -> (u8, u8, u8) {
        match self {
            LogLevels::Info => (15u8, 115u8, 255u8),
            LogLevels::Warn => (247u8, 155u8, 35u8),
            LogLevels::Error => (255u8, 0u8, 0u8),
            LogLevels::Debug => (38u8, 45u8, 56u8),
        }
    }

    /// The upper-case name of the level: `INFO`, `WARN`, `ERROR` or `DEBUG`.
    pub fn name(self) -> (name: &'static str)
        ensures
            name@ == self.spec_name(),
    {
        proof {
            reveal_strlit("INFO");
            reveal_strlit("WARN");
            reveal_strlit("ERROR");
            reveal_strlit("DEBUG");
        }
        match self {
            LogLevels::Info => {
                assert("INFO"@ =~= self.spec_name());
                "INFO"
            },
            LogLevels::Warn => {
                assert("WARN"@ =~= self.spec_name());
                "WARN"
            },
            LogLevels::Error => {
                assert("ERROR"@ =~= self.spec_name());
                "ERROR"
            },
            LogLevels::Debug => {
                assert("DEBUG"@ =~= self.spec_name());
                "DEBUG"
            },
        }
    }

    /// The colour the level is shown in, as red, green and blue.
    pub fn color(self) -> (rgb: (u8, u8, u8))
        ensures
            rgb == self.spec_color(),
    {
        match self {
            LogLevels::Info => (15, 115, 255),
            LogLevels::Warn => (247, 155, 35),
            LogLevels::Error => (255, 0, 0),
            LogLevels::Debug => (38, 45, 56),
        }
    }
}

} // verus!
