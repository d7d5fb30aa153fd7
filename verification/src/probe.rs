//! Debug probes and log transports.
//!
//! The choice of a probe or of a log transport is written into artifacts as
//! a short identifier. It names the choice, not the hardware family.

use vstd::prelude::*;
use crate::text::same_text;

verus! {

/// The supported debug probes.
#[derive(Clone, Copy, Debug, PartialEq, Eq, Structural)]
pub enum Probe {
    /// Black Magic Probe.
    Bmp,
    /// SEGGER J-Link.
    Jlink,
    /// OpenOCD.
    Openocd,
}

/// The supported ways to capture the log.
#[derive(Clone, Copy, Debug, PartialEq, Eq, Structural)]
pub enum Log {
    /// ARM SWO through the debug probe.
    SwoProbe,
    /// ARM SWO through a USB-serial adapter.
    SwoSerial,
    /// Drone Serial Output through a USB-serial adapter.
    DsoSerial,
}

impl Probe {
    /// The identifier of the probe.
    pub open spec fn ident_text(self) -> Seq<char> {
        match self {
            Probe::Bmp => "bmp"@,
            Probe::Jlink => "jlink"@,
            Probe::Openocd => "openocd"@,
        }
    }

    /// The probe that `ident` names.
    pub open spec fn identified(ident: Seq<char>) -> Option<Probe> {
        if ident == Probe::Bmp.ident_text() {
            Some(Probe::Bmp)
        } else if ident == Probe::Jlink.ident_text() {
            Some(Probe::Jlink)
        } else if ident == Probe::Openocd.ident_text() {
            Some(Probe::Openocd)
        } else {
            None
        }
    }

    /// Returns the identifier of the probe.
    pub fn ident(&self) -> (ident: &'static str)
        ensures
            ident@ == self.ident_text(),
    {
        match self {
            Probe::Bmp => "bmp",
            Probe::Jlink => "jlink",
            Probe::Openocd => "openocd",
        }
    }

    /// Returns the probe that `ident` names.
    pub fn from_ident(ident: &str) -> (probe: Option<Probe>)
        ensures
            probe == Probe::identified(ident@),
    {
        if same_text(ident, "bmp") {
            Some(Probe::Bmp)
        } else if same_text(ident, "jlink") {
            Some(Probe::Jlink)
        } else if same_text(ident, "openocd") {
            Some(Probe::Openocd)
        } else {
            None
        }
    }

    /// An identifier leads back to its probe, so no two probes share one.
    pub proof fn lemma_ident_round_trip(self)
        ensures
            Probe::identified(self.ident_text()) == Some(self),
    {
        reveal_strlit("bmp");
        reveal_strlit("jlink");
        reveal_strlit("openocd");
        assert("bmp"@.len() == 3);
        assert("jlink"@.len() == 5);
        assert("openocd"@.len() == 7);
    }
}

impl Log {
    /// The identifier of the transport.
    pub open spec fn ident_text(self) -> Seq<char> {
        match self {
            Log::SwoProbe => "swoprobe"@,
            Log::SwoSerial => "swoserial"@,
            Log::DsoSerial => "dsoserial"@,
        }
    }

    /// The transport that `ident` names.
    pub open spec fn identified(ident: Seq<char>) -> Option<Log> {
        if ident == Log::SwoProbe.ident_text() {
            Some(Log::SwoProbe)
        } else if ident == Log::SwoSerial.ident_text() {
            Some(Log::SwoSerial)
        } else if ident == Log::DsoSerial.ident_text() {
            Some(Log::DsoSerial)
        } else {
            None
        }
    }

    /// Returns the identifier of the transport.
    pub fn ident(&self) -> (ident: &'static str)
        ensures
            ident@ == self.ident_text(),
    {
        match self {
            Log::SwoProbe => "swoprobe",
            Log::SwoSerial => "swoserial",
            Log::DsoSerial => "dsoserial",
        }
    }

    /// Returns the transport that `ident` names.
    pub fn from_ident(ident: &str) -> (log: Option<Log>)
        ensures
            log == Log::identified(ident@),
    {
        if same_text(ident, "swoprobe") {
            Some(Log::SwoProbe)
        } else if same_text(ident, "swoserial") {
            Some(Log::SwoSerial)
        } else if same_text(ident, "dsoserial") {
            Some(Log::DsoSerial)
        } else {
            None
        }
    }

    /// An identifier leads back to its transport, so no two transports
    /// share one.
    pub proof fn lemma_ident_round_trip(self)
        ensures
            Log::identified(self.ident_text()) == Some(self),
    {
        reveal_strlit("swoprobe");
        reveal_strlit("swoserial");
        reveal_strlit("dsoserial");
        assert("swoprobe"@.len() == 8);
        assert("swoserial"@.len() == 9);
        assert("dsoserial"@.len() == 9);
        assert("swoserial"@[0] == 's');
        assert("dsoserial"@[0] == 'd');
    }
}

} // verus!
