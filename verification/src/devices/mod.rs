//! Supported devices.

pub mod registry;

pub use self::registry::{all, lookup};

use vstd::prelude::*;
use crate::crates::{Bindings, Dso, Platform};
use crate::text::literals;

verus! {

/// The platform crate of a device.
#[derive(Clone, Copy, Debug)]
pub struct PlatformCrate {
    /// The processor family.
    pub krate: Platform,
    /// The value of the `cfg` flag that selects the core.
    pub flag: &'static str,
    /// The capabilities of the core.
    pub features: &'static [&'static str],
}

/// The bindings crate of a device.
#[derive(Clone, Copy, Debug)]
pub struct BindingsCrate {
    /// The family of register and interrupt bindings.
    pub krate: Bindings,
    /// The value of the `cfg` flag that selects the microcontroller.
    pub flag: &'static str,
    /// The peripherals that the bindings cover.
    pub features: &'static [&'static str],
}

/// What Black Magic Probe needs to know of a device.
#[derive(Clone, Copy, Debug)]
pub struct ProbeBmp {
    /// The name of the device as the probe knows it.
    pub device: &'static str,
}

/// What OpenOCD needs to know of a device.
#[derive(Clone, Copy, Debug)]
pub struct ProbeOpenocd {
    /// The arguments that configure OpenOCD for the device.
    pub arguments: &'static [&'static str],
}

/// What J-Link needs to know of a device.
#[derive(Clone, Copy, Debug)]
pub struct ProbeJlink {
    /// The name of the device as the probe knows it.
    pub device: &'static str,
}

/// What logging through ARM SWO needs to know of a device.
#[derive(Clone, Copy, Debug)]
pub struct LogSwo {
    /// The frequency of the trace clock after reset, in hertz.
    pub reset_freq: u32,
}

/// What logging through Drone Serial Output needs to know of a device.
#[derive(Clone, Copy, Debug)]
pub struct LogDso {
    /// The crate that implements the transport.
    pub krate: Dso,
    /// The features of that crate to switch on.
    pub features: &'static [&'static str],
}

/// A supported device.
#[derive(Clone, Copy, Debug)]
pub struct Device {
    /// The identifier of the device.
    pub name: &'static str,
    /// The target triple to compile for.
    pub target: &'static str,
    /// Where the flash memory begins.
    pub flash_origin: u32,
    /// Where the RAM begins.
    pub ram_origin: u32,
    /// The platform crate.
    pub platform_crate: PlatformCrate,
    /// The bindings crate.
    pub bindings_crate: BindingsCrate,
    /// Black Magic Probe, where it supports the device.
    pub probe_bmp: Option<ProbeBmp>,
    /// OpenOCD, where it supports the device.
    pub probe_openocd: Option<ProbeOpenocd>,
    /// J-Link, where it supports the device.
    pub probe_jlink: Option<ProbeJlink>,
    /// ARM SWO, where the device has it.
    pub log_swo: Option<LogSwo>,
    /// Drone Serial Output, where the device has it.
    pub log_dso: Option<LogDso>,
}

/// What a platform crate descriptor says.
pub ghost struct PlatformCrateView {
    pub krate: Platform,
    pub flag: Seq<char>,
    pub features: Seq<Seq<char>>,
}

/// What a bindings crate descriptor says.
pub ghost struct BindingsCrateView {
    pub krate: Bindings,
    pub flag: Seq<char>,
    pub features: Seq<Seq<char>>,
}

/// What a Drone Serial Output descriptor says.
pub ghost struct LogDsoView {
    pub krate: Dso,
    pub features: Seq<Seq<char>>,
}

/// What a device descriptor says. A probe descriptor stands for what it
/// holds: a device name or a list of arguments.
pub ghost struct DeviceView {
    pub name: Seq<char>,
    pub target: Seq<char>,
    pub flash_origin: u32,
    pub ram_origin: u32,
    pub platform_crate: PlatformCrateView,
    pub bindings_crate: BindingsCrateView,
    pub probe_bmp: Option<Seq<char>>,
    pub probe_openocd: Option<Seq<Seq<char>>>,
    pub probe_jlink: Option<Seq<char>>,
    pub log_swo: Option<u32>,
    pub log_dso: Option<LogDsoView>,
}

impl View for PlatformCrate {
    type V = PlatformCrateView;

    open spec fn view(&self) -> PlatformCrateView {
        PlatformCrateView {
            krate: self.krate,
            flag: self.flag@,
            features: literals(self.features@),
        }
    }
}

impl View for BindingsCrate {
    type V = BindingsCrateView;

    open spec fn view(&self) -> BindingsCrateView {
        BindingsCrateView {
            krate: self.krate,
            flag: self.flag@,
            features: literals(self.features@),
        }
    }
}

impl View for LogDso {
    type V = LogDsoView;

    open spec fn view(&self) -> LogDsoView {
        LogDsoView { krate: self.krate, features: literals(self.features@) }
    }
}

impl View for Device {
    type V = DeviceView;

    open spec fn view(&self) -> DeviceView {
        DeviceView {
            name: self.name@,
            target: self.target@,
            flash_origin: self.flash_origin,
            ram_origin: self.ram_origin,
            platform_crate: self.platform_crate@,
            bindings_crate: self.bindings_crate@,
            probe_bmp: match self.probe_bmp {
                Some(probe) => Some(probe.device@),
                None => None,
            },
            probe_openocd: match self.probe_openocd {
                Some(probe) => Some(literals(probe.arguments@)),
                None => None,
            },
            probe_jlink: match self.probe_jlink {
                Some(probe) => Some(probe.device@),
                None => None,
            },
            log_swo: match self.log_swo {
                Some(log) => Some(log.reset_freq),
                None => None,
            },
            log_dso: match self.log_dso {
                Some(log) => Some(log@),
                None => None,
            },
        }
    }
}

impl DeviceView {
    /// Whether some probe supports the device.
    pub open spec fn has_probe(self) -> bool {
        self.probe_bmp is Some || self.probe_openocd is Some || self.probe_jlink is Some
    }

    /// Whether the descriptor is sound: the device has a name, some probe
    /// supports it, and no descriptor that is there is empty.
    pub open spec fn sound(self) -> bool {
        &&& self.name.len() > 0
        &&& self.has_probe()
        &&& (self.probe_bmp matches Some(device) ==> device.len() > 0)
        &&& (self.probe_openocd matches Some(arguments) ==> arguments.len() > 0)
        &&& (self.probe_jlink matches Some(device) ==> device.len() > 0)
        &&& (self.log_swo matches Some(reset_freq) ==> reset_freq > 0)
    }
}

impl Device {
    /// Whether the descriptor is sound: the device has a name, some probe
    /// supports it, and no descriptor that is there is empty.
    pub fn is_sound(&self) -> (sound: bool)
        ensures
            sound == self@.sound(),
    {
        let named = !self.name.is_empty();
        let bmp = match self.probe_bmp {
            Some(probe) => !probe.device.is_empty(),
            None => true,
        };
        let openocd = match self.probe_openocd {
            Some(probe) => probe.arguments.len() > 0,
            None => true,
        };
        let jlink = match self.probe_jlink {
            Some(probe) => !probe.device.is_empty(),
            None => true,
        };
        let swo = match self.log_swo {
            Some(log) => log.reset_freq > 0,
            None => true,
        };
        let probed = self.probe_bmp.is_some() || self.probe_openocd.is_some()
            || self.probe_jlink.is_some();
        named && probed && bmp && openocd && jlink && swo
    }
}

} // verus!
