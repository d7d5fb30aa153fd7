//! The catalog of supported devices.
//!
//! The catalog is fixed: it is the same on every call, in the same order, and
//! no two of its devices share an identifier.

use vstd::prelude::*;
use vstd::string::*;
use crate::crates::{Bindings, Dso, Platform};
use crate::devices::{
    BindingsCrate, BindingsCrateView, Device, DeviceView, LogDso, LogDsoView, LogSwo,
    PlatformCrate, PlatformCrateView, ProbeBmp, ProbeJlink, ProbeOpenocd,
};
use crate::text::{literals, same_text};

verus! {

/// The answer to a lookup of an identifier that the catalog does not hold.
#[derive(Debug)]
pub struct NotFound {
    /// The identifier that was asked for.
    pub identifier: String,
}

impl NotFound {
    /// What the error says, as text.
    pub open spec fn message_text(&self) -> Seq<char> {
        "unknown device `"@ + self.identifier@ + "`"@
    }

    /// Tells the error, with the identifier that was asked for.
    pub fn message(&self) -> (message: String)
        ensures
            message@ == self.message_text(),
    {
        let mut message = String::from_str("unknown device `");
        message.append(self.identifier.as_str());
        message.append("`");
        message
    }
}

/// A device of the STM32F1 series: Cortex-M3.
pub open spec fn stm32f1_view(name: Seq<char>) -> DeviceView {
    DeviceView {
        name,
        target: "thumbv7m-none-eabi"@,
        flash_origin: 0x0800_0000,
        ram_origin: 0x2000_0000,
        platform_crate: PlatformCrateView {
            krate: Platform::CortexM,
            flag: "cortexm3_r1p1"@,
            features: seq!["bit-band"@],
        },
        bindings_crate: BindingsCrateView {
            krate: Bindings::Stm32,
            flag: name,
            features: seq!["dma"@, "gpio"@, "spi"@, "tim"@],
        },
        probe_bmp: Some(name),
        probe_openocd: Some(seq!["-f"@, "interface/stlink.cfg"@, "-f"@, "target/stm32f1x.cfg"@]),
        probe_jlink: None,
        log_swo: Some(8_000_000),
        log_dso: None,
    }
}

fn stm32f1(name: &'static str) -> (device: Device)
    ensures
        device@ == stm32f1_view(name@),
{
    let platform: &'static [&'static str] = &["bit-band"];
    let bindings: &'static [&'static str] = &["dma", "gpio", "spi", "tim"];
    let arguments: &'static [&'static str] = &["-f", "interface/stlink.cfg", "-f", "target/stm32f1x.cfg"];
    proof {
        assert(literals(platform@) =~= stm32f1_view(name@).platform_crate.features);
        assert(literals(bindings@) =~= stm32f1_view(name@).bindings_crate.features);
        assert(literals(arguments@) =~= stm32f1_view(name@).probe_openocd->0);
    }
    Device {
        name,
        target: "thumbv7m-none-eabi",
        flash_origin: 0x0800_0000,
        ram_origin: 0x2000_0000,
        platform_crate: PlatformCrate { krate: Platform::CortexM, flag: "cortexm3_r1p1", features: platform },
        bindings_crate: BindingsCrate { krate: Bindings::Stm32, flag: name, features: bindings },
        probe_bmp: Some(ProbeBmp { device: name }),
        probe_openocd: Some(ProbeOpenocd { arguments }),
        probe_jlink: None,
        log_swo: Some(LogSwo { reset_freq: 8_000_000 }),
        log_dso: None,
    }
}

/// A device of the STM32F4 series: Cortex-M4F.
pub open spec fn stm32f4_view(name: Seq<char>) -> DeviceView {
    DeviceView {
        name,
        target: "thumbv7em-none-eabihf"@,
        flash_origin: 0x0800_0000,
        ram_origin: 0x2000_0000,
        platform_crate: PlatformCrateView {
            krate: Platform::CortexM,
            flag: "cortexm4f_r0p1"@,
            features: seq!["bit-band"@, "floating-point-unit"@, "memory-protection-unit"@],
        },
        bindings_crate: BindingsCrateView {
            krate: Bindings::Stm32,
            flag: name,
            features: seq!["adc"@, "dma"@, "exti"@, "gpio"@, "tim"@],
        },
        probe_bmp: Some(name),
        probe_openocd: Some(seq!["-f"@, "interface/stlink.cfg"@, "-f"@, "target/stm32f4x.cfg"@]),
        probe_jlink: None,
        log_swo: Some(16_000_000),
        log_dso: None,
    }
}

fn stm32f4(name: &'static str) -> (device: Device)
    ensures
        device@ == stm32f4_view(name@),
{
    let platform: &'static [&'static str] = &["bit-band", "floating-point-unit", "memory-protection-unit"];
    let bindings: &'static [&'static str] = &["adc", "dma", "exti", "gpio", "tim"];
    let arguments: &'static [&'static str] = &["-f", "interface/stlink.cfg", "-f", "target/stm32f4x.cfg"];
    proof {
        assert(literals(platform@) =~= stm32f4_view(name@).platform_crate.features);
        assert(literals(bindings@) =~= stm32f4_view(name@).bindings_crate.features);
        assert(literals(arguments@) =~= stm32f4_view(name@).probe_openocd->0);
    }
    Device {
        name,
        target: "thumbv7em-none-eabihf",
        flash_origin: 0x0800_0000,
        ram_origin: 0x2000_0000,
        platform_crate: PlatformCrate { krate: Platform::CortexM, flag: "cortexm4f_r0p1", features: platform },
        bindings_crate: BindingsCrate { krate: Bindings::Stm32, flag: name, features: bindings },
        probe_bmp: Some(ProbeBmp { device: name }),
        probe_openocd: Some(ProbeOpenocd { arguments }),
        probe_jlink: None,
        log_swo: Some(LogSwo { reset_freq: 16_000_000 }),
        log_dso: None,
    }
}

/// A device of the STM32L4 series: Cortex-M4F.
pub open spec fn stm32l4_view(name: Seq<char>) -> DeviceView {
    DeviceView {
        name,
        target: "thumbv7em-none-eabihf"@,
        flash_origin: 0x0800_0000,
        ram_origin: 0x2000_0000,
        platform_crate: PlatformCrateView {
            krate: Platform::CortexM,
            flag: "cortexm4f_r0p1"@,
            features: seq!["bit-band"@, "floating-point-unit"@, "memory-protection-unit"@],
        },
        bindings_crate: BindingsCrateView {
            krate: Bindings::Stm32,
            flag: name,
            features: seq!["dma"@, "exti"@, "gpio"@, "i2c"@, "rtc"@, "spi"@, "tim"@, "uart"@],
        },
        probe_bmp: Some(name),
        probe_openocd: Some(seq!["-f"@, "interface/stlink.cfg"@, "-f"@, "target/stm32l4x.cfg"@]),
        probe_jlink: None,
        log_swo: Some(4_000_000),
        log_dso: None,
    }
}

fn stm32l4(name: &'static str) -> (device: Device)
    ensures
        device@ == stm32l4_view(name@),
{
    let platform: &'static [&'static str] = &["bit-band", "floating-point-unit", "memory-protection-unit"];
    let bindings: &'static [&'static str] = &["dma", "exti", "gpio", "i2c", "rtc", "spi", "tim", "uart"];
    let arguments: &'static [&'static str] = &["-f", "interface/stlink.cfg", "-f", "target/stm32l4x.cfg"];
    proof {
        assert(literals(platform@) =~= stm32l4_view(name@).platform_crate.features);
        assert(literals(bindings@) =~= stm32l4_view(name@).bindings_crate.features);
        assert(literals(arguments@) =~= stm32l4_view(name@).probe_openocd->0);
    }
    Device {
        name,
        target: "thumbv7em-none-eabihf",
        flash_origin: 0x0800_0000,
        ram_origin: 0x2000_0000,
        platform_crate: PlatformCrate { krate: Platform::CortexM, flag: "cortexm4f_r0p1", features: platform },
        bindings_crate: BindingsCrate { krate: Bindings::Stm32, flag: name, features: bindings },
        probe_bmp: Some(ProbeBmp { device: name }),
        probe_openocd: Some(ProbeOpenocd { arguments }),
        probe_jlink: None,
        log_swo: Some(LogSwo { reset_freq: 4_000_000 }),
        log_dso: None,
    }
}

/// A device of the STM32L4+ series: Cortex-M4F.
pub open spec fn stm32l4plus_view(name: Seq<char>) -> DeviceView {
    DeviceView {
        name,
        target: "thumbv7em-none-eabihf"@,
        flash_origin: 0x0800_0000,
        ram_origin: 0x2000_0000,
        platform_crate: PlatformCrateView {
            krate: Platform::CortexM,
            flag: "cortexm4f_r0p1"@,
            features: seq!["bit-band"@, "floating-point-unit"@, "memory-protection-unit"@],
        },
        bindings_crate: BindingsCrateView {
            krate: Bindings::Stm32,
            flag: name,
            features: seq!["adc"@, "dma"@, "exti"@, "gpio"@, "i2c"@, "rtc"@, "spi"@, "tim"@, "uart"@],
        },
        probe_bmp: Some(name),
        probe_openocd: Some(seq!["-f"@, "interface/stlink.cfg"@, "-f"@, "target/stm32l4x.cfg"@]),
        probe_jlink: None,
        log_swo: Some(4_000_000),
        log_dso: None,
    }
}

fn stm32l4plus(name: &'static str) -> (device: Device)
    ensures
        device@ == stm32l4plus_view(name@),
{
    let platform: &'static [&'static str] = &["bit-band", "floating-point-unit", "memory-protection-unit"];
    let bindings: &'static [&'static str] = &["adc", "dma", "exti", "gpio", "i2c", "rtc", "spi", "tim", "uart"];
    let arguments: &'static [&'static str] = &["-f", "interface/stlink.cfg", "-f", "target/stm32l4x.cfg"];
    proof {
        assert(literals(platform@) =~= stm32l4plus_view(name@).platform_crate.features);
        assert(literals(bindings@) =~= stm32l4plus_view(name@).bindings_crate.features);
        assert(literals(arguments@) =~= stm32l4plus_view(name@).probe_openocd->0);
    }
    Device {
        name,
        target: "thumbv7em-none-eabihf",
        flash_origin: 0x0800_0000,
        ram_origin: 0x2000_0000,
        platform_crate: PlatformCrate { krate: Platform::CortexM, flag: "cortexm4f_r0p1", features: platform },
        bindings_crate: BindingsCrate { krate: Bindings::Stm32, flag: name, features: bindings },
        probe_bmp: Some(ProbeBmp { device: name }),
        probe_openocd: Some(ProbeOpenocd { arguments }),
        probe_jlink: None,
        log_swo: Some(LogSwo { reset_freq: 4_000_000 }),
        log_dso: None,
    }
}

/// A device of the nRF52 series: Cortex-M4F.
pub open spec fn nrf52_view(name: Seq<char>) -> DeviceView {
    DeviceView {
        name,
        target: "thumbv7em-none-eabihf"@,
        flash_origin: 0x0000_0000,
        ram_origin: 0x2000_0000,
        platform_crate: PlatformCrateView {
            krate: Platform::CortexM,
            flag: "cortexm4f_r0p1"@,
            features: seq!["bit-band"@, "floating-point-unit"@, "memory-protection-unit"@],
        },
        bindings_crate: BindingsCrateView {
            krate: Bindings::Nrf,
            flag: name,
            features: Seq::empty(),
        },
        probe_bmp: None,
        probe_openocd: Some(seq!["-f"@, "interface/stlink.cfg"@, "-f"@, "target/nrf52.cfg"@]),
        probe_jlink: None,
        log_swo: Some(32_000_000),
        log_dso: None,
    }
}

fn nrf52(name: &'static str) -> (device: Device)
    ensures
        device@ == nrf52_view(name@),
{
    let platform: &'static [&'static str] = &["bit-band", "floating-point-unit", "memory-protection-unit"];
    let bindings: &'static [&'static str] = &[];
    let arguments: &'static [&'static str] = &["-f", "interface/stlink.cfg", "-f", "target/nrf52.cfg"];
    proof {
        assert(literals(platform@) =~= nrf52_view(name@).platform_crate.features);
        assert(literals(bindings@) =~= nrf52_view(name@).bindings_crate.features);
        assert(literals(arguments@) =~= nrf52_view(name@).probe_openocd->0);
    }
    Device {
        name,
        target: "thumbv7em-none-eabihf",
        flash_origin: 0x0000_0000,
        ram_origin: 0x2000_0000,
        platform_crate: PlatformCrate { krate: Platform::CortexM, flag: "cortexm4f_r0p1", features: platform },
        bindings_crate: BindingsCrate { krate: Bindings::Nrf, flag: name, features: bindings },
        probe_bmp: None,
        probe_openocd: Some(ProbeOpenocd { arguments }),
        probe_jlink: None,
        log_swo: Some(LogSwo { reset_freq: 32_000_000 }),
        log_dso: None,
    }
}

/// The nRF9160: Cortex-M33F, reached through J-Link, logging through Drone
/// Serial Output.
pub open spec fn nrf91_view(name: Seq<char>) -> DeviceView {
    DeviceView {
        name,
        target: "thumbv8m.main-none-eabihf"@,
        flash_origin: 0x0000_0000,
        ram_origin: 0x2000_0000,
        platform_crate: PlatformCrateView {
            krate: Platform::CortexM,
            flag: "cortexm33f_r0p2"@,
            features: seq!["floating-point-unit"@, "memory-protection-unit"@, "security-extension"@],
        },
        bindings_crate: BindingsCrateView {
            krate: Bindings::Nrf,
            flag: name,
            features: seq!["uarte"@],
        },
        probe_bmp: None,
        probe_openocd: None,
        probe_jlink: Some("NRF9160"@),
        log_swo: None,
        log_dso: Some(LogDsoView { krate: Dso::Nrf91, features: Seq::empty() }),
    }
}

fn nrf91(name: &'static str) -> (device: Device)
    ensures
        device@ == nrf91_view(name@),
{
    let platform: &'static [&'static str] = &["floating-point-unit", "memory-protection-unit", "security-extension"];
    let bindings: &'static [&'static str] = &["uarte"];
    let dso: &'static [&'static str] = &[];
    proof {
        assert(literals(platform@) =~= nrf91_view(name@).platform_crate.features);
        assert(literals(bindings@) =~= nrf91_view(name@).bindings_crate.features);
        assert(literals(dso@) =~= Seq::<Seq<char>>::empty());
    }
    Device {
        name,
        target: "thumbv8m.main-none-eabihf",
        flash_origin: 0x0000_0000,
        ram_origin: 0x2000_0000,
        platform_crate: PlatformCrate { krate: Platform::CortexM, flag: "cortexm33f_r0p2", features: platform },
        bindings_crate: BindingsCrate { krate: Bindings::Nrf, flag: name, features: bindings },
        probe_bmp: None,
        probe_openocd: None,
        probe_jlink: Some(ProbeJlink { device: "NRF9160" }),
        log_swo: None,
        log_dso: Some(LogDso { krate: Dso::Nrf91, features: dso }),
    }
}

/// The catalog: every supported device, in its fixed order.
pub open spec fn catalog() -> Seq<DeviceView> {
    seq![
        stm32f1_view("stm32f100"@),
        stm32f1_view("stm32f101"@),
        stm32f1_view("stm32f102"@),
        stm32f1_view("stm32f103"@),
        stm32f1_view("stm32f107"@),
        stm32f4_view("stm32f401"@),
        stm32f4_view("stm32f405"@),
        stm32f4_view("stm32f407"@),
        stm32f4_view("stm32f410"@),
        stm32f4_view("stm32f411"@),
        stm32f4_view("stm32f412"@),
        stm32f4_view("stm32f413"@),
        stm32f4_view("stm32f427"@),
        stm32f4_view("stm32f429"@),
        stm32f4_view("stm32f446"@),
        stm32f4_view("stm32f469"@),
        stm32l4_view("stm32l4x1"@),
        stm32l4_view("stm32l4x2"@),
        stm32l4_view("stm32l4x3"@),
        stm32l4_view("stm32l4x5"@),
        stm32l4_view("stm32l4x6"@),
        stm32l4plus_view("stm32l4r5"@),
        stm32l4plus_view("stm32l4s5"@),
        stm32l4plus_view("stm32l4r7"@),
        stm32l4plus_view("stm32l4s7"@),
        stm32l4plus_view("stm32l4r9"@),
        stm32l4plus_view("stm32l4s9"@),
        nrf52_view("nrf52810"@),
        nrf52_view("nrf52811"@),
        nrf52_view("nrf52832"@),
        nrf52_view("nrf52840"@),
        nrf91_view("nrf9160"@),
    ]
}

/// What each device of `devices` says, in order.
pub open spec fn views(devices: Seq<Device>) -> Seq<DeviceView> {
    Seq::new(devices.len(), |i: int| devices[i]@)
}

/// Whether the catalog holds a device with the identifier `name`.
pub open spec fn listed(name: Seq<char>) -> bool {
    exists|i: int| 0 <= i < catalog().len() && (#[trigger] catalog()[i]).name == name
}

/// The device of the catalog with the identifier `name`, where there is one.
pub open spec fn entry(name: Seq<char>) -> DeviceView {
    catalog()[choose|i: int| 0 <= i < catalog().len() && (#[trigger] catalog()[i]).name == name]
}

/// What the identifiers of the catalog hold: their lengths and the
/// characters that tell them apart.
proof fn lemma_names()
    ensures
        "stm32f100"@.len() == 9,
        "stm32f100"@[5] == 'f',
        "stm32f100"@[6] == '1',
        "stm32f100"@[7] == '0',
        "stm32f100"@[8] == '0',
        "stm32f101"@.len() == 9,
        "stm32f101"@[5] == 'f',
        "stm32f101"@[6] == '1',
        "stm32f101"@[7] == '0',
        "stm32f101"@[8] == '1',
        "stm32f102"@.len() == 9,
        "stm32f102"@[5] == 'f',
        "stm32f102"@[6] == '1',
        "stm32f102"@[7] == '0',
        "stm32f102"@[8] == '2',
        "stm32f103"@.len() == 9,
        "stm32f103"@[5] == 'f',
        "stm32f103"@[6] == '1',
        "stm32f103"@[7] == '0',
        "stm32f103"@[8] == '3',
        "stm32f107"@.len() == 9,
        "stm32f107"@[5] == 'f',
        "stm32f107"@[6] == '1',
        "stm32f107"@[7] == '0',
        "stm32f107"@[8] == '7',
        "stm32f401"@.len() == 9,
        "stm32f401"@[5] == 'f',
        "stm32f401"@[6] == '4',
        "stm32f401"@[7] == '0',
        "stm32f401"@[8] == '1',
        "stm32f405"@.len() == 9,
        "stm32f405"@[5] == 'f',
        "stm32f405"@[6] == '4',
        "stm32f405"@[7] == '0',
        "stm32f405"@[8] == '5',
        "stm32f407"@.len() == 9,
        "stm32f407"@[5] == 'f',
        "stm32f407"@[6] == '4',
        "stm32f407"@[7] == '0',
        "stm32f407"@[8] == '7',
        "stm32f410"@.len() == 9,
        "stm32f410"@[5] == 'f',
        "stm32f410"@[6] == '4',
        "stm32f410"@[7] == '1',
        "stm32f410"@[8] == '0',
        "stm32f411"@.len() == 9,
        "stm32f411"@[5] == 'f',
        "stm32f411"@[6] == '4',
        "stm32f411"@[7] == '1',
        "stm32f411"@[8] == '1',
        "stm32f412"@.len() == 9,
        "stm32f412"@[5] == 'f',
        "stm32f412"@[6] == '4',
        "stm32f412"@[7] == '1',
        "stm32f412"@[8] == '2',
        "stm32f413"@.len() == 9,
        "stm32f413"@[5] == 'f',
        "stm32f413"@[6] == '4',
        "stm32f413"@[7] == '1',
        "stm32f413"@[8] == '3',
        "stm32f427"@.len() == 9,
        "stm32f427"@[5] == 'f',
        "stm32f427"@[6] == '4',
        "stm32f427"@[7] == '2',
        "stm32f427"@[8] == '7',
        "stm32f429"@.len() == 9,
        "stm32f429"@[5] == 'f',
        "stm32f429"@[6] == '4',
        "stm32f429"@[7] == '2',
        "stm32f429"@[8] == '9',
        "stm32f446"@.len() == 9,
        "stm32f446"@[5] == 'f',
        "stm32f446"@[6] == '4',
        "stm32f446"@[7] == '4',
        "stm32f446"@[8] == '6',
        "stm32f469"@.len() == 9,
        "stm32f469"@[5] == 'f',
        "stm32f469"@[6] == '4',
        "stm32f469"@[7] == '6',
        "stm32f469"@[8] == '9',
        "stm32l4x1"@.len() == 9,
        "stm32l4x1"@[5] == 'l',
        "stm32l4x1"@[6] == '4',
        "stm32l4x1"@[7] == 'x',
        "stm32l4x1"@[8] == '1',
        "stm32l4x2"@.len() == 9,
        "stm32l4x2"@[5] == 'l',
        "stm32l4x2"@[6] == '4',
        "stm32l4x2"@[7] == 'x',
        "stm32l4x2"@[8] == '2',
        "stm32l4x3"@.len() == 9,
        "stm32l4x3"@[5] == 'l',
        "stm32l4x3"@[6] == '4',
        "stm32l4x3"@[7] == 'x',
        "stm32l4x3"@[8] == '3',
        "stm32l4x5"@.len() == 9,
        "stm32l4x5"@[5] == 'l',
        "stm32l4x5"@[6] == '4',
        "stm32l4x5"@[7] == 'x',
        "stm32l4x5"@[8] == '5',
        "stm32l4x6"@.len() == 9,
        "stm32l4x6"@[5] == 'l',
        "stm32l4x6"@[6] == '4',
        "stm32l4x6"@[7] == 'x',
        "stm32l4x6"@[8] == '6',
        "stm32l4r5"@.len() == 9,
        "stm32l4r5"@[5] == 'l',
        "stm32l4r5"@[6] == '4',
        "stm32l4r5"@[7] == 'r',
        "stm32l4r5"@[8] == '5',
        "stm32l4s5"@.len() == 9,
        "stm32l4s5"@[5] == 'l',
        "stm32l4s5"@[6] == '4',
        "stm32l4s5"@[7] == 's',
        "stm32l4s5"@[8] == '5',
        "stm32l4r7"@.len() == 9,
        "stm32l4r7"@[5] == 'l',
        "stm32l4r7"@[6] == '4',
        "stm32l4r7"@[7] == 'r',
        "stm32l4r7"@[8] == '7',
        "stm32l4s7"@.len() == 9,
        "stm32l4s7"@[5] == 'l',
        "stm32l4s7"@[6] == '4',
        "stm32l4s7"@[7] == 's',
        "stm32l4s7"@[8] == '7',
        "stm32l4r9"@.len() == 9,
        "stm32l4r9"@[5] == 'l',
        "stm32l4r9"@[6] == '4',
        "stm32l4r9"@[7] == 'r',
        "stm32l4r9"@[8] == '9',
        "stm32l4s9"@.len() == 9,
        "stm32l4s9"@[5] == 'l',
        "stm32l4s9"@[6] == '4',
        "stm32l4s9"@[7] == 's',
        "stm32l4s9"@[8] == '9',
        "nrf52810"@.len() == 8,
        "nrf52810"@[4] == '2',
        "nrf52810"@[5] == '8',
        "nrf52810"@[6] == '1',
        "nrf52810"@[7] == '0',
        "nrf52811"@.len() == 8,
        "nrf52811"@[4] == '2',
        "nrf52811"@[5] == '8',
        "nrf52811"@[6] == '1',
        "nrf52811"@[7] == '1',
        "nrf52832"@.len() == 8,
        "nrf52832"@[4] == '2',
        "nrf52832"@[5] == '8',
        "nrf52832"@[6] == '3',
        "nrf52832"@[7] == '2',
        "nrf52840"@.len() == 8,
        "nrf52840"@[4] == '2',
        "nrf52840"@[5] == '8',
        "nrf52840"@[6] == '4',
        "nrf52840"@[7] == '0',
        "nrf9160"@.len() == 7,
        "nrf9160"@[3] == '9',
        "nrf9160"@[4] == '1',
        "nrf9160"@[5] == '6',
        "nrf9160"@[6] == '0',
{
    reveal_strlit("stm32f100");
    reveal_strlit("stm32f101");
    reveal_strlit("stm32f102");
    reveal_strlit("stm32f103");
    reveal_strlit("stm32f107");
    reveal_strlit("stm32f401");
    reveal_strlit("stm32f405");
    reveal_strlit("stm32f407");
    reveal_strlit("stm32f410");
    reveal_strlit("stm32f411");
    reveal_strlit("stm32f412");
    reveal_strlit("stm32f413");
    reveal_strlit("stm32f427");
    reveal_strlit("stm32f429");
    reveal_strlit("stm32f446");
    reveal_strlit("stm32f469");
    reveal_strlit("stm32l4x1");
    reveal_strlit("stm32l4x2");
    reveal_strlit("stm32l4x3");
    reveal_strlit("stm32l4x5");
    reveal_strlit("stm32l4x6");
    reveal_strlit("stm32l4r5");
    reveal_strlit("stm32l4s5");
    reveal_strlit("stm32l4r7");
    reveal_strlit("stm32l4s7");
    reveal_strlit("stm32l4r9");
    reveal_strlit("stm32l4s9");
    reveal_strlit("nrf52810");
    reveal_strlit("nrf52811");
    reveal_strlit("nrf52832");
    reveal_strlit("nrf52840");
    reveal_strlit("nrf9160");
}

/// Returns every supported device, in the fixed order of the catalog.
pub fn all() -> (devices: Vec<Device>)
    ensures
        views(devices@) == catalog(),
{
    let mut devices: Vec<Device> = Vec::new();
    devices.push(stm32f1("stm32f100"));
    devices.push(stm32f1("stm32f101"));
    devices.push(stm32f1("stm32f102"));
    devices.push(stm32f1("stm32f103"));
    devices.push(stm32f1("stm32f107"));
    devices.push(stm32f4("stm32f401"));
    devices.push(stm32f4("stm32f405"));
    devices.push(stm32f4("stm32f407"));
    devices.push(stm32f4("stm32f410"));
    devices.push(stm32f4("stm32f411"));
    devices.push(stm32f4("stm32f412"));
    devices.push(stm32f4("stm32f413"));
    devices.push(stm32f4("stm32f427"));
    devices.push(stm32f4("stm32f429"));
    devices.push(stm32f4("stm32f446"));
    devices.push(stm32f4("stm32f469"));
    devices.push(stm32l4("stm32l4x1"));
    devices.push(stm32l4("stm32l4x2"));
    devices.push(stm32l4("stm32l4x3"));
    devices.push(stm32l4("stm32l4x5"));
    devices.push(stm32l4("stm32l4x6"));
    devices.push(stm32l4plus("stm32l4r5"));
    devices.push(stm32l4plus("stm32l4s5"));
    devices.push(stm32l4plus("stm32l4r7"));
    devices.push(stm32l4plus("stm32l4s7"));
    devices.push(stm32l4plus("stm32l4r9"));
    devices.push(stm32l4plus("stm32l4s9"));
    devices.push(nrf52("nrf52810"));
    devices.push(nrf52("nrf52811"));
    devices.push(nrf52("nrf52832"));
    devices.push(nrf52("nrf52840"));
    devices.push(nrf91("nrf9160"));
    proof {
        assert(views(devices@) =~= catalog());
    }
    devices
}

/// Looks a device up by its identifier. An identifier that the catalog does
/// not hold comes back in the error.
pub fn lookup(name: &str) -> (found: Result<Device, NotFound>)
    ensures
        found is Ok <==> listed(name@),
        found matches Ok(device) ==> device@ == entry(name@),
        found matches Err(missing) ==> missing.identifier@ == name@,
{
    let devices = all();
    let mut i: usize = 0;
    while i < devices.len()
        invariant
            i <= devices.len(),
            views(devices@) == catalog(),
            forall|k: int| 0 <= k < i ==> (#[trigger] catalog()[k]).name != name@,
        decreases devices.len() - i,
    {
        let device = devices[i];
        proof {
            assert(views(devices@)[i as int] == device@);
        }
        if same_text(device.name, name) {
            proof {
                assert(catalog()[i as int].name == name@);
                lemma_lookup_finds_each(i as int);
            }
            return Ok(device);
        }
        i = i + 1;
    }
    Err(NotFound { identifier: String::from_str(name) })
}

/// No two devices of the catalog share an identifier.
pub proof fn lemma_identifiers_differ(i: int, j: int)
    requires
        0 <= i < catalog().len(),
        0 <= j < catalog().len(),
        i != j,
    ensures
        catalog()[i].name != catalog()[j].name,
{
    lemma_names();
}

/// Every device of the catalog is found under its identifier, and is the
/// only one there with it.
pub proof fn lemma_lookup_finds_each(i: int)
    requires
        0 <= i < catalog().len(),
    ensures
        listed(catalog()[i].name),
        entry(catalog()[i].name) == catalog()[i],
        forall|j: int|
            0 <= j < catalog().len() && (#[trigger] catalog()[j]).name == catalog()[i].name ==> j
                == i,
{
    let name = catalog()[i].name;
    let found = choose|k: int| 0 <= k < catalog().len() && (#[trigger] catalog()[k]).name == name;
    if found != i {
        lemma_identifiers_differ(found, i);
    }
    assert forall|j: int| 0 <= j < catalog().len() && (#[trigger] catalog()[j]).name
        == name implies j == i by {
        if j != i {
            lemma_identifiers_differ(j, i);
        }
    }
}

/// Every device of the catalog is sound: some probe supports it, and no
/// descriptor that it has is empty.
pub proof fn lemma_catalog_is_sound(i: int)
    requires
        0 <= i < catalog().len(),
    ensures
        catalog()[i].sound(),
{
    lemma_names();
    reveal_strlit("NRF9160");
    assert("NRF9160"@.len() == 7);
}

} // verus!
