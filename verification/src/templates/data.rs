//! The fields of each artifact.
//!
//! What a template is given is fixed here, artifact by artifact: which
//! fields there are, under which names, and what each holds. A field that
//! rests on a descriptor which the device may lack is put in any case, and
//! is absent where the descriptor is.

use vstd::prelude::*;
use vstd::string::*;
use std::collections::BTreeSet;
use drone_config::Config;
use crate::devices::{Device, DeviceView};
use crate::ports::{ordered, port_list};
use crate::probe::{Log, Probe};
use crate::templates::context::{Field, FieldView, RenderContext};
use crate::text::{joined, literals, owned_all, texts, trim_end, trimmed};
use crate::wrap::{reg_lines, tokens, wrapped};

verus! {

/// A text, or nothing where there is none.
pub open spec fn text_or_absent(text: Option<Seq<char>>) -> FieldView {
    match text {
        Some(text) => FieldView::Text(text),
        None => FieldView::Absent,
    }
}

/// The fields of the linker script.
pub open spec fn layout_ld_fields(config: Config, prelink: bool) -> Seq<(Seq<char>, FieldView)> {
    seq![("config"@, FieldView::Config(config)), ("prelink"@, FieldView::Flag(prelink))]
}

/// The fields of `src/bin.rs`.
pub open spec fn src_bin_rs_fields(crate_name: Seq<char>) -> Seq<(Seq<char>, FieldView)> {
    seq![("crate_name"@, FieldView::Text(crate_name))]
}

/// The fields of `src/lib.rs`. The bindings and the log transport go by
/// their underscore spelling. The registers of the transport stand as the
/// wrapped lines of their tokens.
pub open spec fn src_lib_rs_fields(device: DeviceView, log: Log) -> Seq<(Seq<char>, FieldView)> {
    seq![
        ("bindings_name"@, FieldView::Text(device.bindings_crate.krate.underscore())),
        ("log_ident"@, FieldView::Text(log.ident_text())),
        (
            "dso_name"@,
            match device.log_dso {
                Some(dso) => FieldView::Text(dso.krate.underscore()),
                None => FieldView::Absent,
            },
        ),
        (
            "dso_regs"@,
            match device.log_dso {
                Some(dso) => FieldView::Text(joined(wrapped(tokens(dso.krate.regs())), "\n"@)),
                None => FieldView::Absent,
            },
        ),
    ]
}

/// The field that `src/lib.rs` needs and the device does not offer, if
/// there is one: logging through Drone Serial Output needs its descriptor.
pub open spec fn src_lib_rs_lack(device: DeviceView, log: Log) -> Option<Seq<char>> {
    if log == Log::DsoSerial && device.log_dso is None {
        Some("dso_name"@)
    } else {
        None
    }
}

/// The fields of `src/thr.rs`.
pub open spec fn src_thr_rs_fields(device: DeviceView) -> Seq<(Seq<char>, FieldView)> {
    seq![("bindings_name"@, FieldView::Text(device.bindings_crate.krate.underscore()))]
}

/// The fields of `Cargo.toml`. The crates go by their kebab spelling.
pub open spec fn cargo_toml_fields(device: DeviceView, crate_name: Seq<char>) -> Seq<
    (Seq<char>, FieldView),
> {
    seq![
        ("crate_name"@, FieldView::Text(crate_name)),
        ("platform_name"@, FieldView::Text(device.platform_crate.krate.kebab())),
        ("bindings_name"@, FieldView::Text(device.bindings_crate.krate.kebab())),
        ("platform_features"@, FieldView::Texts(device.platform_crate.features)),
        ("bindings_features"@, FieldView::Texts(device.bindings_crate.features)),
        (
            "dso_name"@,
            match device.log_dso {
                Some(dso) => FieldView::Text(dso.krate.kebab()),
                None => FieldView::Absent,
            },
        ),
        (
            "dso_features"@,
            match device.log_dso {
                Some(dso) => FieldView::Texts(dso.features),
                None => FieldView::Absent,
            },
        ),
    ]
}

/// The fields of `Drone.toml`. The heap stands without the white space at
/// its end.
pub open spec fn drone_toml_fields(
    device: DeviceView,
    flash_size: u32,
    ram_size: u32,
    heap: Seq<char>,
    probe: Probe,
    log: Log,
) -> Seq<(Seq<char>, FieldView)> {
    seq![
        ("device_flash_size"@, FieldView::Number(flash_size)),
        ("device_flash_origin"@, FieldView::Number(device.flash_origin)),
        ("device_ram_size"@, FieldView::Number(ram_size)),
        ("device_ram_origin"@, FieldView::Number(device.ram_origin)),
        ("heap"@, FieldView::Text(trimmed(heap))),
        ("probe_ident"@, FieldView::Text(probe.ident_text())),
        ("probe_bmp_device"@, text_or_absent(device.probe_bmp)),
        (
            "probe_openocd_arguments"@,
            match device.probe_openocd {
                Some(arguments) => FieldView::Texts(arguments),
                None => FieldView::Absent,
            },
        ),
        ("probe_jlink_device"@, text_or_absent(device.probe_jlink)),
        ("log_ident"@, FieldView::Text(log.ident_text())),
        (
            "log_swo_reset_freq"@,
            match device.log_swo {
                Some(reset_freq) => FieldView::Number(reset_freq),
                None => FieldView::Absent,
            },
        ),
    ]
}

/// The field that `Drone.toml` needs and the device does not offer, if
/// there is one: the chosen probe needs its descriptor, and logging through
/// ARM SWO needs the frequency of the trace clock.
pub open spec fn drone_toml_lack(device: DeviceView, probe: Probe, log: Log) -> Option<Seq<char>> {
    if probe == Probe::Bmp && device.probe_bmp is None {
        Some("probe_bmp_device"@)
    } else if probe == Probe::Jlink && device.probe_jlink is None {
        Some("probe_jlink_device"@)
    } else if probe == Probe::Openocd && device.probe_openocd is None {
        Some("probe_openocd_arguments"@)
    } else if log != Log::DsoSerial && device.log_swo is None {
        Some("log_swo_reset_freq"@)
    } else {
        None
    }
}

/// The fields of `Justfile`.
pub open spec fn justfile_fields(device: DeviceView) -> Seq<(Seq<char>, FieldView)> {
    seq![
        ("device_target"@, FieldView::Text(device.target)),
        ("platform_flag_name"@, FieldView::Text(device.platform_crate.krate.flag())),
        ("bindings_flag_name"@, FieldView::Text(device.bindings_crate.krate.flag())),
        ("platform_flag"@, FieldView::Text(device.platform_crate.flag)),
        ("bindings_flag"@, FieldView::Text(device.bindings_crate.flag)),
    ]
}

/// The fields of `rust-toolchain`.
pub open spec fn rust_toolchain_fields(toolchain: Seq<char>) -> Seq<(Seq<char>, FieldView)> {
    seq![("toolchain"@, FieldView::Text(toolchain))]
}

/// The fields of a script that only reads the configuration.
pub open spec fn config_fields(config: Config) -> Seq<(Seq<char>, FieldView)> {
    seq![("config"@, FieldView::Config(config))]
}

/// The fields of a script that opens a debugging session.
pub open spec fn gdb_fields(config: Config, reset: bool, rustc_substitute_path: Seq<char>) -> Seq<
    (Seq<char>, FieldView),
> {
    seq![
        ("config"@, FieldView::Config(config)),
        ("reset"@, FieldView::Flag(reset)),
        ("rustc-substitute-path"@, FieldView::Text(rustc_substitute_path)),
    ]
}

/// The fields of a script that captures the log. The ports stand in
/// ascending order.
pub open spec fn capture_fields(config: Config, ports: Set<u32>, reset: bool, pipe: Seq<char>) -> Seq<
    (Seq<char>, FieldView),
> {
    seq![
        ("config"@, FieldView::Config(config)),
        ("ports"@, FieldView::Numbers(ordered(ports))),
        ("reset"@, FieldView::Flag(reset)),
        ("pipe"@, FieldView::Text(pipe)),
    ]
}

/// The fields of the OpenOCD script that captures the log: those of any
/// such script, and the file that the log is copied to, where one is given.
pub open spec fn openocd_swo_fields(
    config: Config,
    ports: Set<u32>,
    reset: bool,
    pipe: Seq<char>,
    output: Option<Seq<char>>,
) -> Seq<(Seq<char>, FieldView)> {
    capture_fields(config, ports, reset, pipe).push(("output"@, text_or_absent(output)))
}

/// The fields of a script that writes the firmware.
pub open spec fn firmware_fields(firmware: Seq<char>) -> Seq<(Seq<char>, FieldView)> {
    seq![("firmware"@, FieldView::Text(firmware))]
}

/// Gathers the fields of the linker script.
pub fn layout_ld<'a>(config: &'a Config, prelink: bool) -> (context: RenderContext<'a>)
    ensures
        context.entries() == layout_ld_fields(*config, prelink),
{
    let mut context = RenderContext::new();
    context.put("config", Field::Config(config));
    context.put("prelink", Field::Flag(prelink));
    proof {
        assert(context.entries() =~= layout_ld_fields(*config, prelink));
    }
    context
}

/// Gathers the fields of `src/bin.rs`.
pub fn src_bin_rs(crate_name: &str) -> (context: RenderContext<'static>)
    ensures
        context.entries() == src_bin_rs_fields(crate_name@),
{
    let mut context = RenderContext::new();
    context.put("crate_name", Field::Text(String::from_str(crate_name)));
    proof {
        assert(context.entries() =~= src_bin_rs_fields(crate_name@));
    }
    context
}

/// Gathers the fields of `src/lib.rs`.
pub fn src_lib_rs(device: &Device, log: Log) -> (context: RenderContext<'static>)
    ensures
        context.entries() == src_lib_rs_fields(device@, log),
{
    let mut context = RenderContext::new();
    context.put(
        "bindings_name",
        Field::Text(String::from_str(device.bindings_crate.krate.underscore_name())),
    );
    context.put("log_ident", Field::Text(String::from_str(log.ident())));
    match device.log_dso {
        Some(dso) => {
            context.put("dso_name", Field::Text(String::from_str(dso.krate.underscore_name())));
            context.put("dso_regs", Field::Text(reg_lines(dso.krate.used_regs())));
        },
        None => {
            context.put("dso_name", Field::Absent);
            context.put("dso_regs", Field::Absent);
        },
    }
    proof {
        assert(context.entries() =~= src_lib_rs_fields(device@, log));
    }
    context
}

/// Tells the field that `src/lib.rs` needs and the device does not offer.
pub fn src_lib_rs_missing(device: &Device, log: Log) -> (field: Option<&'static str>)
    ensures
        match field {
            Some(name) => src_lib_rs_lack(device@, log) == Some(name@),
            None => src_lib_rs_lack(device@, log) is None,
        },
{
    match log {
        Log::DsoSerial => if device.log_dso.is_none() {
            Some("dso_name")
        } else {
            None
        },
        _ => None,
    }
}

/// Gathers the fields of `src/thr.rs`.
pub fn src_thr_rs(device: &Device) -> (context: RenderContext<'static>)
    ensures
        context.entries() == src_thr_rs_fields(device@),
{
    let mut context = RenderContext::new();
    context.put(
        "bindings_name",
        Field::Text(String::from_str(device.bindings_crate.krate.underscore_name())),
    );
    proof {
        assert(context.entries() =~= src_thr_rs_fields(device@));
    }
    context
}

/// Gathers the fields of `Cargo.toml`.
pub fn cargo_toml(device: &Device, crate_name: &str) -> (context: RenderContext<'static>)
    ensures
        context.entries() == cargo_toml_fields(device@, crate_name@),
{
    let mut context = RenderContext::new();
    context.put("crate_name", Field::Text(String::from_str(crate_name)));
    context.put(
        "platform_name",
        Field::Text(String::from_str(device.platform_crate.krate.kebab_name())),
    );
    context.put(
        "bindings_name",
        Field::Text(String::from_str(device.bindings_crate.krate.kebab_name())),
    );
    context.put("platform_features", Field::Texts(owned_all(device.platform_crate.features)));
    context.put("bindings_features", Field::Texts(owned_all(device.bindings_crate.features)));
    match device.log_dso {
        Some(dso) => {
            context.put("dso_name", Field::Text(String::from_str(dso.krate.kebab_name())));
            context.put("dso_features", Field::Texts(owned_all(dso.features)));
        },
        None => {
            context.put("dso_name", Field::Absent);
            context.put("dso_features", Field::Absent);
        },
    }
    proof {
        assert(context.entries() =~= cargo_toml_fields(device@, crate_name@));
    }
    context
}

/// Gathers the fields of `Drone.toml`.
pub fn drone_toml(
    device: &Device,
    flash_size: u32,
    ram_size: u32,
    heap: &str,
    probe: Probe,
    log: Log,
) -> (context: RenderContext<'static>)
    ensures
        context.entries() == drone_toml_fields(device@, flash_size, ram_size, heap@, probe, log),
{
    let mut context = RenderContext::new();
    context.put("device_flash_size", Field::Number(flash_size));
    context.put("device_flash_origin", Field::Number(device.flash_origin));
    context.put("device_ram_size", Field::Number(ram_size));
    context.put("device_ram_origin", Field::Number(device.ram_origin));
    context.put("heap", Field::Text(trim_end(heap)));
    context.put("probe_ident", Field::Text(String::from_str(probe.ident())));
    match device.probe_bmp {
        Some(bmp) => context.put("probe_bmp_device", Field::Text(String::from_str(bmp.device))),
        None => context.put("probe_bmp_device", Field::Absent),
    }
    match device.probe_openocd {
        Some(openocd) => context.put(
            "probe_openocd_arguments",
            Field::Texts(owned_all(openocd.arguments)),
        ),
        None => context.put("probe_openocd_arguments", Field::Absent),
    }
    match device.probe_jlink {
        Some(jlink) => context.put(
            "probe_jlink_device",
            Field::Text(String::from_str(jlink.device)),
        ),
        None => context.put("probe_jlink_device", Field::Absent),
    }
    context.put("log_ident", Field::Text(String::from_str(log.ident())));
    match device.log_swo {
        Some(swo) => context.put("log_swo_reset_freq", Field::Number(swo.reset_freq)),
        None => context.put("log_swo_reset_freq", Field::Absent),
    }
    proof {
        assert(context.entries() =~= drone_toml_fields(
            device@,
            flash_size,
            ram_size,
            heap@,
            probe,
            log,
        ));
    }
    context
}

/// Tells the field that `Drone.toml` needs and the device does not offer.
pub fn drone_toml_missing(device: &Device, probe: Probe, log: Log) -> (field: Option<&'static str>)
    ensures
        match field {
            Some(name) => drone_toml_lack(device@, probe, log) == Some(name@),
            None => drone_toml_lack(device@, probe, log) is None,
        },
{
    let probed = match probe {
        Probe::Bmp => if device.probe_bmp.is_none() {
            Some("probe_bmp_device")
        } else {
            None
        },
        Probe::Jlink => if device.probe_jlink.is_none() {
            Some("probe_jlink_device")
        } else {
            None
        },
        Probe::Openocd => if device.probe_openocd.is_none() {
            Some("probe_openocd_arguments")
        } else {
            None
        },
    };
    if probed.is_some() {
        return probed;
    }
    match log {
        Log::DsoSerial => None,
        _ => if device.log_swo.is_none() {
            Some("log_swo_reset_freq")
        } else {
            None
        },
    }
}

/// Gathers the fields of `Justfile`.
pub fn justfile(device: &Device) -> (context: RenderContext<'static>)
    ensures
        context.entries() == justfile_fields(device@),
{
    let mut context = RenderContext::new();
    context.put("device_target", Field::Text(String::from_str(device.target)));
    context.put(
        "platform_flag_name",
        Field::Text(String::from_str(device.platform_crate.krate.flag_name())),
    );
    context.put(
        "bindings_flag_name",
        Field::Text(String::from_str(device.bindings_crate.krate.flag_name())),
    );
    context.put("platform_flag", Field::Text(String::from_str(device.platform_crate.flag)));
    context.put("bindings_flag", Field::Text(String::from_str(device.bindings_crate.flag)));
    proof {
        assert(context.entries() =~= justfile_fields(device@));
    }
    context
}

/// Gathers the fields of `rust-toolchain`.
pub fn rust_toolchain(toolchain: &str) -> (context: RenderContext<'static>)
    ensures
        context.entries() == rust_toolchain_fields(toolchain@),
{
    let mut context = RenderContext::new();
    context.put("toolchain", Field::Text(String::from_str(toolchain)));
    proof {
        assert(context.entries() =~= rust_toolchain_fields(toolchain@));
    }
    context
}

/// Gathers the fields of a script that only reads the configuration.
pub fn config_only<'a>(config: &'a Config) -> (context: RenderContext<'a>)
    ensures
        context.entries() == config_fields(*config),
{
    let mut context = RenderContext::new();
    context.put("config", Field::Config(config));
    proof {
        assert(context.entries() =~= config_fields(*config));
    }
    context
}

/// Gathers the fields of a script that opens a debugging session.
pub fn gdb<'a>(config: &'a Config, reset: bool, rustc_substitute_path: &str) -> (context:
    RenderContext<'a>)
    ensures
        context.entries() == gdb_fields(*config, reset, rustc_substitute_path@),
{
    let mut context = RenderContext::new();
    context.put("config", Field::Config(config));
    context.put("reset", Field::Flag(reset));
    context.put("rustc-substitute-path", Field::Text(String::from_str(rustc_substitute_path)));
    proof {
        assert(context.entries() =~= gdb_fields(*config, reset, rustc_substitute_path@));
    }
    context
}

/// Gathers the fields of a script that captures the log.
pub fn capture<'a>(config: &'a Config, ports: &BTreeSet<u32>, reset: bool, pipe: &str) -> (context:
    RenderContext<'a>)
    ensures
        context.entries() == capture_fields(*config, ports@, reset, pipe@),
{
    let mut context = RenderContext::new();
    context.put("config", Field::Config(config));
    context.put("ports", Field::Numbers(port_list(ports)));
    context.put("reset", Field::Flag(reset));
    context.put("pipe", Field::Text(String::from_str(pipe)));
    proof {
        assert(context.entries() =~= capture_fields(*config, ports@, reset, pipe@));
    }
    context
}

/// Gathers the fields of the OpenOCD script that captures the log.
pub fn openocd_swo<'a>(
    config: &'a Config,
    ports: &BTreeSet<u32>,
    reset: bool,
    pipe: &str,
    output: Option<&str>,
) -> (context: RenderContext<'a>)
    ensures
        context.entries() == openocd_swo_fields(
            *config,
            ports@,
            reset,
            pipe@,
            match output {
                Some(path) => Some(path@),
                None => None,
            },
        ),
{
    let mut context = capture(config, ports, reset, pipe);
    match output {
        Some(path) => context.put("output", Field::Text(String::from_str(path))),
        None => context.put("output", Field::Absent),
    }
    context
}

/// Gathers the fields of a script that writes the firmware.
pub fn firmware(path: &str) -> (context: RenderContext<'static>)
    ensures
        context.entries() == firmware_fields(path@),
{
    let mut context = RenderContext::new();
    context.put("firmware", Field::Text(String::from_str(path)));
    proof {
        assert(context.entries() =~= firmware_fields(path@));
    }
    context
}

} // verus!
