use drone::devices::{lookup, Device};
use drone::probe::{Log, Probe};
use drone::templates::context::{Field, RenderContext};
use drone::templates::data;
use drone::templates::error::Cause;
use drone::templates::kind::{ArtifactKind, Shape};
use drone::templates::sources::sources;
use drone::templates::{load_outcome, Registry};
use drone_config::Config;
use std::collections::BTreeSet;

const HEAP: &str = "size = \"1K\"\npools = [\n    { block = \"4\", capacity = 256 },\n]\n\n";

fn registry() -> Registry {
    Registry::new().unwrap()
}

fn sorted(mut names: Vec<String>) -> Vec<String> {
    names.sort();
    names
}

fn config(probe: &str, log: &str) -> Config {
    let text = format!(
        "[memory]\nflash = {{ size = \"128K\", origin = 0x08000000 }}\nram = {{ size = \"20K\", \
         origin = 0x20000000 }}\n\n[heap.main]\nsize = \"1K\"\npools = [\n    {{ block = \"4\", \
         capacity = 256 }},\n]\n\n[linker]\nplatform = \"arm\"\n\n[probe]\ngdb-client-command = \
         \"gdb-multiarch\"\n{}\n{}\n",
        probe, log
    );
    Config::parse(&text).unwrap()
}

const BMP: &str = "[probe.bmp]\ndevice = \"stm32f103\"\ngdb-endpoint = \"/dev/ttyBmpGdb\"\n";
const OPENOCD: &str =
    "[probe.openocd]\ncommand = \"openocd\"\nport = 3333\narguments = [\"-f\", \"x.cfg\"]\n";
const JLINK: &str = "[probe.jlink]\ngdb-server-command = \"JLinkGDBServerCLExe\"\ncommander-command \
                     = \"JLinkExe\"\ndevice = \"NRF9160\"\ninterface = \"SWD\"\nspeed = 4000\nport = \
                     2331\n";
const SWO: &str = "[log.swo]\nreset-freq = 8000000\nbaud-rate = 115200\n";
const SWO_SERIAL: &str =
    "[log.swo]\nreset-freq = 8000000\nbaud-rate = 115200\nserial-endpoint = \"/dev/ttyUSB0\"\n";
const DSO: &str = "[log.dso]\nbaud-rate = 115200\nserial-endpoint = \"/dev/ttyACM0\"\n";

fn ports(items: &[u32]) -> BTreeSet<u32> {
    items.iter().copied().collect()
}

#[test]
fn the_registry_loads_every_template() {
    assert!(Registry::new().is_ok());
    assert_eq!(sources().len(), 28);
}

#[test]
fn every_kind_has_a_template_among_the_sources() {
    let kinds = [
        ArtifactKind::LayoutLd,
        ArtifactKind::SrcBinRs,
        ArtifactKind::SrcLibRs,
        ArtifactKind::SrcThrRs,
        ArtifactKind::SrcTasksModRs,
        ArtifactKind::SrcTasksRootRs,
        ArtifactKind::CargoToml,
        ArtifactKind::DroneToml,
        ArtifactKind::Justfile,
        ArtifactKind::RustToolchain,
        ArtifactKind::CargoConfig,
        ArtifactKind::Gitignore,
        ArtifactKind::BmpReset,
        ArtifactKind::BmpFlash,
        ArtifactKind::BmpGdb,
        ArtifactKind::BmpSwo,
        ArtifactKind::JlinkReset,
        ArtifactKind::JlinkFlash,
        ArtifactKind::JlinkGdb,
        ArtifactKind::JlinkDso,
        ArtifactKind::OpenocdReset,
        ArtifactKind::OpenocdFlash,
        ArtifactKind::OpenocdGdbGdb,
        ArtifactKind::OpenocdGdbOpenocd,
        ArtifactKind::OpenocdSwo,
    ];
    let all = sources();
    for kind in kinds {
        let count = all.iter().filter(|source| source.name == kind.template_name()).count();
        assert_eq!(count, 1, "{}", kind.template_name());
    }
}

#[test]
fn the_shape_of_a_kind_is_fixed() {
    assert_eq!(ArtifactKind::LayoutLd.shape(), Shape::File);
    assert_eq!(ArtifactKind::BmpReset.shape(), Shape::File);
    assert_eq!(ArtifactKind::JlinkFlash.shape(), Shape::File);
    assert_eq!(ArtifactKind::OpenocdSwo.shape(), Shape::File);
    assert_eq!(ArtifactKind::OpenocdGdbGdb.shape(), Shape::File);
    assert_eq!(ArtifactKind::OpenocdReset.shape(), Shape::Text);
    assert_eq!(ArtifactKind::OpenocdFlash.shape(), Shape::Text);
    assert_eq!(ArtifactKind::OpenocdGdbOpenocd.shape(), Shape::Text);
    assert_eq!(ArtifactKind::CargoToml.shape(), Shape::Text);
    assert_eq!(ArtifactKind::DroneToml.template_name(), "new/Drone.toml");
    assert_eq!(ArtifactKind::CargoConfig.template_name(), "new/_cargo/config");
}

#[test]
fn linker_script_holds_origin_and_size() {
    let mut registry = registry();
    let config = config(BMP, SWO);
    let script = registry.layout_ld(&config, false).unwrap();
    assert!(script.text.contains("FLASH (rx) : ORIGIN = 134217728, LENGTH = 131072\n"));
    assert!(script.text.contains("RAM (wx) : ORIGIN = 536870912, LENGTH = 20480\n"));
    assert!(script.text.contains(". += 1024;"));
    assert!(registry.usage().is_empty());
}

#[test]
fn linker_script_before_linking_reserves_no_heap() {
    let mut registry = registry();
    let config = config(BMP, SWO);
    let script = registry.layout_ld(&config, true).unwrap();
    assert!(script.text.contains(". += 0;"));
    assert!(!script.text.contains(". += 1024;"));
}

#[test]
fn drone_toml_end_to_end() {
    let mut registry = registry();
    let device = lookup("stm32f103").unwrap();
    let text = registry
        .new_drone_toml(&device, 128 * 1024, 20 * 1024, HEAP, Probe::Bmp, Log::SwoProbe)
        .unwrap();
    assert!(text.contains("flash = { size = \"131072\", origin = 134217728 }"));
    assert!(text.contains("ram = { size = \"20480\", origin = 536870912 }"));
    assert!(text.contains("[probe.bmp]\ndevice = \"stm32f103\"\n"));
    assert!(text.contains("[log.swo]\nreset-freq = 8000000\n"));
    assert!(!text.contains("[probe.openocd]"));
    assert!(!text.contains('\u{1}'));
    assert!(!text.contains('\u{2}'));
    let parsed = Config::parse(&text).unwrap();
    assert_eq!(parsed.memory.flash.origin, 0x0800_0000);
    assert_eq!(parsed.memory.flash.size, 128 * 1024);
    assert_eq!(parsed.probe.as_ref().unwrap().bmp.as_ref().unwrap().device, "stm32f103");
    let script = registry.layout_ld(&parsed, false).unwrap();
    assert!(script.text.contains("ORIGIN = 134217728, LENGTH = 131072"));
}

#[test]
fn drone_toml_trims_the_heap() {
    let mut registry = registry();
    let device = lookup("stm32f103").unwrap();
    let text = registry
        .new_drone_toml(&device, 1024, 1024, "size = \"0\"\npools = []\n\n\n", Probe::Bmp, Log::SwoProbe)
        .unwrap();
    assert!(text.contains("[heap.main]\nsize = \"0\"\npools = []\n\n[linker]"));
}

#[test]
fn usage_holds_the_fields_that_the_choice_consumed() {
    let mut registry = registry();
    let device = lookup("stm32f103").unwrap();
    registry.new_drone_toml(&device, 1, 1, HEAP, Probe::Bmp, Log::SwoProbe).unwrap();
    assert_eq!(sorted(registry.usage()), vec!["log_swo_reset_freq", "probe_bmp_device"]);
    registry.new_drone_toml(&device, 1, 1, HEAP, Probe::Openocd, Log::SwoSerial).unwrap();
    assert_eq!(sorted(registry.usage()), vec!["log_swo_reset_freq", "probe_openocd_arguments"]);
    let nrf91 = lookup("nrf9160").unwrap();
    registry.new_drone_toml(&nrf91, 1, 1, HEAP, Probe::Jlink, Log::DsoSerial).unwrap();
    assert_eq!(sorted(registry.usage()), vec!["probe_jlink_device"]);
}

#[test]
fn usage_is_cleared_by_the_next_render() {
    let mut registry = registry();
    let device = lookup("stm32f103").unwrap();
    registry.new_drone_toml(&device, 1, 1, HEAP, Probe::Bmp, Log::SwoProbe).unwrap();
    assert!(!registry.usage().is_empty());
    registry.new_gitignore().unwrap();
    assert!(registry.usage().is_empty());
}

#[test]
fn usage_is_empty_after_a_failed_render() {
    let mut registry = registry();
    let device = lookup("stm32f103").unwrap();
    registry.new_drone_toml(&device, 1, 1, HEAP, Probe::Bmp, Log::SwoProbe).unwrap();
    assert!(registry.new_drone_toml(&device, 1, 1, HEAP, Probe::Jlink, Log::SwoProbe).is_err());
    assert!(registry.usage().is_empty());
    registry.new_drone_toml(&device, 1, 1, HEAP, Probe::Bmp, Log::SwoProbe).unwrap();
    let only_openocd = config(OPENOCD, SWO);
    assert!(registry.bmp_reset(&only_openocd).is_err());
    assert!(registry.usage().is_empty());
}

#[test]
fn a_probe_that_the_device_lacks_is_a_render_error() {
    let mut registry = registry();
    let nrf52 = lookup("nrf52840").unwrap();
    let error = registry
        .new_drone_toml(&nrf52, 1, 1, HEAP, Probe::Bmp, Log::SwoProbe)
        .unwrap_err();
    assert_eq!(error.kind, ArtifactKind::DroneToml);
    assert_eq!(error.device, Some("nrf52840"));
    assert!(matches!(error.cause, Cause::MissingField("probe_bmp_device")));
    let error = registry
        .new_drone_toml(&nrf52, 1, 1, HEAP, Probe::Jlink, Log::SwoProbe)
        .unwrap_err();
    assert!(matches!(error.cause, Cause::MissingField("probe_jlink_device")));
    assert!(registry.new_drone_toml(&nrf52, 1, 1, HEAP, Probe::Openocd, Log::SwoProbe).is_ok());
    let nrf91 = lookup("nrf9160").unwrap();
    let error = registry
        .new_drone_toml(&nrf91, 1, 1, HEAP, Probe::Openocd, Log::DsoSerial)
        .unwrap_err();
    assert!(matches!(error.cause, Cause::MissingField("probe_openocd_arguments")));
    let error = registry
        .new_drone_toml(&nrf91, 1, 1, HEAP, Probe::Jlink, Log::SwoSerial)
        .unwrap_err();
    assert!(matches!(error.cause, Cause::MissingField("log_swo_reset_freq")));
}

#[test]
fn a_script_for_a_probe_that_the_configuration_lacks_is_a_render_error() {
    let mut registry = registry();
    let only_openocd = config(OPENOCD, SWO);
    let error = registry.bmp_reset(&only_openocd).unwrap_err();
    assert_eq!(error.kind, ArtifactKind::BmpReset);
    assert_eq!(error.device, None);
    assert!(matches!(error.cause, Cause::Engine(_)));
    assert!(registry.bmp_flash(&only_openocd).is_err());
    assert!(registry.bmp_gdb(&only_openocd, true, "/x").is_err());
    assert!(registry.jlink_gdb(&only_openocd, true, "/x").is_err());
    assert!(registry.openocd_gdb_openocd(&only_openocd).is_ok());
    let only_bmp = config(BMP, SWO);
    assert!(registry.openocd_gdb_openocd(&only_bmp).is_err());
    assert!(registry.openocd_gdb_gdb(&only_bmp, false, "/x").is_err());
    assert!(registry.bmp_reset(&only_bmp).is_ok());
    let no_log = config(BMP, "");
    assert!(registry.bmp_swo(&no_log, &ports(&[0]), false, "/tmp/pipe").is_err());
}

#[test]
fn dso_log_needs_a_device_that_offers_it() {
    let mut registry = registry();
    let device = lookup("stm32f103").unwrap();
    let error = registry.new_src_cortexm_lib_rs(&device, Log::DsoSerial).unwrap_err();
    assert_eq!(error.kind, ArtifactKind::SrcLibRs);
    assert_eq!(error.device, Some("stm32f103"));
    assert!(matches!(error.cause, Cause::MissingField("dso_name")));
    assert!(registry.new_src_cortexm_lib_rs(&device, Log::SwoProbe).is_ok());
}

#[test]
fn rendering_twice_gives_the_same_text() {
    let mut registry = registry();
    let device = lookup("stm32l4r9").unwrap();
    let first = registry.new_cargo_toml(&device, "blink").unwrap();
    let first_usage = sorted(registry.usage());
    let second = registry.new_cargo_toml(&device, "blink").unwrap();
    assert_eq!(first, second);
    assert_eq!(first_usage, sorted(registry.usage()));
    let mut other = Registry::new().unwrap();
    assert_eq!(other.new_cargo_toml(&device, "blink").unwrap(), first);
    let config = config(OPENOCD, SWO_SERIAL);
    let one = registry.openocd_swo(&config, &ports(&[1, 0]), true, "/tmp/p", Some("/tmp/o")).unwrap();
    let two = registry.openocd_swo(&config, &ports(&[0, 1]), true, "/tmp/p", Some("/tmp/o")).unwrap();
    assert_eq!(one.text, two.text);
}

#[test]
fn cargo_toml_names_the_crates_in_kebab_case() {
    let mut registry = registry();
    let device = lookup("stm32f103").unwrap();
    let text = registry.new_cargo_toml(&device, "my-app").unwrap();
    assert!(text.contains("name = \"my-app\""));
    assert!(text.contains("drone-cortex-m = { version = \"0.12.0\", features = [\"bit-band\"] }"));
    assert!(text.contains(
        "drone-stm32-map = { version = \"0.12.0\", features = [\"dma\", \"gpio\", \"spi\", \"tim\"] }"
    ));
    assert!(!text.contains("-dso"));
    assert_eq!(registry.usage(), Vec::<String>::new(), "{}", text);
    let nrf91 = lookup("nrf9160").unwrap();
    let text = registry.new_cargo_toml(&nrf91, "modem").unwrap();
    assert!(text.contains("drone-nrf-map = { version = \"0.12.0\", features = [\"uarte\"] }"));
    assert!(text.contains("drone-nrf91-dso = { version = \"0.12.0\", features = [] }"));
    assert_eq!(sorted(registry.usage()), vec!["dso_features", "dso_name"]);
}

#[test]
fn lib_rs_names_the_crates_in_underscore_case() {
    let mut registry = registry();
    let device = lookup("stm32f103").unwrap();
    let text = registry.new_src_cortexm_lib_rs(&device, Log::SwoProbe).unwrap();
    assert!(text.contains("use drone_stm32_map::stm32_reg_tokens;"));
    assert!(text.contains("drone_cortexm::swo::set_log!();"));
    assert!(registry.usage().is_empty());
    let nrf91 = lookup("nrf9160").unwrap();
    let text = registry.new_src_cortexm_lib_rs(&nrf91, Log::DsoSerial).unwrap();
    assert!(text.contains("use drone_nrf_map::nrf_reg_tokens;"));
    assert!(text.contains("drone_nrf91_dso::set_log!();"));
    assert!(text.contains(
        "\n    !uarte0_ns_tasks_startrx; !uarte0_ns_tasks_stoprx; !uarte0_ns_tasks_starttx;\n"
    ));
    assert!(text.contains("!uarte0_ns_config;\n"));
    for line in text.lines().filter(|line| line.starts_with("    !uarte0")) {
        assert!(line.len() - 4 <= 96);
    }
    assert_eq!(sorted(registry.usage()), vec!["dso_name", "dso_regs"]);
}

#[test]
fn thr_rs_and_tasks() {
    let mut registry = registry();
    let device = lookup("nrf52832").unwrap();
    assert!(registry
        .new_src_cortexm_thr_rs(&device)
        .unwrap()
        .contains("pub use drone_nrf_map::thr::*;"));
    assert!(registry.new_src_cortexm_tasks_mod_rs().unwrap().contains("pub mod root;"));
    assert!(registry.new_src_cortexm_tasks_root_rs().unwrap().contains("pub fn handler("));
    assert!(registry
        .new_src_cortexm_bin_rs("blink")
        .unwrap()
        .contains("use blink::{\n    tasks,"));
}

#[test]
fn justfile_sets_the_flags() {
    let mut registry = registry();
    let device = lookup("stm32f429").unwrap();
    let text = registry.new_justfile(&device).unwrap();
    assert!(text.contains("build_target := 'thumbv7em-none-eabihf'"));
    assert!(text.contains(
        "export DRONE_RUSTFLAGS := '--cfg cortexm_core=\"cortexm4f_r0p1\" --cfg \
         stm32_mcu=\"stm32f429\"'"
    ));
    assert!(text.contains("--features \"{{features}}\""));
    assert!(text.contains("drone flash {{release_bin}}"));
}

#[test]
fn small_project_files() {
    let mut registry = registry();
    assert_eq!(registry.new_rust_toolchain("nightly-2020-04-30").unwrap(), "nightly-2020-04-30\n");
    assert_eq!(registry.new_gitignore().unwrap(), "/target\n**/*.rs.bk\n");
    assert!(registry.new_cargo_config().unwrap().starts_with("[build]\n"));
}

#[test]
fn bmp_scripts() {
    let mut registry = registry();
    let config = config(BMP, SWO);
    let reset = registry.bmp_reset(&config).unwrap();
    assert!(reset.text.starts_with("target extended-remote /dev/ttyBmpGdb\n"));
    assert!(reset.text.ends_with("kill\nquit\n"));
    assert_eq!(sorted(registry.usage()), vec!["config.probe.bmp"]);
    let flash = registry.bmp_flash(&config).unwrap();
    assert!(flash.text.contains("\nload\n"));
    let gdb = registry.bmp_gdb(&config, true, "/home/me/.rustup/src").unwrap();
    assert!(gdb.text.contains("set substitute-path /rustc/ /home/me/.rustup/src\n"));
    assert!(gdb.text.ends_with("run\n"));
    let gdb = registry.bmp_gdb(&config, false, "/home/me/.rustup/src").unwrap();
    assert!(!gdb.text.ends_with("run\n"));
    let swo = registry.bmp_swo(&config, &ports(&[3, 0]), false, "/tmp/pipe").unwrap();
    assert!(swo.text.contains("monitor traceswo 115200\n"));
    assert!(swo.text.contains(
        "set {int}$ITM_TER = {int}$ITM_TER | 1 << 0\nset {int}$ITM_TER = {int}$ITM_TER | 1 << 3\n"
    ));
    assert!(swo.text.contains("> /tmp/pipe &"));
    assert!(swo.text.ends_with("continue\n"));
    assert_eq!(sorted(registry.usage()), vec!["config.log.swo", "config.probe.bmp"]);
}

#[test]
fn jlink_scripts() {
    let mut registry = registry();
    let config = config(JLINK, DSO);
    assert_eq!(registry.jlink_reset().unwrap().text, "r\ng\nexit\n");
    assert_eq!(
        registry.jlink_flash("target/fw.bin").unwrap().text,
        "r\nloadfile target/fw.bin\nr\ng\nexit\n"
    );
    let gdb = registry.jlink_gdb(&config, true, "/src").unwrap();
    assert!(gdb.text.starts_with("target remote localhost:2331\n"));
    assert!(gdb.text.ends_with("monitor reset\n"));
    assert_eq!(sorted(registry.usage()), vec!["config.probe.jlink"]);
    let dso = registry.jlink_dso(&config, &ports(&[1]), false, "/tmp/pipe").unwrap();
    assert!(dso.text.contains("shell stty -F /dev/ttyACM0 115200 raw\n"));
    assert!(dso.text.contains("shell cat /dev/ttyACM0 > /tmp/pipe &\n"));
    assert_eq!(sorted(registry.usage()), vec!["config.log.dso", "config.probe.jlink"]);
}

#[test]
fn openocd_scripts() {
    let mut registry = registry();
    let config = config(OPENOCD, SWO_SERIAL);
    assert_eq!(registry.openocd_reset().unwrap(), "init\nreset run\nshutdown\n");
    let flash = registry.openocd_flash("a&b.elf").unwrap();
    assert!(flash.contains("flash write_image erase a&b.elf 0 elf\n"));
    assert!(registry.openocd_gdb_openocd(&config).unwrap().starts_with("gdb_port 3333\n"));
    let gdb = registry.openocd_gdb_gdb(&config, true, "/src").unwrap();
    assert!(gdb.text.ends_with("monitor reset halt\n"));
    let swo = registry
        .openocd_swo(&config, &ports(&[2, 1]), true, "/tmp/pipe", Some("/tmp/out"))
        .unwrap();
    assert!(swo.text.contains("monitor tpiu config internal /tmp/pipe uart off 8000000 115200\n"));
    assert!(swo.text.contains("shell stty -F /dev/ttyUSB0 115200 raw\n"));
    assert!(swo.text.contains("shell cat /tmp/pipe > /tmp/out &\n"));
    assert!(swo.text.contains("monitor itm port 1 on\nmonitor itm port 2 on\n"));
    assert!(swo.text.ends_with("monitor reset run\n"));
    assert_eq!(
        sorted(registry.usage()),
        vec!["config.log.swo", "config.log.swo.serial-endpoint", "config.probe.openocd", "output"]
    );
    let plain = config_without_serial();
    let swo = registry.openocd_swo(&plain, &ports(&[]), false, "/tmp/pipe", None).unwrap();
    assert!(!swo.text.contains("stty"));
    assert!(!swo.text.contains("shell cat"));
    assert!(swo.text.ends_with("continue\n"));
    assert_eq!(sorted(registry.usage()), vec!["config.log.swo", "config.probe.openocd"]);
}

fn config_without_serial() -> Config {
    config(OPENOCD, SWO)
}

#[test]
fn absent_fields_are_put_as_absent() {
    let device = lookup("stm32f103").unwrap();
    let context = data::cargo_toml(&device, "x");
    assert!(matches!(context.get("dso_name"), Some(Field::Absent)));
    assert!(matches!(context.get("dso_features"), Some(Field::Absent)));
    assert!(context.get("dso_regs").is_none());
    let context = data::drone_toml(&device, 1, 2, "h \n", Probe::Bmp, Log::SwoProbe);
    assert!(matches!(context.get("probe_jlink_device"), Some(Field::Absent)));
    assert!(matches!(context.get("probe_bmp_device"), Some(Field::Text(name)) if name == "stm32f103"));
    assert!(matches!(context.get("device_flash_size"), Some(Field::Number(1))));
    assert!(matches!(context.get("device_flash_origin"), Some(Field::Number(0x0800_0000))));
    assert!(matches!(context.get("device_ram_size"), Some(Field::Number(2))));
    assert!(matches!(context.get("heap"), Some(Field::Text(heap)) if heap == "h"));
    assert!(matches!(context.get("probe_ident"), Some(Field::Text(ident)) if ident == "bmp"));
    assert!(matches!(context.get("log_ident"), Some(Field::Text(ident)) if ident == "swoprobe"));
    assert!(matches!(context.get("log_swo_reset_freq"), Some(Field::Number(8_000_000))));
    assert_eq!(context.len(), 11);
}

#[test]
fn contexts_hold_the_fields_of_their_artifacts() {
    let nrf91 = lookup("nrf9160").unwrap();
    let context = data::src_lib_rs(&nrf91, Log::DsoSerial);
    assert!(matches!(context.get("bindings_name"), Some(Field::Text(name)) if name == "nrf"));
    assert!(matches!(context.get("log_ident"), Some(Field::Text(ident)) if ident == "dsoserial"));
    assert!(matches!(context.get("dso_name"), Some(Field::Text(name)) if name == "nrf91"));
    assert!(
        matches!(context.get("dso_regs"), Some(Field::Text(regs)) if regs.starts_with("    !uarte0_ns_tasks_startrx; "))
    );
    let context = data::justfile(&nrf91);
    assert!(
        matches!(context.get("device_target"), Some(Field::Text(target)) if target == "thumbv8m.main-none-eabihf")
    );
    assert!(
        matches!(context.get("platform_flag_name"), Some(Field::Text(name)) if name == "cortexm_core")
    );
    assert!(matches!(context.get("bindings_flag_name"), Some(Field::Text(name)) if name == "nrf_mcu"));
    assert!(
        matches!(context.get("platform_flag"), Some(Field::Text(flag)) if flag == "cortexm33f_r0p2")
    );
    assert!(matches!(context.get("bindings_flag"), Some(Field::Text(flag)) if flag == "nrf9160"));
    let config = config(BMP, SWO);
    let context = data::openocd_swo(&config, &ports(&[5, 4]), true, "p", None);
    assert!(matches!(context.get("ports"), Some(Field::Numbers(list)) if list == &vec![4, 5]));
    assert!(matches!(context.get("reset"), Some(Field::Flag(true))));
    assert!(matches!(context.get("pipe"), Some(Field::Text(pipe)) if pipe == "p"));
    assert!(matches!(context.get("output"), Some(Field::Absent)));
    assert!(matches!(context.get("config"), Some(Field::Config(_))));
    let context = data::gdb(&config, false, "/s");
    assert!(
        matches!(context.get("rustc-substitute-path"), Some(Field::Text(path)) if path == "/s")
    );
}

#[test]
fn a_field_put_again_takes_the_later_value() {
    let mut context = RenderContext::new();
    context.put("x", Field::Number(1));
    context.put("y", Field::Flag(true));
    context.put("x", Field::Number(2));
    assert!(matches!(context.get("x"), Some(Field::Number(2))));
    assert!(matches!(context.get("y"), Some(Field::Flag(true))));
    assert!(context.get("z").is_none());
    assert_eq!(context.len(), 3);
    assert_eq!(context.entry(0).unwrap().name, "x");
    assert!(matches!(context.entry(2).unwrap().field, Field::Number(2)));
    assert!(context.entry(3).is_none());
}

#[test]
fn render_takes_any_context_for_a_kind() {
    let mut registry = registry();
    let mut context = RenderContext::new();
    context.put("toolchain", Field::Text("stable".to_string()));
    assert_eq!(registry.render(ArtifactKind::RustToolchain, None, &context).unwrap(), "stable\n");
    let empty = RenderContext::new();
    let error = registry.render(ArtifactKind::RustToolchain, Some("x"), &empty).unwrap_err();
    assert_eq!(error.kind, ArtifactKind::RustToolchain);
    assert_eq!(error.device, Some("x"));
    assert!(matches!(error.cause, Cause::Engine(message) if message.contains("toolchain")));
}

#[test]
fn missing_checks_tell_the_first_field_that_is_missing() {
    let device: Device = lookup("nrf9160").unwrap();
    assert_eq!(data::drone_toml_missing(&device, Probe::Jlink, Log::DsoSerial), None);
    assert_eq!(
        data::drone_toml_missing(&device, Probe::Bmp, Log::SwoProbe),
        Some("probe_bmp_device")
    );
    assert_eq!(
        data::drone_toml_missing(&device, Probe::Jlink, Log::SwoProbe),
        Some("log_swo_reset_freq")
    );
    assert_eq!(data::src_lib_rs_missing(&device, Log::DsoSerial), None);
    let stm32 = lookup("stm32f100").unwrap();
    assert_eq!(data::src_lib_rs_missing(&stm32, Log::DsoSerial), Some("dso_name"));
    assert_eq!(data::src_lib_rs_missing(&stm32, Log::SwoSerial), None);
}

#[test]
fn render_errors_tell_the_artifact_the_device_and_the_cause() {
    let mut registry = registry();
    let nrf52 = lookup("nrf52840").unwrap();
    let error = registry
        .new_drone_toml(&nrf52, 1, 1, HEAP, Probe::Bmp, Log::SwoProbe)
        .unwrap_err();
    assert_eq!(
        error.message(),
        "`new/Drone.toml` was not rendered for `nrf52840`: the device does not offer \
         `probe_bmp_device`"
    );
    let only_openocd = config(OPENOCD, SWO);
    let error = registry.bmp_reset(&only_openocd).unwrap_err();
    let message = error.message();
    assert!(message.starts_with("`bmp/reset.gdb` was not rendered: "));
    assert!(message.len() > "`bmp/reset.gdb` was not rendered: ".len());
}

#[test]
fn a_text_that_holds_a_note_character_is_refused() {
    let mut registry = registry();
    let error = registry.new_src_cortexm_bin_rs("a\u{1}b").unwrap_err();
    assert_eq!(error.kind, ArtifactKind::SrcBinRs);
    assert_eq!(error.device, None);
    assert!(matches!(error.cause, Cause::Reserved("crate_name")));
    assert_eq!(
        error.message(),
        "`new/src-cortexm/bin.rs` was not rendered: `crate_name` holds a character that is kept \
         for usage notes"
    );
    assert!(registry.usage().is_empty());
    let error = registry.jlink_flash("fw\u{2}.bin").unwrap_err();
    assert!(matches!(error.cause, Cause::Reserved("firmware")));
    let config = config(OPENOCD, SWO);
    let error = registry
        .openocd_swo(&config, &ports(&[0]), false, "/tmp/pipe", Some("/tmp/\u{1}out\u{2}"))
        .unwrap_err();
    assert!(matches!(error.cause, Cause::Reserved("output")));
    let error = registry
        .openocd_swo(&config, &ports(&[0]), false, "\u{2}", Some("/tmp/\u{1}out\u{2}"))
        .unwrap_err();
    assert!(matches!(error.cause, Cause::Reserved("pipe")));
    let device = lookup("stm32f103").unwrap();
    let error = registry
        .new_drone_toml(&device, 1, 1, "size = \"\u{1}\"", Probe::Bmp, Log::SwoProbe)
        .unwrap_err();
    assert_eq!(error.device, Some("stm32f103"));
    assert!(matches!(error.cause, Cause::Reserved("heap")));
}

#[test]
fn a_list_that_holds_a_note_character_is_refused() {
    let mut registry = registry();
    let mut context = RenderContext::new();
    context.put("crate_name", Field::Text("ok".to_string()));
    context.put("platform_features", Field::Texts(vec!["a".to_string(), "b\u{1}".to_string()]));
    context.put("bindings_features", Field::Texts(vec!["\u{2}".to_string()]));
    assert_eq!(context.reserved_field(), Some("platform_features"));
    let error = registry.render(ArtifactKind::CargoToml, None, &context).unwrap_err();
    assert!(matches!(error.cause, Cause::Reserved("platform_features")));
}

#[test]
fn texts_without_note_characters_are_taken() {
    let device = lookup("nrf9160").unwrap();
    assert_eq!(data::cargo_toml(&device, "x").reserved_field(), None);
    assert_eq!(data::src_lib_rs(&device, Log::DsoSerial).reserved_field(), None);
    assert_eq!(RenderContext::new().reserved_field(), None);
    let mut context = RenderContext::new();
    context.put("n", Field::Number(1));
    context.put("l", Field::Numbers(vec![1, 2]));
    context.put("f", Field::Flag(true));
    context.put("a", Field::Absent);
    context.put("t", Field::Text("\u{3}\u{0}".to_string()));
    assert_eq!(context.reserved_field(), None);
}

#[test]
fn the_heap_keeps_its_leading_white_space() {
    let device = lookup("stm32f103").unwrap();
    let context = data::drone_toml(&device, 1, 2, "  a\n \t\n", Probe::Bmp, Log::SwoProbe);
    assert!(matches!(context.get("heap"), Some(Field::Text(heap)) if heap == "  a"));
}

#[test]
fn a_template_that_the_engine_took_is_loaded() {
    assert!(load_outcome("layout.ld", Ok(())).is_ok());
}

#[test]
fn a_template_that_the_engine_did_not_take_is_told_with_its_message() {
    let error = load_outcome("bmp/gdb.gdb", Err("line 3: unexpected end".to_string())).unwrap_err();
    assert_eq!(error.template, "bmp/gdb.gdb");
    assert_eq!(error.message, "line 3: unexpected end");
    assert_eq!(error.message(), "template `bmp/gdb.gdb` was not loaded: line 3: unexpected end");
    let error = load_outcome("", Err(String::new())).unwrap_err();
    assert_eq!(error.template, "");
    assert_eq!(error.message, "");
}
