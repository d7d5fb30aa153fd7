//! The texts of the templates.
//!
//! A template is written for `handlebars`. Where it consumes an optional
//! field it writes a usage note: the name of the field between U+0001 and
//! U+0002, in the branch that reads the field.

use vstd::prelude::*;

verus! {

/// The linker script.
pub const LAYOUT_LD: &'static str = "MEMORY
{
    FLASH (rx) : ORIGIN = {{config.memory.flash.origin}}, LENGTH = {{config.memory.flash.size}}
    RAM (wx) : ORIGIN = {{config.memory.ram.origin}}, LENGTH = {{config.memory.ram.size}}
}

ENTRY(reset);

SECTIONS
{
    .text ORIGIN(FLASH) :
    {
        KEEP(*(.vtable));
        *(.text .text.*);
        *(.rodata .rodata.*);
        . = ALIGN(4);
    } > FLASH

    .bss ORIGIN(RAM) (NOLOAD) :
    {
        BSS_START = .;
        *(.bss .bss.*);
        . = ALIGN(4);
        BSS_END = .;
    } > RAM

    .data : ALIGN(4)
    {
        DATA_LOAD = LOADADDR(.data);
        DATA_START = .;
        *(.data .data.*);
        . = ALIGN(4);
        DATA_END = .;
    } > RAM AT > FLASH

    .heap (NOLOAD) : ALIGN(4)
    {
        HEAP_START = .;
{{#if prelink}}
        . += 0;
{{else}}
        . += {{config.heap.main.size}};
{{/if}}
        HEAP_END = .;
    } > RAM

    /DISCARD/ :
    {
        *(.ARM.exidx.*);
    }
}
";

/// `src/bin.rs` of a new project.
pub const NEW_SRC_CORTEXM_BIN_RS: &'static str = "#![feature(naked_functions)]
#![no_main]
#![no_std]

use drone_core::{mem, token::Token};
use drone_cortexm::processor;
use {{crate_name}}::{
    tasks,
    thr::{Thrs, Vtable},
    Regs,
};

/// The vector table.
#[no_mangle]
pub static VTABLE: Vtable = Vtable::new(reset);

/// The entry point.
///
/// # Safety
///
/// This function should not be called by software.
#[no_mangle]
#[naked]
pub unsafe extern \"C\" fn reset() -> ! {
    mem::bss_init();
    mem::data_init();
    tasks::root(Regs::take(), Thrs::take());
    loop {
        processor::wait_for_int();
    }
}
";

/// `src/lib.rs` of a new project.
pub const NEW_SRC_CORTEXM_LIB_RS: &'static str = "#![feature(const_fn)]
#![feature(prelude_import)]
#![no_std]

pub mod tasks;
pub mod thr;

#[prelude_import]
#[allow(unused_imports)]
use drone_core::prelude::*;

use drone_core::heap;
use drone_{{bindings_name}}_map::{{bindings_name}}_reg_tokens;

{{bindings_name}}_reg_tokens! {
    /// A set of tokens for all memory-mapped registers.
    pub struct Regs;

    !scb_ccr;
    !mpu_type; !mpu_ctrl; !mpu_rnr; !mpu_rbar; !mpu_rasr;
{{#if (eq log_ident \"dsoserial\")}}

    // The registers of the log output.
{{{dso_regs}}}\u{1}dso_regs\u{2}
{{/if}}
}

heap! {
    /// A heap allocator.
    pub struct Heap;

    /// The global allocator.
    #[cfg_attr(not(feature = \"std\"), global_allocator)]
    pub static HEAP;
}

{{#if (eq log_ident \"dsoserial\")}}
drone_{{dso_name}}_dso::set_log!();\u{1}dso_name\u{2}
{{else}}
drone_cortexm::swo::set_log!();
{{/if}}
";

/// `src/thr.rs` of a new project.
pub const NEW_SRC_CORTEXM_THR_RS: &'static str = "//! The threads.

pub use drone_cortexm::thr::{init, init_extended};
pub use drone_{{bindings_name}}_map::thr::*;

use drone_cortexm::thr;

thr::vtable! {
    use Thr;

    /// The vector table type.
    pub struct Vtable;

    /// Explicit vector table handlers.
    pub struct Handlers;

    /// A set of thread tokens.
    pub struct Thrs;

    /// The array of thread data.
    static THREADS;

    /// All classes of faults.
    pub HARD_FAULT;
}

thr! {
    use THREADS;

    /// The thread data.
    pub struct Thr {}

    /// The thread-local storage.
    pub struct ThrLocal {}
}
";

/// `src/tasks/mod.rs` of a new project.
pub const NEW_SRC_CORTEXM_TASKS_MOD_RS: &'static str = "//! The tasks.

pub mod root;

pub use self::root::handler as root;
";

/// `src/tasks/root.rs` of a new project.
pub const NEW_SRC_CORTEXM_TASKS_ROOT_RS: &'static str = "//! The root task.

use crate::{thr, thr::Thrs, Regs};
use drone_cortexm::{reg::prelude::*, thr::prelude::*};

/// The root task handler.
#[inline(never)]
pub fn handler(reg: Regs, thr_init: Thrs) {
    let thr = thr::init(thr_init);

    thr.hard_fault.add_once(|| panic!(\"Hard Fault\"));

    println!(\"Hello, world!\");

    // Enter a sleep state on ISR exit.
    reg.scb_scr.sleeponexit.set_bit();
}
";

/// `Cargo.toml` of a new project.
pub const NEW_CARGO_TOML: &'static str = "cargo-features = [\"resolver\"]

[package]
name = \"{{{crate_name}}}\"
version = \"0.1.0\"
authors = []
edition = \"2018\"
resolver = \"2\"

[[bin]]
name = \"{{{crate_name}}}\"
test = false
doc = false

[features]
default = []
std = [
    \"drone-core/std\",
    \"drone-{{platform_name}}/std\",
    \"drone-{{bindings_name}}-map/std\",
    \"futures/std\",
]

[dependencies]
drone-core = { version = \"0.12.0\" }
drone-{{platform_name}} = { version = \"0.12.0\", features = [{{#each platform_features}}\"{{{this}}}\"{{#unless @last}}, {{/unless}}{{/each}}] }
drone-{{bindings_name}}-map = { version = \"0.12.0\", features = [{{#each bindings_features}}\"{{{this}}}\"{{#unless @last}}, {{/unless}}{{/each}}] }
{{#if dso_name}}
drone-{{dso_name}}-dso = { version = \"0.12.0\", features = [{{#each dso_features}}\"{{{this}}}\"{{#unless @last}}, {{/unless}}{{/each}}] }\u{1}dso_name\u{2}\u{1}dso_features\u{2}
{{/if}}
futures = { version = \"0.3.0\", default-features = false }

[profile.release]
lto = true
debug = true
panic = \"abort\"
";

/// `Drone.toml` of a new project.
pub const NEW_DRONE_TOML: &'static str = "[memory]
flash = { size = \"{{device_flash_size}}\", origin = {{device_flash_origin}} }
ram = { size = \"{{device_ram_size}}\", origin = {{device_ram_origin}} }

[heap.main]
{{{heap}}}

[linker]
platform = \"arm\"

[probe]
gdb-client-command = \"gdb-multiarch\"
{{#if (eq probe_ident \"bmp\")}}

[probe.bmp]
device = \"{{{probe_bmp_device}}}\"\u{1}probe_bmp_device\u{2}
gdb-endpoint = \"/dev/ttyBmpGdb\"
{{/if}}
{{#if (eq probe_ident \"jlink\")}}

[probe.jlink]
gdb-server-command = \"JLinkGDBServerCLExe\"
commander-command = \"JLinkExe\"
device = \"{{{probe_jlink_device}}}\"\u{1}probe_jlink_device\u{2}
interface = \"SWD\"
speed = 4000
port = 2331
{{/if}}
{{#if (eq probe_ident \"openocd\")}}

[probe.openocd]
command = \"openocd\"
port = 3333
arguments = [{{#each probe_openocd_arguments}}\"{{{this}}}\"{{#unless @last}}, {{/unless}}{{/each}}]\u{1}probe_openocd_arguments\u{2}
{{/if}}
{{#if (eq log_ident \"swoprobe\")}}

[log.swo]
reset-freq = {{log_swo_reset_freq}}\u{1}log_swo_reset_freq\u{2}
baud-rate = 115200
{{/if}}
{{#if (eq log_ident \"swoserial\")}}

[log.swo]
reset-freq = {{log_swo_reset_freq}}\u{1}log_swo_reset_freq\u{2}
baud-rate = 115200
serial-endpoint = \"/dev/ttyUSB0\"
{{/if}}
{{#if (eq log_ident \"dsoserial\")}}

[log.dso]
baud-rate = 115200
serial-endpoint = \"/dev/ttyACM0\"
{{/if}}
";

/// `Justfile` of a new project.
pub const NEW_JUSTFILE: &'static str = "build_target := '{{{device_target}}}'
features := ''
name := `basename \"$(pwd)\"`
release_bin := \"target/\" + build_target + \"/release/\" + name

export DRONE_RUSTFLAGS := '--cfg {{platform_flag_name}}=\"{{{platform_flag}}}\" --cfg {{bindings_flag_name}}=\"{{{bindings_flag}}}\"'

# Install dependencies
deps:
\trustup target add {{{device_target}}}
\trustup component add clippy rustfmt
\ttype drone >/dev/null || cargo install drone

# Reformat the source code
fmt:
\tcargo fmt

# Check the source code for mistakes
lint:
\tdrone env {{{device_target}}} -- cargo clippy --features \"\\{{features}}\"

# Build the binary
build:
\tdrone env {{{device_target}}} -- cargo build --features \"\\{{features}}\" --release

# Build the documentation
doc:
\tdrone env {{{device_target}}} -- cargo doc --features \"\\{{features}}\"

# Write the binary to the connected device
flash: build
\tdrone flash \\{{release_bin}}

# Run a GDB session on the connected device
gdb:
\tdrone gdb \\{{release_bin}} --reset

# Capture the log output of the connected device
log:
\tdrone log --reset :0:1

# Run the tests
test:
\tcargo test --features \"std \\{{features}}\"
";

/// `rust-toolchain` of a new project.
pub const NEW_RUST_TOOLCHAIN: &'static str = "{{{toolchain}}}
";

/// `.cargo/config` of a new project.
pub const NEW_CARGO_CONFIG: &'static str = "[build]
rustflags = [\"-Z\", \"macro-backtrace\"]
";

/// `.gitignore` of a new project.
pub const NEW_GITIGNORE: &'static str = "/target
**/*.rs.bk
";

/// How a Black Magic Probe session reaches the target.
pub const BMP_TARGET_GDB: &'static str = "target extended-remote {{{config.probe.bmp.gdb-endpoint}}}\u{1}config.probe.bmp\u{2}
monitor version
monitor swdp_scan
attach 1
{{> bmp/target/cortexm.gdb}}
{{#if config.log.swo}}
{{> bmp/target/stm32.gdb}}
{{/if}}
";

/// What a Black Magic Probe session sets on every Cortex-M core.
pub const BMP_TARGET_CORTEXM_GDB: &'static str = "set mem inaccessible-by-default off
monitor vector_catch disable hard
";

/// What a Black Magic Probe session sets to keep the trace clock running.
pub const BMP_TARGET_STM32_GDB: &'static str = "set var $DBGMCU_CR = 0xE0042004
set {int}$DBGMCU_CR = {int}$DBGMCU_CR | 0x27
";

/// The Black Magic Probe script that resets the target.
pub const BMP_RESET_GDB: &'static str = "{{> bmp/target.gdb}}
kill
quit
";

/// The Black Magic Probe script that writes the firmware.
pub const BMP_FLASH_GDB: &'static str = "{{> bmp/target.gdb}}
load
compare-sections
kill
quit
";

/// The Black Magic Probe script that opens a debugging session.
pub const BMP_GDB_GDB: &'static str = "{{> bmp/target.gdb}}
set substitute-path /rustc/ {{{rustc-substitute-path}}}
{{#if reset}}
run
{{/if}}
";

/// The Black Magic Probe script that captures the SWO log.
pub const BMP_SWO_GDB: &'static str = "{{> bmp/target.gdb}}
monitor traceswo {{config.log.swo.baud-rate}}\u{1}config.log.swo\u{2}
set var $TPIU_ACPR = 0xE0040010
set {int}$TPIU_ACPR = {{config.log.swo.reset-freq}} / {{config.log.swo.baud-rate}} - 1
set var $ITM_TER = 0xE0000E00
set {int}$ITM_TER = 0
{{#each ports}}
set {int}$ITM_TER = {int}$ITM_TER | 1 << {{this}}
{{/each}}
shell cat {{{config.probe.bmp.gdb-endpoint}}} > {{{pipe}}} &
{{#if reset}}
run
{{else}}
continue
{{/if}}
";

/// The J-Link Commander script that resets the target.
pub const JLINK_RESET_JLINK: &'static str = "r
g
exit
";

/// The J-Link Commander script that writes the firmware.
pub const JLINK_FLASH_JLINK: &'static str = "r
loadfile {{{firmware}}}
r
g
exit
";

/// The J-Link script that opens a debugging session.
pub const JLINK_GDB_GDB: &'static str = "target remote localhost:{{config.probe.jlink.port}}\u{1}config.probe.jlink\u{2}
set substitute-path /rustc/ {{{rustc-substitute-path}}}
{{#if reset}}
monitor reset
{{/if}}
";

/// The J-Link script that captures the Drone Serial Output log.
pub const JLINK_DSO_GDB: &'static str = "target remote localhost:{{config.probe.jlink.port}}\u{1}config.probe.jlink\u{2}
shell stty -F {{{config.log.dso.serial-endpoint}}} {{config.log.dso.baud-rate}} raw\u{1}config.log.dso\u{2}
shell cat {{{config.log.dso.serial-endpoint}}} > {{{pipe}}} &
{{#each ports}}
echo port {{this}}\\n
{{/each}}
{{#if reset}}
monitor reset
{{/if}}
continue
";

/// The OpenOCD commands that reset the target.
pub const OPENOCD_RESET_OPENOCD: &'static str = "init
reset run
shutdown
";

/// The OpenOCD commands that write the firmware.
pub const OPENOCD_FLASH_OPENOCD: &'static str = "init
reset halt
flash write_image erase {{{firmware}}} 0 elf
verify_image {{{firmware}}} 0 elf
reset run
shutdown
";

/// The GDB script of an OpenOCD debugging session.
pub const OPENOCD_GDB_GDB: &'static str = "target remote localhost:{{config.probe.openocd.port}}\u{1}config.probe.openocd\u{2}
set substitute-path /rustc/ {{{rustc-substitute-path}}}
{{#if reset}}
monitor reset halt
{{/if}}
";

/// The OpenOCD commands of a debugging session.
pub const OPENOCD_GDB_OPENOCD: &'static str = "gdb_port {{config.probe.openocd.port}}\u{1}config.probe.openocd\u{2}
tcl_port disabled
telnet_port disabled
init
";

/// The OpenOCD script that captures the SWO log.
pub const OPENOCD_SWO_GDB: &'static str = "target remote localhost:{{config.probe.openocd.port}}\u{1}config.probe.openocd\u{2}
monitor tpiu config internal {{{pipe}}} uart off {{config.log.swo.reset-freq}} {{config.log.swo.baud-rate}}\u{1}config.log.swo\u{2}
{{#if config.log.swo.serial-endpoint}}
shell stty -F {{{config.log.swo.serial-endpoint}}} {{config.log.swo.baud-rate}} raw\u{1}config.log.swo.serial-endpoint\u{2}
{{/if}}
{{#if output}}
shell cat {{{pipe}}} > {{{output}}} &\u{1}output\u{2}
{{/if}}
monitor itm ports off
{{#each ports}}
monitor itm port {{this}} on
{{/each}}
{{#if reset}}
monitor reset run
{{else}}
continue
{{/if}}
";

/// A template: its name and its text.
#[derive(Clone, Copy, Debug)]
pub struct Source {
    /// The name that the template is registered and rendered under.
    pub name: &'static str,
    /// The text of the template.
    pub text: &'static str,
}

/// The names and texts of `sources`, in order.
pub open spec fn pairs(sources: Seq<Source>) -> Seq<(Seq<char>, Seq<char>)> {
    Seq::new(sources.len(), |i: int| (sources[i].name@, sources[i].text@))
}

/// The templates of the library: each name with its text, in the order in
/// which they are loaded.
pub open spec fn stock() -> Seq<(Seq<char>, Seq<char>)> {
    seq![
        ("layout.ld"@, LAYOUT_LD@),
        ("new/src-cortexm/bin.rs"@, NEW_SRC_CORTEXM_BIN_RS@),
        ("new/src-cortexm/lib.rs"@, NEW_SRC_CORTEXM_LIB_RS@),
        ("new/src-cortexm/thr.rs"@, NEW_SRC_CORTEXM_THR_RS@),
        ("new/src-cortexm/tasks/mod.rs"@, NEW_SRC_CORTEXM_TASKS_MOD_RS@),
        ("new/src-cortexm/tasks/root.rs"@, NEW_SRC_CORTEXM_TASKS_ROOT_RS@),
        ("new/Cargo.toml"@, NEW_CARGO_TOML@),
        ("new/Drone.toml"@, NEW_DRONE_TOML@),
        ("new/Justfile"@, NEW_JUSTFILE@),
        ("new/rust-toolchain"@, NEW_RUST_TOOLCHAIN@),
        ("new/_cargo/config"@, NEW_CARGO_CONFIG@),
        ("new/_gitignore"@, NEW_GITIGNORE@),
        ("bmp/target.gdb"@, BMP_TARGET_GDB@),
        ("bmp/target/cortexm.gdb"@, BMP_TARGET_CORTEXM_GDB@),
        ("bmp/target/stm32.gdb"@, BMP_TARGET_STM32_GDB@),
        ("bmp/reset.gdb"@, BMP_RESET_GDB@),
        ("bmp/flash.gdb"@, BMP_FLASH_GDB@),
        ("bmp/gdb.gdb"@, BMP_GDB_GDB@),
        ("bmp/swo.gdb"@, BMP_SWO_GDB@),
        ("jlink/reset.jlink"@, JLINK_RESET_JLINK@),
        ("jlink/flash.jlink"@, JLINK_FLASH_JLINK@),
        ("jlink/gdb.gdb"@, JLINK_GDB_GDB@),
        ("jlink/dso.gdb"@, JLINK_DSO_GDB@),
        ("openocd/reset.openocd"@, OPENOCD_RESET_OPENOCD@),
        ("openocd/flash.openocd"@, OPENOCD_FLASH_OPENOCD@),
        ("openocd/gdb.gdb"@, OPENOCD_GDB_GDB@),
        ("openocd/gdb.openocd"@, OPENOCD_GDB_OPENOCD@),
        ("openocd/swo.gdb"@, OPENOCD_SWO_GDB@),
    ]
}

/// Returns the templates of the library.
pub fn sources() -> (sources: Vec<Source>)
    ensures
        pairs(sources@) == stock(),
{
    let mut sources: Vec<Source> = Vec::new();
    sources.push(Source { name: "layout.ld", text: LAYOUT_LD });
    sources.push(Source { name: "new/src-cortexm/bin.rs", text: NEW_SRC_CORTEXM_BIN_RS });
    sources.push(Source { name: "new/src-cortexm/lib.rs", text: NEW_SRC_CORTEXM_LIB_RS });
    sources.push(Source { name: "new/src-cortexm/thr.rs", text: NEW_SRC_CORTEXM_THR_RS });
    sources.push(Source { name: "new/src-cortexm/tasks/mod.rs", text: NEW_SRC_CORTEXM_TASKS_MOD_RS });
    sources.push(Source { name: "new/src-cortexm/tasks/root.rs", text: NEW_SRC_CORTEXM_TASKS_ROOT_RS });
    sources.push(Source { name: "new/Cargo.toml", text: NEW_CARGO_TOML });
    sources.push(Source { name: "new/Drone.toml", text: NEW_DRONE_TOML });
    sources.push(Source { name: "new/Justfile", text: NEW_JUSTFILE });
    sources.push(Source { name: "new/rust-toolchain", text: NEW_RUST_TOOLCHAIN });
    sources.push(Source { name: "new/_cargo/config", text: NEW_CARGO_CONFIG });
    sources.push(Source { name: "new/_gitignore", text: NEW_GITIGNORE });
    sources.push(Source { name: "bmp/target.gdb", text: BMP_TARGET_GDB });
    sources.push(Source { name: "bmp/target/cortexm.gdb", text: BMP_TARGET_CORTEXM_GDB });
    sources.push(Source { name: "bmp/target/stm32.gdb", text: BMP_TARGET_STM32_GDB });
    sources.push(Source { name: "bmp/reset.gdb", text: BMP_RESET_GDB });
    sources.push(Source { name: "bmp/flash.gdb", text: BMP_FLASH_GDB });
    sources.push(Source { name: "bmp/gdb.gdb", text: BMP_GDB_GDB });
    sources.push(Source { name: "bmp/swo.gdb", text: BMP_SWO_GDB });
    sources.push(Source { name: "jlink/reset.jlink", text: JLINK_RESET_JLINK });
    sources.push(Source { name: "jlink/flash.jlink", text: JLINK_FLASH_JLINK });
    sources.push(Source { name: "jlink/gdb.gdb", text: JLINK_GDB_GDB });
    sources.push(Source { name: "jlink/dso.gdb", text: JLINK_DSO_GDB });
    sources.push(Source { name: "openocd/reset.openocd", text: OPENOCD_RESET_OPENOCD });
    sources.push(Source { name: "openocd/flash.openocd", text: OPENOCD_FLASH_OPENOCD });
    sources.push(Source { name: "openocd/gdb.gdb", text: OPENOCD_GDB_GDB });
    sources.push(Source { name: "openocd/gdb.openocd", text: OPENOCD_GDB_OPENOCD });
    sources.push(Source { name: "openocd/swo.gdb", text: OPENOCD_SWO_GDB });
    proof {
        assert(pairs(sources@) =~= stock());
    }
    sources
}

} // verus!
