//! Templates registry.

pub mod context;
pub mod data;
pub mod engine;
pub mod error;
pub mod kind;
pub mod sources;

use vstd::prelude::*;
use vstd::string::*;
use std::collections::BTreeSet;
use drone_config::Config;
use handlebars::Handlebars;
use serde_json::Value;
use crate::devices::Device;
use crate::notes::{body, lift, names};
use crate::probe::{Log, Probe};
use crate::templates::data::{
    capture_fields, cargo_toml_fields, config_fields, drone_toml_fields, drone_toml_lack,
    firmware_fields, gdb_fields, justfile_fields, layout_ld_fields, openocd_swo_fields,
    rust_toolchain_fields, src_bin_rs_fields, src_lib_rs_fields, src_lib_rs_lack,
    src_thr_rs_fields,
};
use crate::templates::context::{encoded, first_reserved, Field, FieldView, RenderContext};
use crate::templates::engine::{
    config_json, config_value, engine_new, engine_output, engine_register, engine_render,
    engine_set_strict, flag_value, loaded, null_value, number_value, numbers_value, object_data,
    object_new, object_put, strict, text_value, texts_value,
};
use crate::templates::error::{Cause, CauseView, LoadError, RenderError, RenderErrorView};
use crate::templates::kind::{held, ArtifactKind};
use crate::templates::sources::{pairs, sources, stock};
use crate::usage::UsageTrace;

verus! {

/// Templates registry.
///
/// It holds the engine with every template of the library loaded, and the
/// usage trace of the last render.
pub struct Registry {
    engine: Handlebars<'static>,
    usage: UsageTrace,
}

/// What becomes of the attempt to load the template `name`, given what the
/// engine answered: a template that it took is loaded, and one that it did
/// not take is told in the error, with what the engine objects to.
pub fn load_outcome(name: &str, done: Result<(), String>) -> (out: Result<(), LoadError>)
    ensures
        match done {
            Ok(_) => out is Ok,
            Err(message) => out matches Err(error) && error.template@ == name@ && error.message@
                == message@,
        },
{
    match done {
        Ok(_) => Ok(()),
        Err(message) => Err(LoadError { template: String::from_str(name), message }),
    }
}

/// What `serde_json` objects to in the first configuration among `entries`
/// that it does not take, if there is one.
pub open spec fn refused(entries: Seq<(Seq<char>, FieldView)>) -> Option<Seq<char>>
    decreases entries.len(),
{
    if entries.len() == 0 {
        None
    } else {
        match refused(entries.drop_last()) {
            Some(message) => Some(message),
            None => match entries.last().1 {
                FieldView::Config(config) => match config_json(config) {
                    Ok(_) => None,
                    Err(message) => Some(message),
                },
                _ => None,
            },
        }
    }
}

/// What the engine makes of an artifact and its fields: the text that it
/// renders, usage notes and all, or the cause of its failure. Fields whose
/// texts hold a character that is kept for usage notes are not handed to it.
pub open spec fn answer(kind: ArtifactKind, entries: Seq<(Seq<char>, FieldView)>) -> Result<
    Seq<char>,
    CauseView,
> {
    match first_reserved(entries) {
        Some(name) => Err(CauseView::Reserved(name)),
        None => match refused(entries) {
            Some(message) => Err(CauseView::Encoding(message)),
            None => match engine_output(kind.template(), encoded(entries)) {
                Ok(raw) => Ok(raw),
                Err(message) => Err(CauseView::Engine(message)),
            },
        },
    }
}

/// What a render comes to, with the errors taken by what they say.
pub open spec fn outcome(out: Result<String, RenderError>) -> Result<Seq<char>, RenderErrorView> {
    match out {
        Ok(text) => Ok(text@),
        Err(error) => Err(error@),
    }
}

/// Whether `out` and `usage` are what rendering an artifact with `entries`
/// comes to. Where the engine renders a text, the artifact is that text
/// without its usage notes, and the trace holds the names of the notes.
/// Where it fails, the error tells the kind, the device and the cause, and
/// the trace is empty.
pub open spec fn rendered(
    kind: ArtifactKind,
    device: Option<Seq<char>>,
    entries: Seq<(Seq<char>, FieldView)>,
    out: Result<Seq<char>, RenderErrorView>,
    usage: Set<Seq<char>>,
) -> bool {
    match answer(kind, entries) {
        Ok(raw) => out == Ok::<Seq<char>, RenderErrorView>(body(raw)) && usage == names(
            raw,
        ).to_set(),
        Err(cause) => out == Err::<Seq<char>, RenderErrorView>(
            RenderErrorView { kind, device, cause },
        ) && usage == Set::<Seq<char>>::empty(),
    }
}

/// Rendering is a function of the artifact, the device and the fields: two
/// renders of the same come to the same text, the same trace and the same
/// error.
pub proof fn lemma_render_twice(
    kind: ArtifactKind,
    device: Option<Seq<char>>,
    entries: Seq<(Seq<char>, FieldView)>,
    first: Result<Seq<char>, RenderErrorView>,
    first_usage: Set<Seq<char>>,
    second: Result<Seq<char>, RenderErrorView>,
    second_usage: Set<Seq<char>>,
)
    requires
        rendered(kind, device, entries, first, first_usage),
        rendered(kind, device, entries, second, second_usage),
    ensures
        first == second,
        first_usage == second_usage,
{
}

/// The text of a script: an artifact that is handed to another program as a
/// temporary file. The caller makes the file from the text, after the render
/// has succeeded, and owns it.
#[derive(Debug)]
pub struct Script {
    /// What the file is to hold.
    pub text: String,
}

/// What the render of a script comes to, with the errors taken by what they
/// say.
pub open spec fn script_outcome(out: Result<Script, RenderError>) -> Result<
    Seq<char>,
    RenderErrorView,
> {
    match out {
        Ok(script) => Ok(script.text@),
        Err(error) => Err(error@),
    }
}

/// What a path says, where there is one.
pub open spec fn path_text(path: Option<&str>) -> Option<Seq<char>> {
    match path {
        Some(path) => Some(path@),
        None => None,
    }
}

/// Takes a rendered text as the text of a script.
fn script(out: Result<String, RenderError>) -> (made: Result<Script, RenderError>)
    ensures
        script_outcome(made) == outcome(out),
{
    match out {
        Ok(text) => Ok(Script { text }),
        Err(error) => Err(error),
    }
}

/// Turns the fields of `context` into data for the engine.
fn encode(context: &RenderContext) -> (out: Result<serde_json::Map<String, Value>, String>)
    ensures
        match refused(context.entries()) {
            Some(message) => out matches Err(told) && told@ == message,
            None => out matches Ok(object) && object_data(object) == encoded(context.entries()),
        },
{
    let mut object = object_new();
    let mut i: usize = 0;
    proof {
        assert(context.entries().take(0) =~= Seq::<(Seq<char>, FieldView)>::empty());
    }
    loop
        invariant
            i <= context.entries().len(),
            refused(context.entries().take(i as int)) is None,
            object_data(object) == encoded(context.entries().take(i as int)),
        ensures
            i == context.entries().len(),
        decreases context.entries().len() - i,
    {
        let entry = match context.entry(i) {
            Some(entry) => entry,
            None => {
                break ;
            },
        };
        proof {
            assert(context.entries().take(i + 1).drop_last() =~= context.entries().take(i as int));
            assert(context.entries().take(i + 1).last() == context.entries()[i as int]);
        }
        let value = match &entry.field {
            Field::Absent => null_value(),
            Field::Flag(flag) => flag_value(*flag),
            Field::Number(number) => number_value(*number),
            Field::Text(text) => text_value(text.as_str()),
            Field::Texts(items) => texts_value(items),
            Field::Numbers(numbers) => numbers_value(numbers),
            Field::Config(config) => match config_value(config) {
                Ok(value) => value,
                Err(message) => {
                    proof {
                        lemma_refused_stays(context.entries(), i + 1);
                    }
                    return Err(message);
                },
            },
        };
        object_put(&mut object, entry.name, value);
        i = i + 1;
    }
    proof {
        assert(context.entries().take(context.entries().len() as int) =~= context.entries());
    }
    Ok(object)
}

/// A refusal among the first `n` entries is the refusal of them all.
proof fn lemma_refused_stays(entries: Seq<(Seq<char>, FieldView)>, n: int)
    requires
        0 <= n <= entries.len(),
        refused(entries.take(n)) is Some,
    ensures
        refused(entries) == refused(entries.take(n)),
    decreases entries.len() - n,
{
    if n < entries.len() {
        assert(entries.take(n + 1).drop_last() =~= entries.take(n));
        lemma_refused_stays(entries, n + 1);
    } else {
        assert(entries.take(n) =~= entries);
    }
}

impl Registry {
    /// The templates that the registry holds.
    pub closed spec fn templates(&self) -> Map<Seq<char>, Seq<char>> {
        loaded(self.engine)
    }

    /// The usage trace of the last render.
    pub closed spec fn trace(&self) -> Set<Seq<char>> {
        self.usage@
    }

    /// Whether the registry reads its templates strictly: a value that
    /// the data does not hold is an error.
    pub closed spec fn reads_strictly(&self) -> bool {
        strict(self.engine)
    }

    /// Whether the registry is as `new` makes it: it holds the templates
    /// of the library and reads them strictly.
    pub open spec fn wf(&self) -> bool {
        self.templates() == held(stock()) && self.reads_strictly()
    }

    /// Creates a new templates registry.
    ///
    /// The templates of the library are handed to the engine one by one,
    /// in the order of `stock()`, and [`load_outcome`] says what becomes of
    /// each answer: the first template that the engine does not take ends
    /// the attempt. Whether the engine takes a template depends on the
    /// process as well as on the text, so it is not stated when the
    /// registry is made: only what it holds when it is, and that an error
    /// names a template of the library.
    pub fn new() -> (made: Result<Registry, LoadError>)
        ensures
            made matches Ok(registry) ==> registry.wf() && registry.trace()
                == Set::<Seq<char>>::empty(),
            made matches Err(error) ==> exists|i: int|
                0 <= i < stock().len() && error.template@ == (#[trigger] stock()[i]).0,
    {
        let mut engine = engine_new();
        engine_set_strict(&mut engine, true);
        let all = sources();
        let mut i: usize = 0;
        proof {
            assert(stock().take(0) =~= Seq::<(Seq<char>, Seq<char>)>::empty());
        }
        while i < all.len()
            invariant
                i <= all.len(),
                pairs(all@) == stock(),
                strict(engine),
                loaded(engine) == held(stock().take(i as int)),
            decreases all.len() - i,
        {
            let source = all[i];
            proof {
                assert(stock().take(i + 1).drop_last() =~= stock().take(i as int));
                assert(stock().take(i + 1).last() == stock()[i as int]);
                assert(pairs(all@)[i as int] == (source.name@, source.text@));
            }
            let done = engine_register(&mut engine, source.name, source.text);
            match load_outcome(source.name, done) {
                Ok(_) => {},
                Err(error) => {
                    proof {
                        assert(stock()[i as int].0 == source.name@);
                    }
                    return Err(error);
                },
            }
            i = i + 1;
        }
        proof {
            assert(stock().take(all.len() as int) =~= stock());
        }
        Ok(Registry { engine, usage: UsageTrace::new() })
    }

    /// Renders linker script.
    ///
    /// The script is for a temporary file, which the caller makes and owns.
    pub fn layout_ld(&mut self, config: &Config, prelink: bool) -> (out: Result<Script, RenderError>)
        requires
            old(self).wf(),
        ensures
            final(self).wf(),
            rendered(
                ArtifactKind::LayoutLd,
                None,
                layout_ld_fields(*config, prelink),
                script_outcome(out),
                final(self).trace(),
            ),
    {
        let context = data::layout_ld(config, prelink);
        script(self.render(ArtifactKind::LayoutLd, None, &context))
    }

    /// Renders cortexm `src/bin.rs`.
    pub fn new_src_cortexm_bin_rs(&mut self, crate_name: &str) -> (out: Result<String, RenderError>)
        requires
            old(self).wf(),
        ensures
            final(self).wf(),
            rendered(
                ArtifactKind::SrcBinRs,
                None,
                src_bin_rs_fields(crate_name@),
                outcome(out),
                final(self).trace(),
            ),
    {
        let context = data::src_bin_rs(crate_name);
        self.render(ArtifactKind::SrcBinRs, None, &context)
    }

    /// Renders cortexm `src/lib.rs`.
    ///
    /// Where the device does not offer what the choice needs, nothing is
    /// rendered and the error names the field that is missing.
    pub fn new_src_cortexm_lib_rs(&mut self, device: &Device, log: Log) -> (out: Result<String, RenderError>)
        requires
            old(self).wf(),
        ensures
            final(self).wf(),
            match src_lib_rs_lack(device@, log) {
                Some(field) => outcome(out) == Err::<Seq<char>, RenderErrorView>(
                    RenderErrorView {
                        kind: ArtifactKind::SrcLibRs,
                        device: Some(device@.name),
                        cause: CauseView::MissingField(field),
                    },
                ) && final(self).trace() == Set::<Seq<char>>::empty(),
                None => rendered(
                    ArtifactKind::SrcLibRs,
                    Some(device@.name),
                    src_lib_rs_fields(device@, log),
                    outcome(out),
                    final(self).trace(),
                ),
            },
    {
        match data::src_lib_rs_missing(device, log) {
            Some(field) => {
                self.usage.clear();
                return Err(
                    RenderError {
                        kind: ArtifactKind::SrcLibRs,
                        device: Some(device.name),
                        cause: Cause::MissingField(field),
                    },
                );
            },
            None => {},
        }
        let context = data::src_lib_rs(device, log);
        self.render(ArtifactKind::SrcLibRs, Some(device.name), &context)
    }

    /// Renders cortexm `src/thr.rs`.
    pub fn new_src_cortexm_thr_rs(&mut self, device: &Device) -> (out: Result<String, RenderError>)
        requires
            old(self).wf(),
        ensures
            final(self).wf(),
            rendered(
                ArtifactKind::SrcThrRs,
                Some(device@.name),
                src_thr_rs_fields(device@),
                outcome(out),
                final(self).trace(),
            ),
    {
        let context = data::src_thr_rs(device);
        self.render(ArtifactKind::SrcThrRs, Some(device.name), &context)
    }

    /// Renders cortexm `src/tasks/mod.rs`.
    pub fn new_src_cortexm_tasks_mod_rs(&mut self) -> (out: Result<String, RenderError>)
        requires
            old(self).wf(),
        ensures
            final(self).wf(),
            rendered(
                ArtifactKind::SrcTasksModRs,
                None,
                Seq::empty(),
                outcome(out),
                final(self).trace(),
            ),
    {
        let context = RenderContext::new();
        self.render(ArtifactKind::SrcTasksModRs, None, &context)
    }

    /// Renders cortexm `src/tasks/root.rs`.
    pub fn new_src_cortexm_tasks_root_rs(&mut self) -> (out: Result<String, RenderError>)
        requires
            old(self).wf(),
        ensures
            final(self).wf(),
            rendered(
                ArtifactKind::SrcTasksRootRs,
                None,
                Seq::empty(),
                outcome(out),
                final(self).trace(),
            ),
    {
        let context = RenderContext::new();
        self.render(ArtifactKind::SrcTasksRootRs, None, &context)
    }

    /// Renders `Cargo.toml`.
    pub fn new_cargo_toml(&mut self, device: &Device, crate_name: &str) -> (out: Result<String, RenderError>)
        requires
            old(self).wf(),
        ensures
            final(self).wf(),
            rendered(
                ArtifactKind::CargoToml,
                Some(device@.name),
                cargo_toml_fields(device@, crate_name@),
                outcome(out),
                final(self).trace(),
            ),
    {
        let context = data::cargo_toml(device, crate_name);
        self.render(ArtifactKind::CargoToml, Some(device.name), &context)
    }

    /// Renders `Drone.toml`.
    ///
    /// Where the device does not offer what the choice needs, nothing is
    /// rendered and the error names the field that is missing.
    pub fn new_drone_toml(&mut self, device: &Device, flash_size: u32, ram_size: u32, heap: &str, probe: Probe, log: Log) -> (out: Result<String, RenderError>)
        requires
            old(self).wf(),
        ensures
            final(self).wf(),
            match drone_toml_lack(device@, probe, log) {
                Some(field) => outcome(out) == Err::<Seq<char>, RenderErrorView>(
                    RenderErrorView {
                        kind: ArtifactKind::DroneToml,
                        device: Some(device@.name),
                        cause: CauseView::MissingField(field),
                    },
                ) && final(self).trace() == Set::<Seq<char>>::empty(),
                None => rendered(
                    ArtifactKind::DroneToml,
                    Some(device@.name),
                    drone_toml_fields(device@, flash_size, ram_size, heap@, probe, log),
                    outcome(out),
                    final(self).trace(),
                ),
            },
    {
        match data::drone_toml_missing(device, probe, log) {
            Some(field) => {
                self.usage.clear();
                return Err(
                    RenderError {
                        kind: ArtifactKind::DroneToml,
                        device: Some(device.name),
                        cause: Cause::MissingField(field),
                    },
                );
            },
            None => {},
        }
        let context = data::drone_toml(device, flash_size, ram_size, heap, probe, log);
        self.render(ArtifactKind::DroneToml, Some(device.name), &context)
    }

    /// Renders `Justfile`.
    pub fn new_justfile(&mut self, device: &Device) -> (out: Result<String, RenderError>)
        requires
            old(self).wf(),
        ensures
            final(self).wf(),
            rendered(
                ArtifactKind::Justfile,
                Some(device@.name),
                justfile_fields(device@),
                outcome(out),
                final(self).trace(),
            ),
    {
        let context = data::justfile(device);
        self.render(ArtifactKind::Justfile, Some(device.name), &context)
    }

    /// Renders `rust-toolchain`.
    pub fn new_rust_toolchain(&mut self, toolchain: &str) -> (out: Result<String, RenderError>)
        requires
            old(self).wf(),
        ensures
            final(self).wf(),
            rendered(
                ArtifactKind::RustToolchain,
                None,
                rust_toolchain_fields(toolchain@),
                outcome(out),
                final(self).trace(),
            ),
    {
        let context = data::rust_toolchain(toolchain);
        self.render(ArtifactKind::RustToolchain, None, &context)
    }

    /// Renders `.cargo/config`.
    pub fn new_cargo_config(&mut self) -> (out: Result<String, RenderError>)
        requires
            old(self).wf(),
        ensures
            final(self).wf(),
            rendered(
                ArtifactKind::CargoConfig,
                None,
                Seq::empty(),
                outcome(out),
                final(self).trace(),
            ),
    {
        let context = RenderContext::new();
        self.render(ArtifactKind::CargoConfig, None, &context)
    }

    /// Renders `.gitignore`.
    pub fn new_gitignore(&mut self) -> (out: Result<String, RenderError>)
        requires
            old(self).wf(),
        ensures
            final(self).wf(),
            rendered(
                ArtifactKind::Gitignore,
                None,
                Seq::empty(),
                outcome(out),
                final(self).trace(),
            ),
    {
        let context = RenderContext::new();
        self.render(ArtifactKind::Gitignore, None, &context)
    }

    /// Renders BMP `reset` command script.
    ///
    /// The script is for a temporary file, which the caller makes and owns.
    pub fn bmp_reset(&mut self, config: &Config) -> (out: Result<Script, RenderError>)
        requires
            old(self).wf(),
        ensures
            final(self).wf(),
            rendered(
                ArtifactKind::BmpReset,
                None,
                config_fields(*config),
                script_outcome(out),
                final(self).trace(),
            ),
    {
        let context = data::config_only(config);
        script(self.render(ArtifactKind::BmpReset, None, &context))
    }

    /// Renders BMP `flash` command script.
    ///
    /// The script is for a temporary file, which the caller makes and owns.
    pub fn bmp_flash(&mut self, config: &Config) -> (out: Result<Script, RenderError>)
        requires
            old(self).wf(),
        ensures
            final(self).wf(),
            rendered(
                ArtifactKind::BmpFlash,
                None,
                config_fields(*config),
                script_outcome(out),
                final(self).trace(),
            ),
    {
        let context = data::config_only(config);
        script(self.render(ArtifactKind::BmpFlash, None, &context))
    }

    /// Renders BMP `gdb` command script.
    ///
    /// The script is for a temporary file, which the caller makes and owns.
    pub fn bmp_gdb(&mut self, config: &Config, reset: bool, rustc_substitute_path: &str) -> (out: Result<Script, RenderError>)
        requires
            old(self).wf(),
        ensures
            final(self).wf(),
            rendered(
                ArtifactKind::BmpGdb,
                None,
                gdb_fields(*config, reset, rustc_substitute_path@),
                script_outcome(out),
                final(self).trace(),
            ),
    {
        let context = data::gdb(config, reset, rustc_substitute_path);
        script(self.render(ArtifactKind::BmpGdb, None, &context))
    }

    /// Renders BMP `swo` command script.
    ///
    /// The script is for a temporary file, which the caller makes and owns.
    pub fn bmp_swo(&mut self, config: &Config, ports: &BTreeSet<u32>, reset: bool, pipe: &str) -> (out: Result<Script, RenderError>)
        requires
            old(self).wf(),
        ensures
            final(self).wf(),
            rendered(
                ArtifactKind::BmpSwo,
                None,
                capture_fields(*config, ports@, reset, pipe@),
                script_outcome(out),
                final(self).trace(),
            ),
    {
        let context = data::capture(config, ports, reset, pipe);
        script(self.render(ArtifactKind::BmpSwo, None, &context))
    }

    /// Renders J-Link `reset` command script.
    ///
    /// The script is for a temporary file, which the caller makes and owns.
    pub fn jlink_reset(&mut self) -> (out: Result<Script, RenderError>)
        requires
            old(self).wf(),
        ensures
            final(self).wf(),
            rendered(
                ArtifactKind::JlinkReset,
                None,
                Seq::empty(),
                script_outcome(out),
                final(self).trace(),
            ),
    {
        let context = RenderContext::new();
        script(self.render(ArtifactKind::JlinkReset, None, &context))
    }

    /// Renders J-Link `flash` command script.
    ///
    /// The script is for a temporary file, which the caller makes and owns.
    pub fn jlink_flash(&mut self, firmware: &str) -> (out: Result<Script, RenderError>)
        requires
            old(self).wf(),
        ensures
            final(self).wf(),
            rendered(
                ArtifactKind::JlinkFlash,
                None,
                firmware_fields(firmware@),
                script_outcome(out),
                final(self).trace(),
            ),
    {
        let context = data::firmware(firmware);
        script(self.render(ArtifactKind::JlinkFlash, None, &context))
    }

    /// Renders J-Link `gdb` command script.
    ///
    /// The script is for a temporary file, which the caller makes and owns.
    pub fn jlink_gdb(&mut self, config: &Config, reset: bool, rustc_substitute_path: &str) -> (out: Result<Script, RenderError>)
        requires
            old(self).wf(),
        ensures
            final(self).wf(),
            rendered(
                ArtifactKind::JlinkGdb,
                None,
                gdb_fields(*config, reset, rustc_substitute_path@),
                script_outcome(out),
                final(self).trace(),
            ),
    {
        let context = data::gdb(config, reset, rustc_substitute_path);
        script(self.render(ArtifactKind::JlinkGdb, None, &context))
    }

    /// Renders J-Link `dso` command script.
    ///
    /// The script is for a temporary file, which the caller makes and owns.
    pub fn jlink_dso(&mut self, config: &Config, ports: &BTreeSet<u32>, reset: bool, pipe: &str) -> (out: Result<Script, RenderError>)
        requires
            old(self).wf(),
        ensures
            final(self).wf(),
            rendered(
                ArtifactKind::JlinkDso,
                None,
                capture_fields(*config, ports@, reset, pipe@),
                script_outcome(out),
                final(self).trace(),
            ),
    {
        let context = data::capture(config, ports, reset, pipe);
        script(self.render(ArtifactKind::JlinkDso, None, &context))
    }

    /// Renders OpenOCD `reset` command script.
    pub fn openocd_reset(&mut self) -> (out: Result<String, RenderError>)
        requires
            old(self).wf(),
        ensures
            final(self).wf(),
            rendered(
                ArtifactKind::OpenocdReset,
                None,
                Seq::empty(),
                outcome(out),
                final(self).trace(),
            ),
    {
        let context = RenderContext::new();
        self.render(ArtifactKind::OpenocdReset, None, &context)
    }

    /// Renders OpenOCD `flash` command script.
    pub fn openocd_flash(&mut self, firmware: &str) -> (out: Result<String, RenderError>)
        requires
            old(self).wf(),
        ensures
            final(self).wf(),
            rendered(
                ArtifactKind::OpenocdFlash,
                None,
                firmware_fields(firmware@),
                outcome(out),
                final(self).trace(),
            ),
    {
        let context = data::firmware(firmware);
        self.render(ArtifactKind::OpenocdFlash, None, &context)
    }

    /// Renders OpenOCD `gdb` command GDB script.
    ///
    /// The script is for a temporary file, which the caller makes and owns.
    pub fn openocd_gdb_gdb(&mut self, config: &Config, reset: bool, rustc_substitute_path: &str) -> (out: Result<Script, RenderError>)
        requires
            old(self).wf(),
        ensures
            final(self).wf(),
            rendered(
                ArtifactKind::OpenocdGdbGdb,
                None,
                gdb_fields(*config, reset, rustc_substitute_path@),
                script_outcome(out),
                final(self).trace(),
            ),
    {
        let context = data::gdb(config, reset, rustc_substitute_path);
        script(self.render(ArtifactKind::OpenocdGdbGdb, None, &context))
    }

    /// Renders OpenOCD `gdb` command OpenOCD script.
    pub fn openocd_gdb_openocd(&mut self, config: &Config) -> (out: Result<String, RenderError>)
        requires
            old(self).wf(),
        ensures
            final(self).wf(),
            rendered(
                ArtifactKind::OpenocdGdbOpenocd,
                None,
                config_fields(*config),
                outcome(out),
                final(self).trace(),
            ),
    {
        let context = data::config_only(config);
        self.render(ArtifactKind::OpenocdGdbOpenocd, None, &context)
    }

    /// Renders OpenOCD `swo` command script.
    ///
    /// The script is for a temporary file, which the caller makes and owns.
    pub fn openocd_swo(&mut self, config: &Config, ports: &BTreeSet<u32>, reset: bool, pipe: &str, output: Option<&str>) -> (out: Result<Script, RenderError>)
        requires
            old(self).wf(),
        ensures
            final(self).wf(),
            rendered(
                ArtifactKind::OpenocdSwo,
                None,
                openocd_swo_fields(*config, ports@, reset, pipe@, path_text(output)),
                script_outcome(out),
                final(self).trace(),
            ),
    {
        let context = data::openocd_swo(config, ports, reset, pipe, output);
        script(self.render(ArtifactKind::OpenocdSwo, None, &context))
    }

    /// Returns the names of the optional fields that the last render
    /// consumed, each once.
    pub fn usage(&self) -> (names: Vec<String>)
        ensures
            crate::text::texts(names@).to_set() == self.trace(),
            crate::text::texts(names@).no_duplicates(),
    {
        self.usage.snapshot()
    }

    /// Renders the artifact `kind` with `context`.
    ///
    /// The trace is cleared before the render. The usage notes that the
    /// template writes are lifted out of the text and recorded.
    ///
    /// A text or a list of texts that holds U+0001 or U+0002 is refused
    /// before the engine is called: in the rendered text it could not be
    /// told from a note. The texts inside a configuration are not looked
    /// into, so there the caller has to keep the two characters out.
    pub fn render(
        &mut self,
        kind: ArtifactKind,
        device: Option<&'static str>,
        context: &RenderContext,
    ) -> (out: Result<String, RenderError>)
        requires
            old(self).wf(),
        ensures
            final(self).wf(),
            rendered(
                kind,
                match device {
                    Some(name) => Some(name@),
                    None => None,
                },
                context.entries(),
                outcome(out),
                final(self).trace(),
            ),
    {
        self.usage.clear();
        match context.reserved_field() {
            Some(name) => {
                return Err(RenderError { kind, device, cause: Cause::Reserved(name) });
            },
            None => {},
        }
        let object = match encode(context) {
            Ok(object) => object,
            Err(message) => {
                return Err(RenderError { kind, device, cause: Cause::Encoding(message) });
            },
        };
        match engine_render(&self.engine, kind.template_name(), &object) {
            Ok(raw) => {
                let lifted = lift(raw.as_str());
                self.usage.record_all(&lifted.names);
                proof {
                    assert(Set::<Seq<char>>::empty().union(names(raw@).to_set()) =~= names(
                        raw@,
                    ).to_set());
                }
                Ok(lifted.text)
            },
            Err(message) => Err(RenderError { kind, device, cause: Cause::Engine(message) }),
        }
    }
}

} // verus!
