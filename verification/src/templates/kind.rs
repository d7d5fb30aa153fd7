//! The kinds of artifacts.
//!
//! Each kind has a template of its own and a fixed shape: it is either text
//! that the caller reads, or a script that is handed to another program as a
//! temporary file.

use vstd::prelude::*;
use crate::templates::sources::stock;

verus! {

/// How an artifact reaches its consumer.
#[derive(Clone, Copy, Debug, PartialEq, Eq, Structural)]
pub enum Shape {
    /// As text in memory.
    Text,
    /// As a temporary file, which the caller makes from the text and owns.
    File,
}

/// The artifacts that the library renders.
#[derive(Clone, Copy, Debug, PartialEq, Eq, Structural)]
pub enum ArtifactKind {
    /// The linker script.
    LayoutLd,
    /// `src/bin.rs` of a new project.
    SrcBinRs,
    /// `src/lib.rs` of a new project.
    SrcLibRs,
    /// `src/thr.rs` of a new project.
    SrcThrRs,
    /// `src/tasks/mod.rs` of a new project.
    SrcTasksModRs,
    /// `src/tasks/root.rs` of a new project.
    SrcTasksRootRs,
    /// `Cargo.toml` of a new project.
    CargoToml,
    /// `Drone.toml` of a new project.
    DroneToml,
    /// `Justfile` of a new project.
    Justfile,
    /// `rust-toolchain` of a new project.
    RustToolchain,
    /// `.cargo/config` of a new project.
    CargoConfig,
    /// `.gitignore` of a new project.
    Gitignore,
    /// The Black Magic Probe script that resets the target.
    BmpReset,
    /// The Black Magic Probe script that writes the firmware.
    BmpFlash,
    /// The Black Magic Probe script that opens a debugging session.
    BmpGdb,
    /// The Black Magic Probe script that captures the SWO log.
    BmpSwo,
    /// The J-Link script that resets the target.
    JlinkReset,
    /// The J-Link script that writes the firmware.
    JlinkFlash,
    /// The J-Link script that opens a debugging session.
    JlinkGdb,
    /// The J-Link script that captures the Drone Serial Output log.
    JlinkDso,
    /// The OpenOCD commands that reset the target.
    OpenocdReset,
    /// The OpenOCD commands that write the firmware.
    OpenocdFlash,
    /// The GDB script of an OpenOCD debugging session.
    OpenocdGdbGdb,
    /// The OpenOCD commands of a debugging session.
    OpenocdGdbOpenocd,
    /// The OpenOCD script that captures the SWO log.
    OpenocdSwo,
}

/// The templates that loading `sources` one after another leaves: each name
/// with the text that was loaded under it last.
pub open spec fn held(sources: Seq<(Seq<char>, Seq<char>)>) -> Map<Seq<char>, Seq<char>>
    decreases sources.len(),
{
    if sources.len() == 0 {
        Map::empty()
    } else {
        held(sources.drop_last()).insert(sources.last().0, sources.last().1)
    }
}

/// Each name of `sources` is held.
pub proof fn lemma_held_name(sources: Seq<(Seq<char>, Seq<char>)>, i: int)
    requires
        0 <= i < sources.len(),
    ensures
        held(sources).dom().contains(sources[i].0),
    decreases sources.len(),
{
    if i < sources.len() - 1 {
        lemma_held_name(sources.drop_last(), i);
    }
}

impl ArtifactKind {
    /// The name of the template of the kind.
    pub open spec fn template(self) -> Seq<char> {
        match self {
            ArtifactKind::LayoutLd => "layout.ld"@,
            ArtifactKind::SrcBinRs => "new/src-cortexm/bin.rs"@,
            ArtifactKind::SrcLibRs => "new/src-cortexm/lib.rs"@,
            ArtifactKind::SrcThrRs => "new/src-cortexm/thr.rs"@,
            ArtifactKind::SrcTasksModRs => "new/src-cortexm/tasks/mod.rs"@,
            ArtifactKind::SrcTasksRootRs => "new/src-cortexm/tasks/root.rs"@,
            ArtifactKind::CargoToml => "new/Cargo.toml"@,
            ArtifactKind::DroneToml => "new/Drone.toml"@,
            ArtifactKind::Justfile => "new/Justfile"@,
            ArtifactKind::RustToolchain => "new/rust-toolchain"@,
            ArtifactKind::CargoConfig => "new/_cargo/config"@,
            ArtifactKind::Gitignore => "new/_gitignore"@,
            ArtifactKind::BmpReset => "bmp/reset.gdb"@,
            ArtifactKind::BmpFlash => "bmp/flash.gdb"@,
            ArtifactKind::BmpGdb => "bmp/gdb.gdb"@,
            ArtifactKind::BmpSwo => "bmp/swo.gdb"@,
            ArtifactKind::JlinkReset => "jlink/reset.jlink"@,
            ArtifactKind::JlinkFlash => "jlink/flash.jlink"@,
            ArtifactKind::JlinkGdb => "jlink/gdb.gdb"@,
            ArtifactKind::JlinkDso => "jlink/dso.gdb"@,
            ArtifactKind::OpenocdReset => "openocd/reset.openocd"@,
            ArtifactKind::OpenocdFlash => "openocd/flash.openocd"@,
            ArtifactKind::OpenocdGdbGdb => "openocd/gdb.gdb"@,
            ArtifactKind::OpenocdGdbOpenocd => "openocd/gdb.openocd"@,
            ArtifactKind::OpenocdSwo => "openocd/swo.gdb"@,
        }
    }

    /// The shape of the kind.
    pub open spec fn shaped(self) -> Shape {
        match self {
            ArtifactKind::LayoutLd => Shape::File,
            ArtifactKind::SrcBinRs => Shape::Text,
            ArtifactKind::SrcLibRs => Shape::Text,
            ArtifactKind::SrcThrRs => Shape::Text,
            ArtifactKind::SrcTasksModRs => Shape::Text,
            ArtifactKind::SrcTasksRootRs => Shape::Text,
            ArtifactKind::CargoToml => Shape::Text,
            ArtifactKind::DroneToml => Shape::Text,
            ArtifactKind::Justfile => Shape::Text,
            ArtifactKind::RustToolchain => Shape::Text,
            ArtifactKind::CargoConfig => Shape::Text,
            ArtifactKind::Gitignore => Shape::Text,
            ArtifactKind::BmpReset => Shape::File,
            ArtifactKind::BmpFlash => Shape::File,
            ArtifactKind::BmpGdb => Shape::File,
            ArtifactKind::BmpSwo => Shape::File,
            ArtifactKind::JlinkReset => Shape::File,
            ArtifactKind::JlinkFlash => Shape::File,
            ArtifactKind::JlinkGdb => Shape::File,
            ArtifactKind::JlinkDso => Shape::File,
            ArtifactKind::OpenocdReset => Shape::Text,
            ArtifactKind::OpenocdFlash => Shape::Text,
            ArtifactKind::OpenocdGdbGdb => Shape::File,
            ArtifactKind::OpenocdGdbOpenocd => Shape::Text,
            ArtifactKind::OpenocdSwo => Shape::File,
        }
    }

    /// Returns the name of the template of the kind.
    pub fn template_name(&self) -> (name: &'static str)
        ensures
            name@ == self.template(),
    {
        match self {
            ArtifactKind::LayoutLd => "layout.ld",
            ArtifactKind::SrcBinRs => "new/src-cortexm/bin.rs",
            ArtifactKind::SrcLibRs => "new/src-cortexm/lib.rs",
            ArtifactKind::SrcThrRs => "new/src-cortexm/thr.rs",
            ArtifactKind::SrcTasksModRs => "new/src-cortexm/tasks/mod.rs",
            ArtifactKind::SrcTasksRootRs => "new/src-cortexm/tasks/root.rs",
            ArtifactKind::CargoToml => "new/Cargo.toml",
            ArtifactKind::DroneToml => "new/Drone.toml",
            ArtifactKind::Justfile => "new/Justfile",
            ArtifactKind::RustToolchain => "new/rust-toolchain",
            ArtifactKind::CargoConfig => "new/_cargo/config",
            ArtifactKind::Gitignore => "new/_gitignore",
            ArtifactKind::BmpReset => "bmp/reset.gdb",
            ArtifactKind::BmpFlash => "bmp/flash.gdb",
            ArtifactKind::BmpGdb => "bmp/gdb.gdb",
            ArtifactKind::BmpSwo => "bmp/swo.gdb",
            ArtifactKind::JlinkReset => "jlink/reset.jlink",
            ArtifactKind::JlinkFlash => "jlink/flash.jlink",
            ArtifactKind::JlinkGdb => "jlink/gdb.gdb",
            ArtifactKind::JlinkDso => "jlink/dso.gdb",
            ArtifactKind::OpenocdReset => "openocd/reset.openocd",
            ArtifactKind::OpenocdFlash => "openocd/flash.openocd",
            ArtifactKind::OpenocdGdbGdb => "openocd/gdb.gdb",
            ArtifactKind::OpenocdGdbOpenocd => "openocd/gdb.openocd",
            ArtifactKind::OpenocdSwo => "openocd/swo.gdb",
        }
    }

    /// Returns the shape of the kind.
    pub fn shape(&self) -> (shape: Shape)
        ensures
            shape == self.shaped(),
    {
        match self {
            ArtifactKind::LayoutLd => Shape::File,
            ArtifactKind::SrcBinRs => Shape::Text,
            ArtifactKind::SrcLibRs => Shape::Text,
            ArtifactKind::SrcThrRs => Shape::Text,
            ArtifactKind::SrcTasksModRs => Shape::Text,
            ArtifactKind::SrcTasksRootRs => Shape::Text,
            ArtifactKind::CargoToml => Shape::Text,
            ArtifactKind::DroneToml => Shape::Text,
            ArtifactKind::Justfile => Shape::Text,
            ArtifactKind::RustToolchain => Shape::Text,
            ArtifactKind::CargoConfig => Shape::Text,
            ArtifactKind::Gitignore => Shape::Text,
            ArtifactKind::BmpReset => Shape::File,
            ArtifactKind::BmpFlash => Shape::File,
            ArtifactKind::BmpGdb => Shape::File,
            ArtifactKind::BmpSwo => Shape::File,
            ArtifactKind::JlinkReset => Shape::File,
            ArtifactKind::JlinkFlash => Shape::File,
            ArtifactKind::JlinkGdb => Shape::File,
            ArtifactKind::JlinkDso => Shape::File,
            ArtifactKind::OpenocdReset => Shape::Text,
            ArtifactKind::OpenocdFlash => Shape::Text,
            ArtifactKind::OpenocdGdbGdb => Shape::File,
            ArtifactKind::OpenocdGdbOpenocd => Shape::Text,
            ArtifactKind::OpenocdSwo => Shape::File,
        }
    }

    /// The library has a template for every kind.
    pub proof fn lemma_template_is_stock(self)
        ensures
            held(stock()).dom().contains(self.template()),
    {
        match self {
            ArtifactKind::LayoutLd => {
                assert(stock()[0].0 == self.template());
                lemma_held_name(stock(), 0);
            },
            ArtifactKind::SrcBinRs => {
                assert(stock()[1].0 == self.template());
                lemma_held_name(stock(), 1);
            },
            ArtifactKind::SrcLibRs => {
                assert(stock()[2].0 == self.template());
                lemma_held_name(stock(), 2);
            },
            ArtifactKind::SrcThrRs => {
                assert(stock()[3].0 == self.template());
                lemma_held_name(stock(), 3);
            },
            ArtifactKind::SrcTasksModRs => {
                assert(stock()[4].0 == self.template());
                lemma_held_name(stock(), 4);
            },
            ArtifactKind::SrcTasksRootRs => {
                assert(stock()[5].0 == self.template());
                lemma_held_name(stock(), 5);
            },
            ArtifactKind::CargoToml => {
                assert(stock()[6].0 == self.template());
                lemma_held_name(stock(), 6);
            },
            ArtifactKind::DroneToml => {
                assert(stock()[7].0 == self.template());
                lemma_held_name(stock(), 7);
            },
            ArtifactKind::Justfile => {
                assert(stock()[8].0 == self.template());
                lemma_held_name(stock(), 8);
            },
            ArtifactKind::RustToolchain => {
                assert(stock()[9].0 == self.template());
                lemma_held_name(stock(), 9);
            },
            ArtifactKind::CargoConfig => {
                assert(stock()[10].0 == self.template());
                lemma_held_name(stock(), 10);
            },
            ArtifactKind::Gitignore => {
                assert(stock()[11].0 == self.template());
                lemma_held_name(stock(), 11);
            },
            ArtifactKind::BmpReset => {
                assert(stock()[15].0 == self.template());
                lemma_held_name(stock(), 15);
            },
            ArtifactKind::BmpFlash => {
                assert(stock()[16].0 == self.template());
                lemma_held_name(stock(), 16);
            },
            ArtifactKind::BmpGdb => {
                assert(stock()[17].0 == self.template());
                lemma_held_name(stock(), 17);
            },
            ArtifactKind::BmpSwo => {
                assert(stock()[18].0 == self.template());
                lemma_held_name(stock(), 18);
            },
            ArtifactKind::JlinkReset => {
                assert(stock()[19].0 == self.template());
                lemma_held_name(stock(), 19);
            },
            ArtifactKind::JlinkFlash => {
                assert(stock()[20].0 == self.template());
                lemma_held_name(stock(), 20);
            },
            ArtifactKind::JlinkGdb => {
                assert(stock()[21].0 == self.template());
                lemma_held_name(stock(), 21);
            },
            ArtifactKind::JlinkDso => {
                assert(stock()[22].0 == self.template());
                lemma_held_name(stock(), 22);
            },
            ArtifactKind::OpenocdReset => {
                assert(stock()[23].0 == self.template());
                lemma_held_name(stock(), 23);
            },
            ArtifactKind::OpenocdFlash => {
                assert(stock()[24].0 == self.template());
                lemma_held_name(stock(), 24);
            },
            ArtifactKind::OpenocdGdbGdb => {
                assert(stock()[25].0 == self.template());
                lemma_held_name(stock(), 25);
            },
            ArtifactKind::OpenocdGdbOpenocd => {
                assert(stock()[26].0 == self.template());
                lemma_held_name(stock(), 26);
            },
            ArtifactKind::OpenocdSwo => {
                assert(stock()[27].0 == self.template());
                lemma_held_name(stock(), 27);
            },
        }
    }
}

} // verus!
