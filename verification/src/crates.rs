//! Supported Drone crates.
//!
//! Each family has two spellings of its name: hyphen-joined for package
//! names, underscore-joined for identifiers in code. Both name the same
//! family, and either one leads back to it.

use vstd::prelude::*;
use crate::text::same_text;

verus! {

/// Drone platform crates.
#[allow(missing_docs)]
#[derive(Clone, Copy, Debug, PartialEq, Eq, Structural)]
pub enum Platform {
    CortexM,
}

/// Drone register and interrupt binding crates.
#[allow(missing_docs)]
#[derive(Clone, Copy, Debug, PartialEq, Eq, Structural)]
pub enum Bindings {
    Nrf,
    Stm32,
}

/// Drone Serial Output crates.
#[allow(missing_docs)]
#[derive(Clone, Copy, Debug, PartialEq, Eq, Structural)]
pub enum Dso {
    Nrf91,
}

/// `name` with each hyphen turned into an underscore.
pub open spec fn underscored(name: Seq<char>) -> Seq<char> {
    Seq::new(name.len(), |i: int| if name[i] == '-' { '_' } else { name[i] })
}

impl Platform {
    /// The hyphen-joined spelling.
    pub open spec fn kebab(self) -> Seq<char> {
        match self {
            Platform::CortexM => "cortex-m"@,
        }
    }

    /// The underscore-joined spelling.
    pub open spec fn underscore(self) -> Seq<char> {
        match self {
            Platform::CortexM => "cortex_m"@,
        }
    }

    /// The name of the `cfg` flag that selects the core.
    pub open spec fn flag(self) -> Seq<char> {
        match self {
            Platform::CortexM => "cortexm_core"@,
        }
    }

    /// The family that `name` spells, in either spelling.
    pub open spec fn named(name: Seq<char>) -> Option<Platform> {
        if name == Platform::CortexM.kebab() || name == Platform::CortexM.underscore() {
            Some(Platform::CortexM)
        } else {
            None
        }
    }

    /// Returns the name in kebab-case.
    pub fn kebab_name(&self) -> (name: &'static str)
        ensures
            name@ == self.kebab(),
    {
        match self {
            Platform::CortexM => "cortex-m",
        }
    }

    /// Returns the name in underscore-case.
    pub fn underscore_name(&self) -> (name: &'static str)
        ensures
            name@ == self.underscore(),
    {
        match self {
            Platform::CortexM => "cortex_m",
        }
    }

    /// Returns the name of the `cfg` flag that selects the core.
    pub fn flag_name(&self) -> (name: &'static str)
        ensures
            name@ == self.flag(),
    {
        match self {
            Platform::CortexM => "cortexm_core",
        }
    }

    /// Returns the family that `name` spells, in either spelling.
    pub fn from_name(name: &str) -> (family: Option<Platform>)
        ensures
            family == Platform::named(name@),
    {
        if same_text(name, "cortex-m") || same_text(name, "cortex_m") {
            Some(Platform::CortexM)
        } else {
            None
        }
    }

    /// Both spellings lead back to the family, and they differ only in
    /// the joining character: the kebab spelling holds no underscore, and
    /// the underscore spelling is the kebab spelling with its hyphens
    /// replaced.
    pub proof fn lemma_spellings(self)
        ensures
            Platform::named(self.kebab()) == Some(self),
            Platform::named(self.underscore()) == Some(self),
            !self.kebab().contains('_'),
            !self.underscore().contains('-'),
            self.underscore() == underscored(self.kebab()),
    {
        reveal_strlit("cortex-m");
        reveal_strlit("cortex_m");
        let k = "cortex-m"@;
        let u = "cortex_m"@;
        assert(k.len() == 8 && u.len() == 8);
        assert(k[0] == 'c' && k[1] == 'o' && k[2] == 'r' && k[3] == 't' && k[4] == 'e' && k[5]
            == 'x' && k[6] == '-' && k[7] == 'm');
        assert(u[0] == 'c' && u[1] == 'o' && u[2] == 'r' && u[3] == 't' && u[4] == 'e' && u[5]
            == 'x' && u[6] == '_' && u[7] == 'm');
        assert(u =~= underscored(k));
    }
}

impl Bindings {
    /// The hyphen-joined spelling.
    pub open spec fn kebab(self) -> Seq<char> {
        match self {
            Bindings::Nrf => "nrf"@,
            Bindings::Stm32 => "stm32"@,
        }
    }

    /// The underscore-joined spelling.
    pub open spec fn underscore(self) -> Seq<char> {
        match self {
            Bindings::Nrf => "nrf"@,
            Bindings::Stm32 => "stm32"@,
        }
    }

    /// The name of the `cfg` flag that selects the microcontroller.
    pub open spec fn flag(self) -> Seq<char> {
        match self {
            Bindings::Nrf => "nrf_mcu"@,
            Bindings::Stm32 => "stm32_mcu"@,
        }
    }

    /// The family that `name` spells, in either spelling.
    pub open spec fn named(name: Seq<char>) -> Option<Bindings> {
        if name == Bindings::Nrf.kebab() || name == Bindings::Nrf.underscore() {
            Some(Bindings::Nrf)
        } else if name == Bindings::Stm32.kebab() || name == Bindings::Stm32.underscore() {
            Some(Bindings::Stm32)
        } else {
            None
        }
    }

    /// Returns the name in kebab-case.
    pub fn kebab_name(&self) -> (name: &'static str)
        ensures
            name@ == self.kebab(),
    {
        match self {
            Bindings::Nrf => "nrf",
            Bindings::Stm32 => "stm32",
        }
    }

    /// Returns the name in underscore-case.
    pub fn underscore_name(&self) -> (name: &'static str)
        ensures
            name@ == self.underscore(),
    {
        match self {
            Bindings::Nrf => "nrf",
            Bindings::Stm32 => "stm32",
        }
    }

    /// Returns the name of the `cfg` flag that selects the microcontroller.
    pub fn flag_name(&self) -> (name: &'static str)
        ensures
            name@ == self.flag(),
    {
        match self {
            Bindings::Nrf => "nrf_mcu",
            Bindings::Stm32 => "stm32_mcu",
        }
    }

    /// Returns the family that `name` spells, in either spelling.
    pub fn from_name(name: &str) -> (family: Option<Bindings>)
        ensures
            family == Bindings::named(name@),
    {
        if same_text(name, "nrf") {
            Some(Bindings::Nrf)
        } else if same_text(name, "stm32") {
            Some(Bindings::Stm32)
        } else {
            None
        }
    }

    /// Both spellings lead back to the family, and they differ only in
    /// the joining character.
    pub proof fn lemma_spellings(self)
        ensures
            Bindings::named(self.kebab()) == Some(self),
            Bindings::named(self.underscore()) == Some(self),
            !self.kebab().contains('_'),
            !self.underscore().contains('-'),
            self.underscore() == underscored(self.kebab()),
    {
        reveal_strlit("nrf");
        reveal_strlit("stm32");
        let n = "nrf"@;
        let s = "stm32"@;
        assert(n.len() == 3 && s.len() == 5);
        assert(n[0] == 'n' && n[1] == 'r' && n[2] == 'f');
        assert(s[0] == 's' && s[1] == 't' && s[2] == 'm' && s[3] == '3' && s[4] == '2');
        assert(n =~= underscored(n));
        assert(s =~= underscored(s));
    }
}

impl Dso {
    /// The hyphen-joined spelling.
    pub open spec fn kebab(self) -> Seq<char> {
        match self {
            Dso::Nrf91 => "nrf91"@,
        }
    }

    /// The underscore-joined spelling.
    pub open spec fn underscore(self) -> Seq<char> {
        match self {
            Dso::Nrf91 => "nrf91"@,
        }
    }

    /// The family that `name` spells, in either spelling.
    pub open spec fn named(name: Seq<char>) -> Option<Dso> {
        if name == Dso::Nrf91.kebab() || name == Dso::Nrf91.underscore() {
            Some(Dso::Nrf91)
        } else {
            None
        }
    }

    /// The registers that the transport takes for itself, in the order in
    /// which they are listed.
    pub open spec fn regs(self) -> Seq<Seq<char>> {
        match self {
            Dso::Nrf91 => seq![
                "uarte0_ns_tasks_startrx"@,
                "uarte0_ns_tasks_stoprx"@,
                "uarte0_ns_tasks_starttx"@,
                "uarte0_ns_tasks_stoptx"@,
                "uarte0_ns_tasks_flushrx"@,
                "uarte0_ns_subscribe_startrx"@,
                "uarte0_ns_subscribe_stoprx"@,
                "uarte0_ns_subscribe_starttx"@,
                "uarte0_ns_subscribe_stoptx"@,
                "uarte0_ns_subscribe_flushrx"@,
                "uarte0_ns_events_cts"@,
                "uarte0_ns_events_ncts"@,
                "uarte0_ns_events_rxdrdy"@,
                "uarte0_ns_events_endrx"@,
                "uarte0_ns_events_txdrdy"@,
                "uarte0_ns_events_endtx"@,
                "uarte0_ns_events_error"@,
                "uarte0_ns_events_rxto"@,
                "uarte0_ns_events_rxstarted"@,
                "uarte0_ns_events_txstarted"@,
                "uarte0_ns_events_txstopped"@,
                "uarte0_ns_publish_cts"@,
                "uarte0_ns_publish_ncts"@,
                "uarte0_ns_publish_rxdrdy"@,
                "uarte0_ns_publish_endrx"@,
                "uarte0_ns_publish_txdrdy"@,
                "uarte0_ns_publish_endtx"@,
                "uarte0_ns_publish_error"@,
                "uarte0_ns_publish_rxto"@,
                "uarte0_ns_publish_rxstarted"@,
                "uarte0_ns_publish_txstarted"@,
                "uarte0_ns_publish_txstopped"@,
                "uarte0_ns_shorts"@,
                "uarte0_ns_inten"@,
                "uarte0_ns_intenset"@,
                "uarte0_ns_intenclr"@,
                "uarte0_ns_errorsrc"@,
                "uarte0_ns_enable"@,
                "uarte0_ns_psel_rts"@,
                "uarte0_ns_psel_txd"@,
                "uarte0_ns_psel_cts"@,
                "uarte0_ns_psel_rxd"@,
                "uarte0_ns_baudrate"@,
                "uarte0_ns_rxd_ptr"@,
                "uarte0_ns_rxd_maxcnt"@,
                "uarte0_ns_rxd_amount"@,
                "uarte0_ns_txd_ptr"@,
                "uarte0_ns_txd_maxcnt"@,
                "uarte0_ns_txd_amount"@,
                "uarte0_ns_config"@,
            ],
        }
    }

    /// Returns the name in kebab-case.
    pub fn kebab_name(&self) -> (name: &'static str)
        ensures
            name@ == self.kebab(),
    {
        match self {
            Dso::Nrf91 => "nrf91",
        }
    }

    /// Returns the name in underscore-case.
    pub fn underscore_name(&self) -> (name: &'static str)
        ensures
            name@ == self.underscore(),
    {
        match self {
            Dso::Nrf91 => "nrf91",
        }
    }

    /// Returns the family that `name` spells, in either spelling.
    pub fn from_name(name: &str) -> (family: Option<Dso>)
        ensures
            family == Dso::named(name@),
    {
        if same_text(name, "nrf91") {
            Some(Dso::Nrf91)
        } else {
            None
        }
    }

    /// Returns the registers that the transport takes for itself.
    pub fn used_regs(&self) -> (regs: &'static [&'static str])
        ensures
            crate::text::literals(regs@) == self.regs(),
    {
        match self {
            Dso::Nrf91 => {
                let regs: &'static [&'static str] = &[
                    "uarte0_ns_tasks_startrx",
                    "uarte0_ns_tasks_stoprx",
                    "uarte0_ns_tasks_starttx",
                    "uarte0_ns_tasks_stoptx",
                    "uarte0_ns_tasks_flushrx",
                    "uarte0_ns_subscribe_startrx",
                    "uarte0_ns_subscribe_stoprx",
                    "uarte0_ns_subscribe_starttx",
                    "uarte0_ns_subscribe_stoptx",
                    "uarte0_ns_subscribe_flushrx",
                    "uarte0_ns_events_cts",
                    "uarte0_ns_events_ncts",
                    "uarte0_ns_events_rxdrdy",
                    "uarte0_ns_events_endrx",
                    "uarte0_ns_events_txdrdy",
                    "uarte0_ns_events_endtx",
                    "uarte0_ns_events_error",
                    "uarte0_ns_events_rxto",
                    "uarte0_ns_events_rxstarted",
                    "uarte0_ns_events_txstarted",
                    "uarte0_ns_events_txstopped",
                    "uarte0_ns_publish_cts",
                    "uarte0_ns_publish_ncts",
                    "uarte0_ns_publish_rxdrdy",
                    "uarte0_ns_publish_endrx",
                    "uarte0_ns_publish_txdrdy",
                    "uarte0_ns_publish_endtx",
                    "uarte0_ns_publish_error",
                    "uarte0_ns_publish_rxto",
                    "uarte0_ns_publish_rxstarted",
                    "uarte0_ns_publish_txstarted",
                    "uarte0_ns_publish_txstopped",
                    "uarte0_ns_shorts",
                    "uarte0_ns_inten",
                    "uarte0_ns_intenset",
                    "uarte0_ns_intenclr",
                    "uarte0_ns_errorsrc",
                    "uarte0_ns_enable",
                    "uarte0_ns_psel_rts",
                    "uarte0_ns_psel_txd",
                    "uarte0_ns_psel_cts",
                    "uarte0_ns_psel_rxd",
                    "uarte0_ns_baudrate",
                    "uarte0_ns_rxd_ptr",
                    "uarte0_ns_rxd_maxcnt",
                    "uarte0_ns_rxd_amount",
                    "uarte0_ns_txd_ptr",
                    "uarte0_ns_txd_maxcnt",
                    "uarte0_ns_txd_amount",
                    "uarte0_ns_config",
                ];
                proof {
                    assert(crate::text::literals(regs@) =~= self.regs());
                }
                regs
            },
        }
    }

    /// Both spellings lead back to the family, and they differ only in
    /// the joining character.
    pub proof fn lemma_spellings(self)
        ensures
            Dso::named(self.kebab()) == Some(self),
            Dso::named(self.underscore()) == Some(self),
            !self.kebab().contains('_'),
            !self.underscore().contains('-'),
            self.underscore() == underscored(self.kebab()),
    {
        reveal_strlit("nrf91");
        let n = "nrf91"@;
        assert(n.len() == 5);
        assert(n[0] == 'n' && n[1] == 'r' && n[2] == 'f' && n[3] == '9' && n[4] == '1');
        assert(n =~= underscored(n));
    }
}

} // verus!
