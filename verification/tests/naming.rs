use drone::crates::{Bindings, Dso, Platform};
use drone::probe::{Log, Probe};

#[test]
fn platform_spellings() {
    assert_eq!(Platform::CortexM.kebab_name(), "cortex-m");
    assert_eq!(Platform::CortexM.underscore_name(), "cortex_m");
    assert_eq!(Platform::CortexM.flag_name(), "cortexm_core");
}

#[test]
fn bindings_spellings() {
    assert_eq!(Bindings::Nrf.kebab_name(), "nrf");
    assert_eq!(Bindings::Nrf.underscore_name(), "nrf");
    assert_eq!(Bindings::Nrf.flag_name(), "nrf_mcu");
    assert_eq!(Bindings::Stm32.kebab_name(), "stm32");
    assert_eq!(Bindings::Stm32.underscore_name(), "stm32");
    assert_eq!(Bindings::Stm32.flag_name(), "stm32_mcu");
}

#[test]
fn dso_spellings() {
    assert_eq!(Dso::Nrf91.kebab_name(), "nrf91");
    assert_eq!(Dso::Nrf91.underscore_name(), "nrf91");
}

#[test]
fn every_family_has_both_spellings_and_they_differ_only_in_the_joiner() {
    let platforms = [Platform::CortexM];
    for family in platforms {
        assert!(!family.kebab_name().contains('_'));
        assert!(!family.underscore_name().contains('-'));
        assert_eq!(family.kebab_name().replace('-', "_"), family.underscore_name());
    }
    let bindings = [Bindings::Nrf, Bindings::Stm32];
    for family in bindings {
        assert!(!family.kebab_name().contains('_'));
        assert!(!family.underscore_name().contains('-'));
        assert_eq!(family.kebab_name().replace('-', "_"), family.underscore_name());
    }
    assert_eq!(Dso::Nrf91.kebab_name().replace('-', "_"), Dso::Nrf91.underscore_name());
}

#[test]
fn every_family_round_trips_through_either_spelling() {
    assert_eq!(Platform::from_name(Platform::CortexM.kebab_name()), Some(Platform::CortexM));
    assert_eq!(Platform::from_name(Platform::CortexM.underscore_name()), Some(Platform::CortexM));
    for family in [Bindings::Nrf, Bindings::Stm32] {
        assert_eq!(Bindings::from_name(family.kebab_name()), Some(family));
        assert_eq!(Bindings::from_name(family.underscore_name()), Some(family));
    }
    assert_eq!(Dso::from_name(Dso::Nrf91.kebab_name()), Some(Dso::Nrf91));
    assert_eq!(Dso::from_name(Dso::Nrf91.underscore_name()), Some(Dso::Nrf91));
}

#[test]
fn unknown_names_spell_no_family() {
    assert_eq!(Platform::from_name("cortexm"), None);
    assert_eq!(Platform::from_name("cortex-M"), None);
    assert_eq!(Platform::from_name(""), None);
    assert_eq!(Bindings::from_name("stm"), None);
    assert_eq!(Bindings::from_name("nrf91"), None);
    assert_eq!(Dso::from_name("nrf"), None);
}

#[test]
fn probe_identifiers() {
    assert_eq!(Probe::Bmp.ident(), "bmp");
    assert_eq!(Probe::Jlink.ident(), "jlink");
    assert_eq!(Probe::Openocd.ident(), "openocd");
    for probe in [Probe::Bmp, Probe::Jlink, Probe::Openocd] {
        assert_eq!(Probe::from_ident(probe.ident()), Some(probe));
    }
    assert_eq!(Probe::from_ident("stlink"), None);
    assert_eq!(Probe::from_ident("BMP"), None);
}

#[test]
fn log_identifiers() {
    assert_eq!(Log::SwoProbe.ident(), "swoprobe");
    assert_eq!(Log::SwoSerial.ident(), "swoserial");
    assert_eq!(Log::DsoSerial.ident(), "dsoserial");
    for log in [Log::SwoProbe, Log::SwoSerial, Log::DsoSerial] {
        assert_eq!(Log::from_ident(log.ident()), Some(log));
    }
    assert_eq!(Log::from_ident("swo"), None);
    assert_eq!(Log::from_ident(""), None);
}

#[test]
fn identifiers_are_not_family_names() {
    assert_eq!(Bindings::from_name(Probe::Bmp.ident()), None);
    assert_eq!(Platform::from_name(Log::SwoProbe.ident()), None);
}

#[test]
fn dso_registers_are_listed_in_order() {
    let regs = Dso::Nrf91.used_regs();
    assert_eq!(regs.len(), 50);
    assert_eq!(regs[0], "uarte0_ns_tasks_startrx");
    assert_eq!(regs[49], "uarte0_ns_config");
    assert!(regs.iter().all(|reg| reg.starts_with("uarte0_ns_")));
}
