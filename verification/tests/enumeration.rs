use lumon::display::{DisplayIdentity, DisplayInfo, FEATURE_CODE, PLACEHOLDER_MODEL_NAME};
use lumon::enumerator::{Enumerator, ProbeAction, ProbeEvent};
use lumon::simulation::{SimulatedChannel, SimulatedDisplay};

fn identity(id: &str, model: Option<&str>, maker: Option<&str>) -> DisplayIdentity {
    DisplayIdentity {
        id: id.to_string(),
        model_name: model.map(|text| text.to_string()),
        manufacturer_id: maker.map(|text| text.to_string()),
    }
}

fn display(id: &str, model: Option<&str>, maker: Option<&str>, level: u16) -> SimulatedDisplay {
    SimulatedDisplay {
        identity: identity(id, model, maker),
        refreshes: true,
        readable: true,
        level,
        write_fault: None,
    }
}

fn channel(displays: Vec<SimulatedDisplay>) -> SimulatedChannel {
    SimulatedChannel { fault: None, displays }
}

fn record(id: &str, name: &str, brightness: u16) -> DisplayInfo {
    DisplayInfo { id: id.to_string(), name: name.to_string(), brightness }
}

fn dell() -> SimulatedDisplay {
    display("dell-id", Some("Dell U2720Q"), Some("DEL"), 70)
}

#[test]
fn feature_code_is_brightness() {
    assert_eq!(FEATURE_CODE, 0x10);
    assert_eq!(FEATURE_CODE, 16);
}

#[test]
fn placeholder_is_the_generic_driver_name() {
    assert_eq!(PLACEHOLDER_MODEL_NAME, "Generic PnP Monitor");
}

#[test]
fn complete_identity_is_reportable() {
    assert!(identity("a", Some("Dell U2720Q"), Some("DEL")).is_reportable());
}

#[test]
fn missing_model_name_is_not_reportable() {
    assert!(!identity("a", None, Some("DEL")).is_reportable());
}

#[test]
fn missing_manufacturer_is_not_reportable() {
    assert!(!identity("a", Some("Dell U2720Q"), None).is_reportable());
}

#[test]
fn empty_model_name_is_not_reportable() {
    assert!(!identity("a", Some(""), Some("DEL")).is_reportable());
}

#[test]
fn empty_manufacturer_is_not_reportable() {
    assert!(!identity("a", Some("Dell U2720Q"), Some("")).is_reportable());
}

#[test]
fn placeholder_model_name_is_not_reportable() {
    assert!(!identity("a", Some("Generic PnP Monitor"), Some("DEL")).is_reportable());
}

#[test]
fn placeholder_is_matched_exactly() {
    assert!(identity("a", Some("Generic PnP Monitor "), Some("DEL")).is_reportable());
    assert!(identity("a", Some("generic pnp monitor"), Some("DEL")).is_reportable());
    assert!(identity("a", Some("Generic PnP"), Some("DEL")).is_reportable());
}

#[test]
fn empty_key_does_not_matter_for_reporting() {
    assert!(identity("", Some("Dell U2720Q"), Some("DEL")).is_reportable());
}

#[test]
fn duplicate_keeps_every_field() {
    let first = identity("dell-id", Some("Dell U2720Q"), None);
    assert_eq!(first.duplicate(), first);
    let other = identity("x", None, Some("DEL"));
    assert_eq!(other.duplicate(), other);
}

#[test]
fn two_displays_one_generic() {
    let bank = channel(vec![dell(), display("generic-id", Some("Generic PnP Monitor"), None, 30)]);
    assert_eq!(bank.list_displays(), Ok(vec![record("dell-id", "Dell U2720Q", 70)]));
}

#[test]
fn generic_display_with_manufacturer_is_left_out() {
    let bank = channel(vec![
        display("generic-id", Some("Generic PnP Monitor"), Some("DEL"), 30),
        dell(),
    ]);
    assert_eq!(bank.list_displays(), Ok(vec![record("dell-id", "Dell U2720Q", 70)]));
}

#[test]
fn no_displays_gives_an_empty_list() {
    assert_eq!(channel(vec![]).list_displays(), Ok(vec![]));
}

#[test]
fn records_keep_enumeration_order() {
    let bank = channel(vec![
        display("z", Some("Zeta"), Some("ZZZ"), 1),
        display("a", Some("Alpha"), Some("AAA"), 65535),
        display("m", Some("Mid"), Some("MMM"), 0),
    ]);
    assert_eq!(
        bank.list_displays(),
        Ok(vec![record("z", "Zeta", 1), record("a", "Alpha", 65535), record("m", "Mid", 0)])
    );
}

#[test]
fn unusable_identities_never_appear() {
    let unusable = vec![
        display("u1", None, Some("DEL"), 10),
        display("u2", Some("Dell U2720Q"), None, 10),
        display("u3", None, None, 10),
        display("u4", Some(""), Some("DEL"), 10),
        display("u5", Some("Dell U2720Q"), Some(""), 10),
        display("u6", Some("Generic PnP Monitor"), Some("DEL"), 10),
    ];
    for odd in unusable {
        let bank = channel(vec![dell(), odd.clone(), display("b", Some("Beta"), Some("BBB"), 5)]);
        assert_eq!(
            bank.list_displays(),
            Ok(vec![record("dell-id", "Dell U2720Q", 70), record("b", "Beta", 5)])
        );
        let alone = channel(vec![odd]);
        assert_eq!(alone.list_displays(), Ok(vec![]));
    }
}

#[test]
fn listed_displays_have_usable_identities() {
    let bank = channel(vec![
        display("1", Some("One"), Some("ONE"), 1),
        display("2", Some(""), Some("TWO"), 2),
        display("3", Some("Generic PnP Monitor"), Some("GEN"), 3),
        display("4", Some("Four"), Some(""), 4),
        display("5", Some("Five"), Some("FIV"), 5),
    ]);
    let listed = bank.list_displays().unwrap();
    assert_eq!(listed.len(), 2);
    for entry in &listed {
        assert!(!entry.name.is_empty());
        assert_ne!(entry.name, "Generic PnP Monitor");
        let source = bank.displays.iter().find(|d| d.identity.id == entry.id).unwrap();
        assert!(!source.identity.manufacturer_id.clone().unwrap().is_empty());
        assert_eq!(source.identity.model_name.clone().unwrap(), entry.name);
        assert_eq!(source.level, entry.brightness);
    }
}

#[test]
fn failed_refresh_does_not_hide_a_display() {
    let mut stale = dell();
    stale.refreshes = false;
    let bank = channel(vec![stale, display("b", Some("Beta"), Some("BBB"), 5)]);
    assert_eq!(
        bank.list_displays(),
        Ok(vec![record("dell-id", "Dell U2720Q", 70), record("b", "Beta", 5)])
    );
}

#[test]
fn failed_refresh_with_unusable_identity_is_left_out() {
    let mut stale = display("s", None, Some("DEL"), 10);
    stale.refreshes = false;
    assert_eq!(channel(vec![stale]).list_displays(), Ok(vec![]));
}

#[test]
fn failed_read_hides_a_display() {
    let mut mute = dell();
    mute.readable = false;
    let bank = channel(vec![mute.clone(), display("b", Some("Beta"), Some("BBB"), 5)]);
    assert_eq!(bank.list_displays(), Ok(vec![record("b", "Beta", 5)]));
    mute.refreshes = false;
    let bank = channel(vec![display("b", Some("Beta"), Some("BBB"), 5), mute]);
    assert_eq!(bank.list_displays(), Ok(vec![record("b", "Beta", 5)]));
}

#[test]
fn one_failing_display_does_not_fail_the_call() {
    let mut mute = dell();
    mute.readable = false;
    mute.refreshes = false;
    mute.write_fault = Some("bus error".to_string());
    assert_eq!(channel(vec![mute]).list_displays(), Ok(vec![]));
}

#[test]
fn channel_fault_fails_the_enumeration() {
    let bank = SimulatedChannel { fault: Some("no bus".to_string()), displays: vec![dell()] };
    assert_eq!(bank.list_displays(), Err("no bus".to_string()));
}

#[test]
fn enumeration_does_not_change_the_channel() {
    let bank = channel(vec![dell(), display("g", Some("Generic PnP Monitor"), None, 3)]);
    let before = bank.clone();
    let first = bank.list_displays();
    let second = bank.list_displays();
    assert_eq!(bank, before);
    assert_eq!(first, second);
}

#[test]
fn simulated_display_answers() {
    let mut shown = dell();
    assert!(shown.refresh());
    assert_eq!(shown.read_brightness(), Some(70));
    shown.readable = false;
    shown.refreshes = false;
    assert!(!shown.refresh());
    assert_eq!(shown.read_brightness(), None);
}

#[test]
fn machine_reads_brightness_of_a_reportable_display() {
    let machine = Enumerator::new();
    let (machine, action) = machine.step(ProbeEvent::Identified {
        refreshed: true,
        identity: identity("dell-id", Some("Dell U2720Q"), Some("DEL")),
    });
    assert_eq!(action, ProbeAction::ReadFeature(0x10));
    let (machine, action) = machine.step(ProbeEvent::BrightnessRead(70));
    assert_eq!(action, ProbeAction::NextDisplay);
    assert_eq!(machine.finish(), Ok(vec![record("dell-id", "Dell U2720Q", 70)]));
}

#[test]
fn machine_skips_an_unreportable_display() {
    let machine = Enumerator::new();
    let (machine, action) = machine.step(ProbeEvent::Identified {
        refreshed: true,
        identity: identity("g", Some("Generic PnP Monitor"), None),
    });
    assert_eq!(action, ProbeAction::NextDisplay);
    assert_eq!(machine.finish(), Ok(vec![]));
}

#[test]
fn machine_ignores_the_refresh_outcome() {
    for refreshed in [true, false] {
        let (machine, action) = Enumerator::new().step(ProbeEvent::Identified {
            refreshed,
            identity: identity("dell-id", Some("Dell U2720Q"), Some("DEL")),
        });
        assert_eq!(action, ProbeAction::ReadFeature(FEATURE_CODE));
        let (machine, _) = machine.step(ProbeEvent::BrightnessRead(12));
        assert_eq!(machine.finish(), Ok(vec![record("dell-id", "Dell U2720Q", 12)]));
        let (machine, action) = Enumerator::new().step(ProbeEvent::Identified {
            refreshed,
            identity: identity("x", Some(""), Some("DEL")),
        });
        assert_eq!(action, ProbeAction::NextDisplay);
        assert_eq!(machine.finish(), Ok(vec![]));
    }
}

#[test]
fn machine_drops_a_display_whose_read_failed() {
    let (machine, _) = Enumerator::new().step(ProbeEvent::Identified {
        refreshed: true,
        identity: identity("dell-id", Some("Dell U2720Q"), Some("DEL")),
    });
    let (machine, action) = machine.step(ProbeEvent::ReadFailed);
    assert_eq!(action, ProbeAction::NextDisplay);
    let (machine, action) = machine.step(ProbeEvent::BrightnessRead(9));
    assert_eq!(action, ProbeAction::NextDisplay);
    assert_eq!(machine.finish(), Ok(vec![]));
}

#[test]
fn machine_ignores_a_reading_nobody_asked_for() {
    let (machine, action) = Enumerator::new().step(ProbeEvent::BrightnessRead(9));
    assert_eq!(action, ProbeAction::NextDisplay);
    assert_eq!(machine.finish(), Ok(vec![]));
}

#[test]
fn machine_leaves_out_a_display_that_was_never_read() {
    let (machine, _) = Enumerator::new().step(ProbeEvent::Identified {
        refreshed: true,
        identity: identity("a", Some("Alpha"), Some("AAA")),
    });
    let (machine, action) = machine.step(ProbeEvent::Identified {
        refreshed: false,
        identity: identity("b", Some("Beta"), Some("BBB")),
    });
    assert_eq!(action, ProbeAction::ReadFeature(0x10));
    let (machine, _) = machine.step(ProbeEvent::BrightnessRead(44));
    assert_eq!(machine.finish(), Ok(vec![record("b", "Beta", 44)]));
    let (waiting, _) = Enumerator::new().step(ProbeEvent::Identified {
        refreshed: true,
        identity: identity("a", Some("Alpha"), Some("AAA")),
    });
    assert_eq!(waiting.finish(), Ok(vec![]));
}

#[test]
fn machine_fails_when_the_channel_is_unavailable() {
    let (machine, action) = Enumerator::new().step(ProbeEvent::Unavailable("no bus".to_string()));
    assert_eq!(action, ProbeAction::Stop);
    let (machine, action) = machine.step(ProbeEvent::Identified {
        refreshed: true,
        identity: identity("dell-id", Some("Dell U2720Q"), Some("DEL")),
    });
    assert_eq!(action, ProbeAction::Stop);
    let (machine, action) = machine.step(ProbeEvent::BrightnessRead(1));
    assert_eq!(action, ProbeAction::Stop);
    let (machine, action) = machine.step(ProbeEvent::Unavailable("again".to_string()));
    assert_eq!(action, ProbeAction::Stop);
    assert_eq!(machine.finish(), Err("no bus".to_string()));
}

#[test]
fn machine_keeps_the_first_fault_even_after_records() {
    let (machine, _) = Enumerator::new().step(ProbeEvent::Identified {
        refreshed: true,
        identity: identity("a", Some("Alpha"), Some("AAA")),
    });
    let (machine, _) = machine.step(ProbeEvent::BrightnessRead(5));
    let (machine, action) = machine.step(ProbeEvent::Unavailable("lost".to_string()));
    assert_eq!(action, ProbeAction::Stop);
    assert_eq!(machine.finish(), Err("lost".to_string()));
}

#[test]
fn new_machine_has_nothing_to_report() {
    assert_eq!(Enumerator::new().finish(), Ok(vec![]));
}

#[test]
fn machine_and_channel_agree() {
    let mut mute = display("m", Some("Mute"), Some("MUT"), 8);
    mute.readable = false;
    let mut stale = display("s", Some("Stale"), Some("STA"), 9);
    stale.refreshes = false;
    let bank = channel(vec![
        dell(),
        display("g", Some("Generic PnP Monitor"), Some("GEN"), 3),
        mute,
        stale,
        display("n", None, None, 4),
    ]);
    let mut machine = Enumerator::new();
    for shown in &bank.displays {
        let (next, action) = machine.step(ProbeEvent::Identified {
            refreshed: shown.refresh(),
            identity: shown.identity.duplicate(),
        });
        machine = next;
        if let ProbeAction::ReadFeature(code) = action {
            assert_eq!(code, FEATURE_CODE);
            let event = match shown.read_brightness() {
                Some(value) => ProbeEvent::BrightnessRead(value),
                None => ProbeEvent::ReadFailed,
            };
            let (next, _) = machine.step(event);
            machine = next;
        }
    }
    let driven = machine.finish();
    assert_eq!(driven, bank.list_displays());
    assert_eq!(driven, Ok(vec![record("dell-id", "Dell U2720Q", 70), record("s", "Stale", 9)]));
}
