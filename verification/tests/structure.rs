use bve_ats::structure::ConstantSpeed;
use bve_ats::structure::HandleInitialPosition;
use bve_ats::structure::Horn;
use bve_ats::structure::Key;
use bve_ats::structure::NotchCount;
use bve_ats::structure::NotchPosition;
use bve_ats::structure::SoundControl;

#[test]
fn notch_count_full_and_half() {
    assert_eq!(NotchPosition(8), NotchCount(8).full());
    assert_eq!(NotchPosition(4), NotchCount(8).half());
    assert_eq!(NotchPosition(3), NotchCount(7).half());
    assert_eq!(NotchPosition(0), NotchCount(1).half());
    assert_eq!(NotchPosition(0), NotchCount(0).half());
    assert_eq!(NotchPosition(-3), NotchCount(-7).half());
    assert_eq!(NotchPosition(i32::MIN / 2), NotchCount(i32::MIN).half());
}

#[test]
fn notch_positions_are_ordered() {
    assert_eq!(NotchPosition(0), NotchPosition::neutral());
    assert!(NotchPosition::neutral() < NotchCount(5).half());
    assert!(NotchCount(5).half() < NotchCount(5).full());
}

#[test]
fn key_codes() {
    let keys = [
        Key::S, Key::A1, Key::A2, Key::B1, Key::B2, Key::C1, Key::C2, Key::D,
        Key::E, Key::F, Key::G, Key::H, Key::I, Key::J, Key::K, Key::L,
    ];
    let mut expected = 0;
    for key in keys.iter() {
        assert_eq!(expected, key.code());
        expected += 1;
    }
}

#[test]
fn instruction_codes() {
    assert_eq!(2, HandleInitialPosition::HandleRemoved.code());
    assert_eq!(1, HandleInitialPosition::EmergencyBrake.code());
    assert_eq!(0, HandleInitialPosition::ServiceBrake.code());
    assert_eq!(-10000, SoundControl::Stop.code());
    assert_eq!(1, SoundControl::Play.code());
    assert_eq!(0, SoundControl::PlayLooping.code());
    assert_eq!(2, SoundControl::Continue.code());
    assert_eq!(0, Horn::Primary.code());
    assert_eq!(1, Horn::Secondary.code());
    assert_eq!(2, Horn::Music.code());
    assert_eq!(0, ConstantSpeed::Continue.code());
    assert_eq!(1, ConstantSpeed::Enable.code());
    assert_eq!(2, ConstantSpeed::Disable.code());
}
