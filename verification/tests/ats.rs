use bve_ats::ats::PanelSound;
use bve_ats::structure::PanelId;
use bve_ats::structure::SoundControl;
use bve_ats::structure::SoundId;

#[test]
fn panel_sound_writes_reach_the_arrays() {
    let mut panel = [0i32; 256];
    let mut sound = [SoundControl::Continue; 256];
    panel[9] = 41;
    {
        let mut both = PanelSound::new(&mut panel, &mut sound);
        both.set_panel(PanelId(0), -5);
        both.set_panel(PanelId(255), 7);
        both.set_panel(PanelId(0), 12);
        both.set_sound(SoundId(3), SoundControl::Play);
        both.set_sound(SoundId(255), SoundControl::Stop);
    }
    assert_eq!(12, panel[0]);
    assert_eq!(7, panel[255]);
    assert_eq!(41, panel[9]);
    assert_eq!(0, panel[1]);
    assert_eq!(1, sound[3].code());
    assert_eq!(-10000, sound[255].code());
    assert_eq!(2, sound[0].code());
    assert_eq!(2, sound[254].code());
}
