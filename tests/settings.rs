use mahjong_ffi::ffi::error::MahjongFFIError;
use mahjong_ffi::ffi::gamesettings::{is_nul_free, CGameSettings};
use mahjong_ffi::ffi::player_controller::boundary_name;
use mahjong_ffi::settings::GameSettings;

fn seats(names: [&str; 4]) -> GameSettings {
    GameSettings { seed: 7, seat_controllers: names.map(|s| s.to_string()) }
}

#[test]
fn settings_cross_when_names_hold_no_nul() {
    let c = CGameSettings::try_from_settings(seats(["A", "B", "C", "D"])).unwrap();
    assert_eq!(c.seed, 7);
    assert_eq!(c.num_controllers, 4);
    assert_eq!(c.seat_controllers[2], "C");
}

#[test]
fn a_nul_in_any_name_fails_the_conversion() {
    for i in 0..4 {
        let mut names = ["A", "B", "C", "D"];
        names[i] = "Bad\0Bot";
        assert_eq!(
            CGameSettings::try_from_settings(seats(names)).unwrap_err(),
            MahjongFFIError::FailedToCreateCString
        );
    }
}

#[test]
fn nul_detection() {
    assert!(is_nul_free(""));
    assert!(is_nul_free("AlphabeticalBot"));
    assert!(is_nul_free("風"));
    assert!(!is_nul_free("\0"));
    assert!(!is_nul_free("ab\0"));
}

#[test]
fn boundary_names() {
    assert_eq!(boundary_name("AngryDiscardoBot".to_string()), "AngryDiscardoBot");
    assert_eq!(boundary_name("Angry\0Bot".to_string()), "");
}
