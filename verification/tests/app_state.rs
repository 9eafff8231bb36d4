use northlands::app_state::{check_textures, AppState, LoadState};

#[test]
fn game_starts_in_setup() {
    assert_eq!(AppState::default(), AppState::Setup);
}

#[test]
fn loaded_group_finishes_setup() {
    assert_eq!(check_textures(LoadState::Loaded), Some(AppState::Finished));
}

#[test]
fn any_other_load_state_stays() {
    assert_eq!(check_textures(LoadState::NotLoaded), None);
    assert_eq!(check_textures(LoadState::Loading), None);
    assert_eq!(check_textures(LoadState::Failed), None);
    assert_eq!(check_textures(LoadState::Unloaded), None);
}
