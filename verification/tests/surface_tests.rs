use bismuth::surface::{
    create_depth_texture, select_surface_format, surface_error_action, RecoveryAction,
    SurfaceConfig, SurfaceError, SurfaceFormat,
};

fn fmt(id: u32, srgb: bool) -> SurfaceFormat {
    SurfaceFormat { id, srgb }
}

#[test]
fn picks_first_srgb_format() {
    let formats = vec![fmt(7, false), fmt(3, true), fmt(9, true)];
    assert_eq!(select_surface_format(&formats), fmt(3, true));
}

#[test]
fn falls_back_to_first_format_without_srgb() {
    let formats = vec![fmt(7, false), fmt(8, false)];
    assert_eq!(select_surface_format(&formats), fmt(7, false));
}

#[test]
fn single_srgb_format_is_picked() {
    let formats = vec![fmt(1, true)];
    assert_eq!(select_surface_format(&formats), fmt(1, true));
}

#[test]
fn lost_surface_reconfigures() {
    assert_eq!(
        surface_error_action(&SurfaceError::Lost),
        RecoveryAction::ReconfigureSurface
    );
}

#[test]
fn outdated_surface_reconfigures() {
    assert_eq!(
        surface_error_action(&SurfaceError::Outdated),
        RecoveryAction::ReconfigureSurface
    );
}

#[test]
fn out_of_memory_exits() {
    assert_eq!(
        surface_error_action(&SurfaceError::OutOfMemory),
        RecoveryAction::Exit
    );
}

#[test]
fn timeout_skips_the_frame() {
    assert_eq!(
        surface_error_action(&SurfaceError::Timeout),
        RecoveryAction::SkipFrame
    );
}

#[test]
fn depth_texture_matches_surface_config() {
    let config = SurfaceConfig {
        format: fmt(1, true),
        width: 800,
        height: 600,
        present_mode: 0,
        alpha_mode: 0,
    };
    let depth = create_depth_texture(&config);
    assert_eq!(depth.width, 800);
    assert_eq!(depth.height, 600);
}
