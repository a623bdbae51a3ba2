use paber::globals::{
    classify_global, layer_surface_params, BindAction, GlobalsState, SetupError,
};

#[test]
fn known_interfaces_are_bound_at_required_versions() {
    assert_eq!(
        classify_global(&"wl_compositor".to_owned(), 4),
        BindAction::BindCompositor { version: 4 }
    );
    assert_eq!(
        classify_global(&"zwlr_layer_shell_v1".to_owned(), 2),
        BindAction::BindLayerShell { version: 1 }
    );
    assert_eq!(classify_global(&"wl_shm".to_owned(), 1), BindAction::BindShm { version: 1 });
    assert_eq!(
        classify_global(&"wl_output".to_owned(), 3),
        BindAction::TrackOutput { version: 1 }
    );
}

#[test]
fn a_newer_compositor_is_bound_at_the_required_version() {
    assert_eq!(
        classify_global(&"wl_compositor".to_owned(), 6),
        BindAction::BindCompositor { version: 4 }
    );
}

#[test]
fn a_too_old_compositor_is_ignored() {
    assert_eq!(classify_global(&"wl_compositor".to_owned(), 3), BindAction::Ignore);
}

#[test]
fn unknown_interfaces_are_ignored() {
    assert_eq!(classify_global(&"wl_seat".to_owned(), 7), BindAction::Ignore);
    assert_eq!(classify_global(&"xdg_wm_base".to_owned(), 1), BindAction::Ignore);
    assert_eq!(classify_global(&"".to_owned(), 1), BindAction::Ignore);
}

#[test]
fn negotiation_tracks_what_was_bound() {
    let mut g = GlobalsState::new();
    assert_eq!(g.check_capabilities(), Err(SetupError::NoLayerShell));
    g.apply(BindAction::BindLayerShell { version: 1 });
    assert_eq!(g.check_capabilities(), Err(SetupError::NoCompositor));
    g.apply(BindAction::BindCompositor { version: 4 });
    assert_eq!(g.check_capabilities(), Err(SetupError::NoShm));
    g.apply(BindAction::BindShm { version: 1 });
    assert_eq!(g.check_capabilities(), Ok(()));
}

#[test]
fn outputs_are_counted_and_ignores_change_nothing() {
    let mut g = GlobalsState::new();
    g.apply(BindAction::TrackOutput { version: 1 });
    g.apply(BindAction::Ignore);
    g.apply(BindAction::TrackOutput { version: 1 });
    assert_eq!(g.outputs, 2);
    assert!(!g.compositor && !g.layer_shell && !g.shm);
}

#[test]
fn background_surfaces_anchor_everywhere_and_reserve_nothing() {
    let p = layer_surface_params();
    assert_eq!(p.anchors, 0b1111);
    assert_eq!(p.exclusive_zone, -1);
    assert_eq!(p.namespace, "paber");
}
