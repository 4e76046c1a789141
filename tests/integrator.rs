use rust_raytracer::integrator::{PathState, Step, MAX_DEPTH};

#[test]
fn new_walk_starts_at_depth_zero() {
    assert_eq!(PathState::new().depth, 0);
    assert_eq!(PathState::at_depth(7).depth, 7);
}

#[test]
fn miss_ends_with_sky() {
    assert_eq!(PathState::new().after_query(false), Step::Sky);
    assert_eq!(PathState::at_depth(MAX_DEPTH).after_query(false), Step::Sky);
    assert_eq!(PathState::at_depth(u32::MAX).after_query(false), Step::Sky);
}

#[test]
fn hit_below_bound_scatters() {
    assert_eq!(PathState::new().after_query(true), Step::Scatter);
    assert_eq!(PathState::at_depth(MAX_DEPTH - 1).after_query(true), Step::Scatter);
}

#[test]
fn hit_at_bound_ends_black() {
    assert_eq!(MAX_DEPTH, 50);
    assert_eq!(PathState::at_depth(50).after_query(true), Step::Black);
    assert_eq!(PathState::at_depth(51).after_query(true), Step::Black);
    assert_eq!(PathState::at_depth(u32::MAX).after_query(true), Step::Black);
}

#[test]
fn scatter_goes_one_level_deeper() {
    assert_eq!(PathState::new().after_scatter(true), Some(PathState::at_depth(1)));
    assert_eq!(PathState::at_depth(49).after_scatter(true), Some(PathState::at_depth(50)));
}

#[test]
fn absorption_ends_black() {
    assert_eq!(PathState::new().after_scatter(false), None);
    assert_eq!(PathState::at_depth(MAX_DEPTH).after_scatter(true), None);
}

#[test]
fn walk_between_mirrors_is_cut_off_after_max_depth_bounces() {
    // A scene that is hit on every query and always scatters.
    let mut state = PathState::new();
    let mut queries: u32 = 0;
    let mut bounces: u32 = 0;
    let end = loop {
        queries += 1;
        match state.after_query(true) {
            Step::Scatter => match state.after_scatter(true) {
                Some(next) => {
                    bounces += 1;
                    state = next;
                }
                None => break Step::Black,
            },
            other => break other,
        }
    };
    assert_eq!(end, Step::Black);
    assert_eq!(bounces, 50);
    assert_eq!(queries, 51);
}
