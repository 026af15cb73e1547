use gridviz::grid::{
    draw_unit_sample, random_field, unit_sample, Dispatch, Grid, GridConfigError, GridDim,
    SAMPLE_ONE,
};
use gridviz::pipeline::{
    compute_bind_entries, grid_sampler, render_bind_entries, AddressMode, FilterMode,
};

#[test]
fn dispatch_for_32_by_32_is_two_by_two() {
    let d = GridDim::new(32, 32);
    assert_eq!(d.dispatch_size(), Dispatch { x: 2, y: 2, z: 1 });
}

#[test]
fn dispatch_truncates_partial_groups() {
    let d = GridDim::new(40, 20);
    assert_eq!(d.dispatch_size(), Dispatch { x: 2, y: 1, z: 1 });
    let small = GridDim::new(15, 15);
    assert_eq!(small.dispatch_size(), Dispatch { x: 0, y: 0, z: 1 });
}

#[test]
fn cell_count_of_largest_grid() {
    assert_eq!(GridDim::new(32, 32).cell_count(), 1024);
    assert_eq!(
        GridDim::new(u32::MAX, u32::MAX).cell_count(),
        (u32::MAX as u64) * (u32::MAX as u64)
    );
}

#[test]
fn checked_refuses_zero_sides() {
    assert_eq!(GridDim::checked(0, 16), Err(GridConfigError::ZeroSize));
    assert_eq!(GridDim::checked(16, 0), Err(GridConfigError::ZeroSize));
    assert_eq!(GridDim::checked(0, 0), Err(GridConfigError::ZeroSize));
    assert_eq!(GridDim::checked(16, 48), Ok(GridDim { x: 16, y: 48 }));
}

#[test]
fn samples_lie_in_unit_interval() {
    for _ in 0..1000 {
        assert!(draw_unit_sample() < SAMPLE_ONE);
    }
}

#[test]
fn random_field_has_requested_length() {
    assert_eq!(random_field(0).len(), 0);
    let f = random_field(300);
    assert_eq!(f.len(), 300);
    assert!(f.iter().all(|&k| k < SAMPLE_ONE));
    // Independent draws: a field of 300 samples is not constant.
    assert!(f.iter().any(|&k| k != f[0]));
}

#[test]
fn grid_fields_cover_every_cell() {
    for &(w, h) in &[(16u32, 16u32), (32, 32), (48, 16), (16, 64)] {
        let g = Grid::new_random(w, h).unwrap();
        assert_eq!(g.dims(), GridDim { x: w, y: h });
        assert_eq!(g.u().len(), (w * h) as usize);
        assert_eq!(g.v().len(), (w * h) as usize);
        assert!(g.u().iter().all(|&k| k < SAMPLE_ONE));
        assert!(g.v().iter().all(|&k| k < SAMPLE_ONE));
    }
}

#[test]
fn grid_fields_are_drawn_independently() {
    let g = Grid::new_random(32, 32).unwrap();
    assert_ne!(g.u(), g.v());
}

#[test]
fn field_lookup_is_row_major() {
    let g = Grid::new_random(32, 16).unwrap();
    assert_eq!(g.u_at(0, 0), g.u()[0]);
    assert_eq!(g.u_at(5, 3), g.u()[3 * 32 + 5]);
    assert_eq!(g.v_at(31, 15), g.v()[15 * 32 + 31]);
    assert_eq!(g.v_at(1, 0), g.v()[1]);
}

#[test]
fn zero_sided_grid_is_refused() {
    assert_eq!(Grid::new_random(0, 16).unwrap_err(), GridConfigError::ZeroSize);
    assert_eq!(Grid::new_random(16, 0).unwrap_err(), GridConfigError::ZeroSize);
    assert_eq!(Grid::new_random(0, 0).unwrap_err(), GridConfigError::ZeroSize);
}

#[test]
fn sample_is_top_24_bits_of_word() {
    assert_eq!(unit_sample(0), 0);
    assert_eq!(unit_sample(0xFF), 0);
    assert_eq!(unit_sample(0x100), 1);
    assert_eq!(unit_sample(0x1234_5678), 0x0012_3456);
    assert_eq!(unit_sample(u32::MAX), SAMPLE_ONE - 1);
}

#[test]
fn grid_holds_its_binding_sets_and_sampler() {
    let g = Grid::new_random(16, 16).unwrap();
    assert_eq!(*g.render_set(), render_bind_entries());
    assert_eq!(*g.compute_set(), compute_bind_entries());
    assert_eq!(g.sampler(), grid_sampler());
    assert_eq!(g.sampler().address_mode, AddressMode::ClampToEdge);
    assert_eq!(g.sampler().filter, FilterMode::Nearest);
}
