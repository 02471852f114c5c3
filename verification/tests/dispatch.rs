use gpu::dispatch::checked_execution_dims;
use gpu::shader::get_execution_dims;
use gpu::Execution;

#[test]
fn per_pixel_2d_tiles_the_target() {
    assert_eq!(
        get_execution_dims((8, 8, 1), Execution::PerPixel2D, (1280, 720)),
        (160, 90, 1)
    );
}

#[test]
fn per_pixel_1d_flattens_the_target() {
    assert_eq!(
        get_execution_dims((64, 1, 1), Execution::PerPixel1D, (1280, 720)),
        (14400, 1, 1)
    );
}

#[test]
fn n3d_tiles_a_cube() {
    assert_eq!(
        get_execution_dims((4, 4, 4), Execution::N3D(100), (0, 0)),
        (25, 25, 25)
    );
}

#[test]
fn n1d_of_nothing_dispatches_nothing() {
    for workgroup in [(1, 1, 1), (64, 1, 1), (8, 8, 8), (u32::MAX, 3, 7)] {
        assert_eq!(
            get_execution_dims(workgroup, Execution::N1D(0), (1280, 720)),
            (0, 1, 1)
        );
    }
}

#[test]
fn partial_tiles_round_up() {
    assert_eq!(
        get_execution_dims((8, 8, 1), Execution::PerPixel2D, (1281, 721)),
        (161, 91, 1)
    );
    assert_eq!(
        get_execution_dims((64, 1, 1), Execution::N1D(1), (0, 0)),
        (1, 1, 1)
    );
    assert_eq!(
        get_execution_dims((64, 1, 1), Execution::N1D(64), (0, 0)),
        (1, 1, 1)
    );
    assert_eq!(
        get_execution_dims((64, 1, 1), Execution::N1D(65), (0, 0)),
        (2, 1, 1)
    );
    assert_eq!(
        get_execution_dims((3, 5, 7), Execution::N3D(100), (9, 9)),
        (34, 20, 15)
    );
}

#[test]
fn unused_axes_get_one_workgroup() {
    assert_eq!(
        get_execution_dims((16, 16, 16), Execution::PerPixel1D, (4, 4)),
        (1, 1, 1)
    );
    assert_eq!(
        get_execution_dims((16, 16, 16), Execution::PerPixel2D, (0, 0)),
        (0, 0, 1)
    );
    assert_eq!(
        get_execution_dims((2, 9, 9), Execution::N1D(7), (5, 5)),
        (4, 1, 1)
    );
}

#[test]
fn grid_covers_the_extent_and_is_least() {
    for wx in 1u32..=9 {
        for wy in [1u32, 2, 7, 32] {
            for n in 0u32..=40 {
                let (gx, gy, gz) = get_execution_dims((wx, wy, 5), Execution::N3D(n), (0, 0));
                for (g, w) in [(gx, wx), (gy, wy), (gz, 5)] {
                    let (g, w, n) = (g as i64, w as i64, n as i64);
                    assert!(g * w >= n);
                    assert!((g - 1) * w < n);
                }
                let (px, py, pz) = get_execution_dims((wx, wy, 5), Execution::PerPixel2D, (n, 3 * n));
                assert!(px as i64 * wx as i64 >= n as i64);
                assert!((px as i64 - 1) * (wx as i64) < n as i64);
                assert!(py as i64 * wy as i64 >= 3 * n as i64);
                assert!((py as i64 - 1) * (wy as i64) < 3 * n as i64);
                assert_eq!(pz, 1);
            }
        }
    }
}

#[test]
fn extents_near_the_limit_do_not_wrap() {
    assert_eq!(
        get_execution_dims((1, 1, 1), Execution::N1D(u32::MAX), (0, 0)),
        (u32::MAX, 1, 1)
    );
    assert_eq!(
        get_execution_dims((u32::MAX, u32::MAX, u32::MAX), Execution::N3D(u32::MAX), (0, 0)),
        (1, 1, 1)
    );
    assert_eq!(
        get_execution_dims((2, 1, 1), Execution::N1D(u32::MAX), (0, 0)),
        (2147483648, 1, 1)
    );
    assert_eq!(
        get_execution_dims((u32::MAX, 1, 1), Execution::PerPixel1D, (u32::MAX, u32::MAX)),
        (u32::MAX, 1, 1)
    );
    assert_eq!(
        get_execution_dims((64, 1, 1), Execution::PerPixel1D, (65536, 65536)),
        (67108864, 1, 1)
    );
}

#[test]
fn checked_dims_agree_where_both_are_defined() {
    assert_eq!(
        checked_execution_dims((8, 8, 1), Execution::PerPixel2D, (1280, 720)),
        Some((160, 90, 1))
    );
    assert_eq!(
        checked_execution_dims((64, 1, 1), Execution::PerPixel1D, (1280, 720)),
        Some((14400, 1, 1))
    );
    assert_eq!(
        checked_execution_dims((1, 1, 1), Execution::PerPixel1D, (65535, 65537)),
        Some((u32::MAX, 1, 1))
    );
}

#[test]
fn checked_dims_refuse_an_empty_workgroup() {
    assert_eq!(checked_execution_dims((0, 8, 1), Execution::PerPixel2D, (16, 16)), None);
    assert_eq!(checked_execution_dims((8, 0, 1), Execution::N1D(4), (16, 16)), None);
    assert_eq!(checked_execution_dims((8, 8, 0), Execution::N1D(0), (16, 16)), None);
}

#[test]
fn checked_dims_refuse_a_grid_that_does_not_fit() {
    assert_eq!(
        checked_execution_dims((1, 1, 1), Execution::PerPixel1D, (65536, 65536)),
        None
    );
    assert_eq!(
        checked_execution_dims((1, 1, 1), Execution::PerPixel1D, (u32::MAX, u32::MAX)),
        None
    );
    assert_eq!(
        checked_execution_dims((2, 1, 1), Execution::PerPixel1D, (65536, 65536)),
        Some((2147483648, 1, 1))
    );
}
