//! Dispatch geometry: how many workgroups cover a workload.

use vstd::prelude::*;

verus! {

/// How a logical workload is laid out over the dispatch space.
#[derive(Clone, Copy, Debug, PartialEq, Eq, Structural)]
pub enum Execution {
    /// One invocation per pixel of the target, all pixels on the first axis.
    PerPixel1D,
    /// One invocation per pixel of the target, columns on the first axis and
    /// rows on the second.
    PerPixel2D,
    /// A cube of `n` invocations along each of the three axes.
    N3D(u32),
    /// A line of `n` invocations on the first axis.
    N1D(u32),
}

/// The least number of tiles of `tile` items that hold `extent` items:
/// `extent / tile`, rounded up.
pub open spec fn ceil_div(extent: int, tile: int) -> int {
    (extent + tile - 1) / tile
}

/// The number of invocations that `mode` asks for along each axis. An axis
/// that the mode does not use is one invocation thick.
pub open spec fn extents(mode: Execution, target: (u32, u32)) -> (int, int, int) {
    match mode {
        Execution::PerPixel1D => (target.0 * target.1, 1, 1),
        Execution::PerPixel2D => (target.0 as int, target.1 as int, 1),
        Execution::N3D(n) => (n as int, n as int, n as int),
        Execution::N1D(n) => (n as int, 1, 1),
    }
}

/// The dispatch grid: per axis, the extent divided by the workgroup size and
/// rounded up. An axis that the mode does not use gets exactly one workgroup.
pub open spec fn dispatch_grid(workgroup: (u32, u32, u32), mode: Execution, target: (u32, u32)) -> (
    int,
    int,
    int,
) {
    match mode {
        Execution::PerPixel1D => (ceil_div(target.0 * target.1, workgroup.0 as int), 1, 1),
        Execution::PerPixel2D => (
            ceil_div(target.0 as int, workgroup.0 as int),
            ceil_div(target.1 as int, workgroup.1 as int),
            1,
        ),
        Execution::N3D(n) => (
            ceil_div(n as int, workgroup.0 as int),
            ceil_div(n as int, workgroup.1 as int),
            ceil_div(n as int, workgroup.2 as int),
        ),
        Execution::N1D(n) => (ceil_div(n as int, workgroup.0 as int), 1, 1),
    }
}

/// `count` tiles of `tile` items hold `extent` items, and one tile fewer
/// would not.
pub open spec fn least_cover(count: int, tile: int, extent: int) -> bool {
    count * tile >= extent && (count - 1) * tile < extent
}

/// A workgroup size that can be dispatched: no axis is empty.
pub open spec fn workgroup_ok(workgroup: (u32, u32, u32)) -> bool {
    workgroup.0 >= 1 && workgroup.1 >= 1 && workgroup.2 >= 1
}

/// Every component of the dispatch grid fits the 32 bits it is returned in.
/// Only `PerPixel1D` can fail this: its extent is a product of two 32-bit
/// numbers.
pub open spec fn grid_fits(workgroup: (u32, u32, u32), mode: Execution, target: (u32, u32)) -> bool {
    dispatch_grid(workgroup, mode, target).0 <= u32::MAX
}

/// Rounding up gives the one tile count that covers the extent and is least.
pub proof fn lemma_ceil_div_least_cover(extent: int, tile: int)
    requires
        extent >= 0,
        tile >= 1,
    ensures
        least_cover(ceil_div(extent, tile), tile, extent),
        0 <= ceil_div(extent, tile) <= extent,
        extent == 0 ==> ceil_div(extent, tile) == 0,
        forall|count: int| least_cover(count, tile, extent) ==> count == ceil_div(extent, tile),
{
    let q = ceil_div(extent, tile);
    assert(q * tile >= extent && (q - 1) * tile < extent && 0 <= q <= extent) by (nonlinear_arith)
        requires
            extent >= 0,
            tile >= 1,
            q == (extent + tile - 1) / tile,
    ;
    assert(extent == 0 ==> q == 0) by (nonlinear_arith)
        requires
            extent >= 0,
            tile >= 1,
            q == (extent + tile - 1) / tile,
    ;
    assert forall|count: int| least_cover(count, tile, extent) implies count == q by {
        assert(count == q) by (nonlinear_arith)
            requires
                tile >= 1,
                count * tile >= extent,
                (count - 1) * tile < extent,
                q * tile >= extent,
                (q - 1) * tile < extent,
        ;
    }
}

/// The grid of `dispatch_grid` covers the extents of `mode` on every axis,
/// and taking one workgroup away on any axis leaves part of it uncovered.
pub proof fn lemma_dispatch_grid_least_cover(
    workgroup: (u32, u32, u32),
    mode: Execution,
    target: (u32, u32),
)
    requires
        workgroup_ok(workgroup),
    ensures
        least_cover(
            dispatch_grid(workgroup, mode, target).0,
            workgroup.0 as int,
            extents(mode, target).0,
        ),
        least_cover(
            dispatch_grid(workgroup, mode, target).1,
            workgroup.1 as int,
            extents(mode, target).1,
        ),
        least_cover(
            dispatch_grid(workgroup, mode, target).2,
            workgroup.2 as int,
            extents(mode, target).2,
        ),
        dispatch_grid(workgroup, mode, target).0 >= 0,
        dispatch_grid(workgroup, mode, target).1 >= 0,
        dispatch_grid(workgroup, mode, target).2 >= 0,
{
    lemma_pixel_count(target);
    lemma_ceil_div_least_cover(extents(mode, target).0, workgroup.0 as int);
    lemma_ceil_div_least_cover(extents(mode, target).1, workgroup.1 as int);
    lemma_ceil_div_least_cover(extents(mode, target).2, workgroup.2 as int);
    lemma_single_tile(workgroup.1 as int);
    lemma_single_tile(workgroup.2 as int);
}

/// An axis with nothing to do gets no workgroup: a line of zero invocations
/// yields the grid `(0, 1, 1)` whatever the workgroup size.
pub proof fn lemma_empty_line_grid(workgroup: (u32, u32, u32), target: (u32, u32))
    requires
        workgroup_ok(workgroup),
    ensures
        dispatch_grid(workgroup, Execution::N1D(0), target) == (0int, 1int, 1int),
{
    lemma_ceil_div_least_cover(0, workgroup.0 as int);
}

/// One invocation needs one tile, whatever the tile's size.
proof fn lemma_single_tile(tile: int)
    requires
        tile >= 1,
    ensures
        ceil_div(1, tile) == 1,
{
    assert((1 + tile - 1) / tile == 1) by (nonlinear_arith)
        requires
            tile >= 1,
    ;
}

/// The pixels of a target are counted without loss in 64 bits, with room
/// left to add a workgroup size.
proof fn lemma_pixel_count(target: (u32, u32))
    ensures
        0 <= target.0 * target.1 <= 0xffff_ffff * 0xffff_ffff,
{
    assert(0 <= target.0 * target.1 <= 0xffff_ffff * 0xffff_ffff) by (nonlinear_arith)
        requires
            0 <= target.0 <= 0xffff_ffff,
            0 <= target.1 <= 0xffff_ffff,
    ;
}

/// Divides `extent` by `tile`, rounding up.
fn tiles(extent: u64, tile: u32) -> (count: u64)
    requires
        tile >= 1,
        extent <= 0xffff_ffff * 0xffff_ffff,
    ensures
        count == ceil_div(extent as int, tile as int),
        count <= extent,
{
    proof {
        lemma_ceil_div_least_cover(extent as int, tile as int);
    }
    (extent + (tile as u64 - 1)) / tile as u64
}

/// The number of workgroups to launch per axis so that workgroups of
/// `workgroup_size` invocations cover the workload that `execution_mode`
/// describes. The pixel modes take their extent from `texture_size` (width,
/// height); the other modes ignore it.
///
/// The quotient is rounded up, so that the last, partly filled workgroup is
/// launched too. Nothing here wraps around: the sums are made in 64 bits.
pub fn get_execution_dims(
    workgroup_size: (u32, u32, u32),
    execution_mode: Execution,
    texture_size: (u32, u32),
) -> (grid: (u32, u32, u32))
    requires
        workgroup_ok(workgroup_size),
        grid_fits(workgroup_size, execution_mode, texture_size),
    ensures
        (grid.0 as int, grid.1 as int, grid.2 as int) == dispatch_grid(
            workgroup_size,
            execution_mode,
            texture_size,
        ),
        least_cover(
            grid.0 as int,
            workgroup_size.0 as int,
            extents(execution_mode, texture_size).0,
        ),
        least_cover(
            grid.1 as int,
            workgroup_size.1 as int,
            extents(execution_mode, texture_size).1,
        ),
        least_cover(
            grid.2 as int,
            workgroup_size.2 as int,
            extents(execution_mode, texture_size).2,
        ),
{
    proof {
        lemma_dispatch_grid_least_cover(workgroup_size, execution_mode, texture_size);
        lemma_pixel_count(texture_size);
    }
    match execution_mode {
        Execution::PerPixel1D => {
            let pixels: u64 = texture_size.0 as u64 * texture_size.1 as u64;
            (tiles(pixels, workgroup_size.0) as u32, 1, 1)
        },
        Execution::PerPixel2D => (
            tiles(texture_size.0 as u64, workgroup_size.0) as u32,
            tiles(texture_size.1 as u64, workgroup_size.1) as u32,
            1,
        ),
        Execution::N3D(n) => (
            tiles(n as u64, workgroup_size.0) as u32,
            tiles(n as u64, workgroup_size.1) as u32,
            tiles(n as u64, workgroup_size.2) as u32,
        ),
        Execution::N1D(n) => (tiles(n as u64, workgroup_size.0) as u32, 1, 1),
    }
}

/// `get_execution_dims` for callers that cannot promise what it requires:
/// `None` when a workgroup axis is empty or the grid does not fit 32 bits per
/// axis, the grid otherwise.
pub fn checked_execution_dims(
    workgroup_size: (u32, u32, u32),
    execution_mode: Execution,
    texture_size: (u32, u32),
) -> (grid: Option<(u32, u32, u32)>)
    ensures
        grid is Some <==> workgroup_ok(workgroup_size) && grid_fits(
            workgroup_size,
            execution_mode,
            texture_size,
        ),
        grid matches Some(g) ==> (g.0 as int, g.1 as int, g.2 as int) == dispatch_grid(
            workgroup_size,
            execution_mode,
            texture_size,
        ),
{
    if workgroup_size.0 == 0 || workgroup_size.1 == 0 || workgroup_size.2 == 0 {
        return None;
    }
    proof {
        lemma_pixel_count(texture_size);
    }
    let first_extent: u64 = match execution_mode {
        Execution::PerPixel1D => texture_size.0 as u64 * texture_size.1 as u64,
        Execution::PerPixel2D => texture_size.0 as u64,
        Execution::N3D(n) => n as u64,
        Execution::N1D(n) => n as u64,
    };
    if tiles(first_extent, workgroup_size.0) > u32::MAX as u64 {
        None
    } else {
        Some(get_execution_dims(workgroup_size, execution_mode, texture_size))
    }
}

} // verus!
