//! Trace tiling: the workgroup grid, tile regions, and the scratch memory a trace needs.

use vstd::prelude::*;

use crate::extent::RenderExtent;

verus! {

/// Pixels along each side of one trace workgroup tile.
pub const TRACE_WORKGROUP_AXIS: u32 = 8;

/// Bytes per pixel of each diagnostic trace record plane.
pub const TRACE_RECORD_PLANE_ELEMENT_SIZE: u64 = 16;

/// Bytes of one packed escape-map node.
pub const ESCAPE_MAP_NODE_BYTES: u64 = 4;

/// Bytes of one shadow edge-pixel entry.
pub const EDGE_PIXEL_BYTES: u64 = 4;

/// Bytes of the shadow refinement control block.
pub const SHADOW_CONTROL_BYTES: u64 = 16;

/// `a / b` rounded up, for positive `b`.
pub open spec fn div_ceil(a: int, b: int) -> int {
    (a + b - 1) / b
}

/// The tile grid `[columns, rows]` that covers an extent.
pub open spec fn grid_of(extent: (u32, u32)) -> (int, int) {
    (div_ceil(extent.0 as int, 8), div_ceil(extent.1 as int, 8))
}

/// Number of tiles of the grid that covers an extent.
pub open spec fn tile_count(extent: (u32, u32)) -> int {
    grid_of(extent).0 * grid_of(extent).1
}

pub fn div_ceil_by_workgroup(value: u32) -> (result: u32)
    ensures
        result == div_ceil(value as int, 8),
        value > 0 ==> result > 0,
        result <= value,
{
    value / TRACE_WORKGROUP_AXIS + if value % TRACE_WORKGROUP_AXIS == 0 { 0 } else { 1 }
}

/// The `[columns, rows]` of trace tiles that cover the extent.
pub fn tile_grid(extent: RenderExtent) -> (grid: [u32; 2])
    ensures
        grid[0] == grid_of(extent@).0,
        grid[1] == grid_of(extent@).1,
        grid[0] > 0,
        grid[1] > 0,
{
    [div_ceil_by_workgroup(extent.width()), div_ceil_by_workgroup(extent.height())]
}

/// A rectangle of trace tiles: an origin and a workgroup count per axis.
#[derive(Clone, Copy, Debug, PartialEq, Eq, Structural)]
pub struct TileRegion {
    origin_x: u32,
    origin_y: u32,
    columns: u32,
    rows: u32,
}

/// The mathematical content of a tile region.
pub struct RegionModel {
    pub origin_x: int,
    pub origin_y: int,
    pub columns: int,
    pub rows: int,
}

impl RegionModel {
    /// Whether tile `(x, y)` lies in the region.
    pub open spec fn contains(self, x: int, y: int) -> bool {
        &&& self.origin_x <= x < self.origin_x + self.columns
        &&& self.origin_y <= y < self.origin_y + self.rows
    }

    pub open spec fn len(self) -> int {
        self.columns * self.rows
    }
}

impl View for TileRegion {
    type V = RegionModel;

    closed spec fn view(&self) -> RegionModel {
        RegionModel {
            origin_x: self.origin_x as int,
            origin_y: self.origin_y as int,
            columns: self.columns as int,
            rows: self.rows as int,
        }
    }
}

impl TileRegion {
    #[verifier::type_invariant]
    spec fn well_formed(self) -> bool {
        self.columns > 0 && self.rows > 0
    }

    /// A region of at least one workgroup along each axis.
    pub fn new(origin: [u32; 2], workgroups: [u32; 2]) -> (region: Self)
        requires
            workgroups[0] > 0,
            workgroups[1] > 0,
        ensures
            region@.origin_x == origin[0],
            region@.origin_y == origin[1],
            region@.columns == workgroups[0],
            region@.rows == workgroups[1],
    {
        TileRegion { origin_x: origin[0], origin_y: origin[1], columns: workgroups[0], rows: workgroups[1] }
    }

    /// The whole grid of the extent as one region.
    pub fn all(extent: RenderExtent) -> (region: Self)
        ensures
            region@.origin_x == 0,
            region@.origin_y == 0,
            region@.columns == grid_of(extent@).0,
            region@.rows == grid_of(extent@).1,
            finishes_grid(region@, grid_of(extent@)),
    {
        let grid = tile_grid(extent);
        TileRegion { origin_x: 0, origin_y: 0, columns: grid[0], rows: grid[1] }
    }

    /// The one-tile region that holds the given pixel.
    pub fn containing_pixel(pixel: [u32; 2]) -> (region: Self)
        ensures
            region@.origin_x == pixel[0] / 8,
            region@.origin_y == pixel[1] / 8,
            region@.columns == 1,
            region@.rows == 1,
    {
        TileRegion {
            origin_x: pixel[0] / TRACE_WORKGROUP_AXIS,
            origin_y: pixel[1] / TRACE_WORKGROUP_AXIS,
            columns: 1,
            rows: 1,
        }
    }

    pub fn origin(self) -> (origin: [u32; 2])
        ensures
            origin[0] == self@.origin_x,
            origin[1] == self@.origin_y,
    {
        [self.origin_x, self.origin_y]
    }

    pub fn workgroups(self) -> (workgroups: [u32; 2])
        ensures
            workgroups[0] == self@.columns,
            workgroups[1] == self@.rows,
            workgroups[0] > 0,
            workgroups[1] > 0,
    {
        proof {
            use_type_invariant(&self);
        }
        [self.columns, self.rows]
    }

    /// Number of tiles in the region, for a region whose tile count fits in `u32`.
    pub fn len(self) -> (len: u32)
        requires
            self@.len() <= u32::MAX,
        ensures
            len == self@.len(),
            len >= 1,
    {
        proof {
            use_type_invariant(&self);
            assert(self.columns * self.rows >= 1) by (nonlinear_arith)
                requires
                    self.columns >= 1,
                    self.rows >= 1,
            ;
        }
        self.columns * self.rows
    }

    /// Whether this region ends the extent's row-major tile sequence: it reaches the last tile
    /// and covers whole rows whenever it spans more than one row.
    pub fn finishes(self, extent: RenderExtent) -> (finishes: bool)
        ensures
            finishes == finishes_grid(self@, grid_of(extent@)),
    {
        let grid = tile_grid(extent);
        let row_contiguous = self.rows == 1 || (self.origin_x == 0 && self.columns == grid[0]);
        row_contiguous && self.origin_x as u64 + self.columns as u64 == grid[0] as u64
            && self.origin_y as u64 + self.rows as u64 == grid[1] as u64
    }
}

pub open spec fn finishes_grid(region: RegionModel, grid: (int, int)) -> bool {
    &&& (region.rows == 1 || (region.origin_x == 0 && region.columns == grid.0))
    &&& region.origin_x + region.columns == grid.0
    &&& region.origin_y + region.rows == grid.1
}

/// Row-major order on tiles of a row of width `width`: a tile lies before row `a` exactly when
/// its row is before `a`.
pub(crate) proof fn lemma_row_major(width: int, x: int, y: int, a: int)
    requires
        width > 0,
        0 <= x < width,
        y >= 0,
        a >= 0,
    ensures
        (y * width + x < a * width) <==> (y < a),
{
    if y < a {
        assert(y * width + width <= a * width) by (nonlinear_arith)
            requires
                y < a,
                width > 0,
        ;
    } else {
        assert(y * width >= a * width) by (nonlinear_arith)
            requires
                y >= a,
                width > 0,
        ;
    }
}

/// A region inside the grid finishes it exactly when its tiles are the last `len` tiles of the
/// grid in row-major order: the tiles whose row-major index is at least `columns * rows` below
/// the tile count, which is the suffix that completes a trace.
pub proof fn law_finishes_iff_row_major_suffix(region: RegionModel, grid_x: int, grid_y: int)
    requires
        grid_x >= 1,
        grid_y >= 1,
        region.columns >= 1,
        region.rows >= 1,
        region.origin_x >= 0,
        region.origin_y >= 0,
        region.origin_x + region.columns <= grid_x,
        region.origin_y + region.rows <= grid_y,
    ensures
        finishes_grid(region, (grid_x, grid_y)) <==> (forall|x: int, y: int|
            0 <= x < grid_x && 0 <= y < grid_y ==> (#[trigger] region.contains(x, y) <==> grid_x * grid_y
                - region.len() <= y * grid_x + x)),
{
    let gx = grid_x;
    let gy = grid_y;
    let ox = region.origin_x;
    let oy = region.origin_y;
    let c = region.columns;
    let rows = region.rows;
    let first = gx * gy - region.len();
    assert(region.len() >= 1) by (nonlinear_arith)
        requires
            region.len() == c * rows,
            c >= 1,
            rows >= 1,
    ;
    if finishes_grid(region, (gx, gy)) {
        if rows == 1 {
            assert(first == (gy - 1) * gx + ox) by (nonlinear_arith)
                requires
                    first == gx * gy - c * rows,
                    rows == 1,
                    ox + c == gx,
            ;
            assert forall|x: int, y: int| 0 <= x < gx && 0 <= y < gy implies (#[trigger] region.contains(x, y)
                <==> first <= y * gx + x) by {
                lemma_row_major(gx, x, y, gy - 1);
            }
        } else {
            assert(first == oy * gx) by (nonlinear_arith)
                requires
                    first == gx * gy - c * rows,
                    c == gx,
                    oy + rows == gy,
            ;
            assert forall|x: int, y: int| 0 <= x < gx && 0 <= y < gy implies (#[trigger] region.contains(x, y)
                <==> first <= y * gx + x) by {
                lemma_row_major(gx, x, y, oy);
            }
        }
    } else {
        if forall|x: int, y: int|
            0 <= x < gx && 0 <= y < gy ==> (#[trigger] region.contains(x, y) <==> first <= y * gx + x) {
            assert((gy - 1) * gx + (gx - 1) == gx * gy - 1) by (nonlinear_arith);
            assert(region.contains(gx - 1, gy - 1));
            if rows > 1 {
                assert(gy >= 2);
                assert((gy - 2) * gx + (gx - 1) == gx * gy - gx - 1) by (nonlinear_arith);
                assert(region.len() >= gx + 1) by {
                    assert(region.contains(gx - 1, gy - 2));
                }
                if ox > 0 {
                    assert((gy - 1) * gx + (ox - 1) >= gx * gy - gx - 1) by (nonlinear_arith)
                        requires
                            ox >= 1,
                    ;
                    assert(region.contains(ox - 1, gy - 1));
                }
            }
        }
    }
}

/// Workgroups of the escape-map node pass for a tile region: one node per tile corner.
pub fn escape_map_node_workgroups(tiles: TileRegion) -> (workgroups: [u32; 2])
    ensures
        workgroups[0] == div_ceil(tiles@.columns * 2 + 1, 8),
        workgroups[1] == div_ceil(tiles@.rows * 2 + 1, 8),
{
    let workgroups = tiles.workgroups();
    let columns = workgroups[0];
    let rows = workgroups[1];
    let x = (columns as u64 * 2 + 1 + 7) / 8;
    let y = (rows as u64 * 2 + 1 + 7) / 8;
    [x as u32, y as u32]
}

/// Bytes of the packed escape-direction map: one node per tile corner.
pub open spec fn escape_map_bytes(extent: (u32, u32)) -> int {
    (grid_of(extent).0 * 2 + 1) * (grid_of(extent).1 * 2 + 1) * 4
}

pub fn escape_map_scratch_bytes(extent: RenderExtent) -> (bytes: u64)
    ensures
        bytes == escape_map_bytes(extent@),
{
    let grid = tile_grid(extent);
    let columns = grid[0] as u64 * 2 + 1;
    let rows = grid[1] as u64 * 2 + 1;
    proof {
        assert(columns * rows <= 0x4000_0001u64 * 0x4000_0001u64) by (nonlinear_arith)
            requires
                columns <= 0x4000_0001u64,
                rows <= 0x4000_0001u64,
        ;
    }
    columns * rows * ESCAPE_MAP_NODE_BYTES
}

/// Capacity of the shadow edge list: the pixel count, bounded by eight times the half-perimeter,
/// and saturated to `u32`.
pub open spec fn edge_capacity_spec(extent: (u32, u32)) -> int {
    let pixels = extent.0 * extent.1;
    let perimeter_bound = 8 * (extent.0 + extent.1);
    let bound = if pixels < perimeter_bound { pixels } else { perimeter_bound };
    if bound > u32::MAX { u32::MAX as int } else { bound }
}

pub fn edge_capacity(extent: RenderExtent) -> (capacity: u32)
    ensures
        capacity == edge_capacity_spec(extent@),
{
    let width = extent.width() as u64;
    let height = extent.height() as u64;
    proof {
        assert(width * height <= 0xffff_ffffu64 * 0xffff_ffffu64) by (nonlinear_arith)
            requires
                width <= 0xffff_ffffu64,
                height <= 0xffff_ffffu64,
        ;
    }
    let pixels = width * height;
    let perimeter_bound = 8 * (width + height);
    let bound = if pixels < perimeter_bound { pixels } else { perimeter_bound };
    if bound > u32::MAX as u64 { u32::MAX } else { bound as u32 }
}

/// Bytes of the selective shadow-refinement scratch: the edge list plus its control block.
pub open spec fn shadow_scratch_bytes(extent: (u32, u32)) -> int {
    edge_capacity_spec(extent) * 4 + 16
}

pub fn scratch_bytes(extent: RenderExtent) -> (bytes: u64)
    ensures
        bytes == shadow_scratch_bytes(extent@),
{
    edge_capacity(extent) as u64 * EDGE_PIXEL_BYTES + SHADOW_CONTROL_BYTES
}

pub fn shadow_coverage_scratch_bytes(extent: RenderExtent) -> (bytes: u64)
    ensures
        bytes == shadow_scratch_bytes(extent@),
{
    scratch_bytes(extent)
}

/// `a * b`, or `u64::MAX` when the product does not fit.
pub open spec fn saturating_product(a: int, b: int) -> int {
    if a * b > u64::MAX { u64::MAX as int } else { a * b }
}

pub fn saturating_mul_u64(a: u64, b: u64) -> (product: u64)
    ensures
        product == saturating_product(a as int, b as int),
{
    match a.checked_mul(b) {
        Some(product) => product,
        None => u64::MAX,
    }
}

/// Bytes of one diagnostic record plane: one element per pixel, saturated to `u64`.
pub fn trace_record_plane_size(extent: RenderExtent) -> (bytes: u64)
    ensures
        bytes == saturating_product(
            saturating_product(extent@.0 as int, extent@.1 as int),
            TRACE_RECORD_PLANE_ELEMENT_SIZE as int,
        ),
{
    saturating_mul_u64(
        saturating_mul_u64(extent.width() as u64, extent.height() as u64),
        TRACE_RECORD_PLANE_ELEMENT_SIZE,
    )
}

/// The tile-dispatch words handed to the trace shader: origin and workgroup count.
pub fn dispatch_words(tiles: TileRegion) -> (words: [u32; 4])
    ensures
        words[0] == tiles@.origin_x,
        words[1] == tiles@.origin_y,
        words[2] == tiles@.columns,
        words[3] == tiles@.rows,
{
    let origin = tiles.origin();
    let workgroups = tiles.workgroups();
    [origin[0], origin[1], workgroups[0], workgroups[1]]
}

/// The terminal classification a GPU trace writes for each ray.
#[derive(Clone, Copy, Debug, PartialEq, Eq, Structural)]
pub enum TraceTermination {
    HorizonCrossing,
    Escape,
    SingularityGuard,
    StepExhaustion,
    NumericalFailure,
    Uncertain,
    EquatorialSurface,
}

/// A termination discriminant outside the shader protocol.
#[derive(Clone, Copy, Debug, PartialEq, Eq, Structural)]
pub struct UnknownTraceTermination(pub u32);

pub open spec fn termination_code(termination: TraceTermination) -> u32 {
    match termination {
        TraceTermination::HorizonCrossing => 1,
        TraceTermination::Escape => 2,
        TraceTermination::SingularityGuard => 3,
        TraceTermination::StepExhaustion => 4,
        TraceTermination::NumericalFailure => 5,
        TraceTermination::Uncertain => 6,
        TraceTermination::EquatorialSurface => 7,
    }
}

pub open spec fn termination_from_code(code: u32) -> Result<TraceTermination, UnknownTraceTermination> {
    if code == 1 {
        Ok(TraceTermination::HorizonCrossing)
    } else if code == 2 {
        Ok(TraceTermination::Escape)
    } else if code == 3 {
        Ok(TraceTermination::SingularityGuard)
    } else if code == 4 {
        Ok(TraceTermination::StepExhaustion)
    } else if code == 5 {
        Ok(TraceTermination::NumericalFailure)
    } else if code == 6 {
        Ok(TraceTermination::Uncertain)
    } else if code == 7 {
        Ok(TraceTermination::EquatorialSurface)
    } else {
        Err(UnknownTraceTermination(code))
    }
}

impl TraceTermination {
    /// The stable shader discriminant.
    pub fn code(self) -> (code: u32)
        ensures
            code == termination_code(self),
    {
        match self {
            TraceTermination::HorizonCrossing => 1,
            TraceTermination::Escape => 2,
            TraceTermination::SingularityGuard => 3,
            TraceTermination::StepExhaustion => 4,
            TraceTermination::NumericalFailure => 5,
            TraceTermination::Uncertain => 6,
            TraceTermination::EquatorialSurface => 7,
        }
    }

    /// Decodes a shader discriminant, refusing every value outside `1..=7`.
    pub fn from_code(code: u32) -> (result: Result<TraceTermination, UnknownTraceTermination>)
        ensures
            result == termination_from_code(code),
    {
        match code {
            1 => Ok(TraceTermination::HorizonCrossing),
            2 => Ok(TraceTermination::Escape),
            3 => Ok(TraceTermination::SingularityGuard),
            4 => Ok(TraceTermination::StepExhaustion),
            5 => Ok(TraceTermination::NumericalFailure),
            6 => Ok(TraceTermination::Uncertain),
            7 => Ok(TraceTermination::EquatorialSurface),
            unknown => Err(UnknownTraceTermination(unknown)),
        }
    }
}

impl From<TraceTermination> for u32 {
    fn from(value: TraceTermination) -> (code: u32) {
        value.code()
    }
}

impl vstd::std_specs::convert::FromSpecImpl<TraceTermination> for u32 {
    open spec fn obeys_from_spec() -> bool {
        true
    }

    open spec fn from_spec(value: TraceTermination) -> u32 {
        termination_code(value)
    }
}

impl TryFrom<u32> for TraceTermination {
    type Error = UnknownTraceTermination;

    fn try_from(value: u32) -> (result: Result<TraceTermination, UnknownTraceTermination>) {
        TraceTermination::from_code(value)
    }
}

impl vstd::std_specs::convert::TryFromSpecImpl<u32> for TraceTermination {
    open spec fn obeys_try_from_spec() -> bool {
        true
    }

    open spec fn try_from_spec(value: u32) -> Result<TraceTermination, UnknownTraceTermination> {
        termination_from_code(value)
    }
}

/// Decoding an encoded termination gives it back, and the codes are exactly `1..=7`.
pub proof fn law_termination_code_roundtrip(termination: TraceTermination, code: u32)
    ensures
        termination_from_code(termination_code(termination)) == Ok::<TraceTermination, UnknownTraceTermination>(termination),
        1 <= termination_code(termination) <= 7,
        termination_from_code(code) is Err <==> (code < 1 || code > 7),
        termination_from_code(code) matches Ok(t) ==> termination_code(t) == code,
{
}

} // verus!
