//! Trace plans: which shader program, entry points, refinement passes, bindings and scratch
//! memory each scene source and capture kind uses.

use vstd::prelude::*;

use crate::extent::RenderExtent;
use crate::shader::{ShaderProgram, emits_blackbody, emits_bolometric, is_accelerated, is_capture};
use crate::tiles::{
    ESCAPE_MAP_NODE_BYTES, TRACE_RECORD_PLANE_ELEMENT_SIZE, TileRegion, div_ceil, escape_map_bytes,
    escape_map_scratch_bytes, finishes_grid, grid_of, shadow_coverage_scratch_bytes, shadow_scratch_bytes,
};

verus! {

/// Bytes of the tile dispatch uniform: origin and workgroup count, two `u32` each.
pub const TRACE_DISPATCH_BYTES: u64 = 16;

/// Bytes of the blackbody log2-fraction lookup table.
pub const BLACKBODY_LUT_BYTE_SIZE: u64 = 65_552;

/// Workgroup edge of the shadow classification pass.
pub const CLASSIFY_WORKGROUP_AXIS: u32 = 8;

/// Workgroup width of the shadow refinement pass.
pub const REFINE_WORKGROUP_WIDTH: u32 = 64;

/// The size in bytes of a value of type `T`.
pub fn size_of<T>() -> (bytes: u64)
    ensures
        bytes as nat == vstd::layout::size_of::<T>(),
{
    core::mem::size_of::<T>() as u64
}

/// What a trace renders, fixed by the scene source.
#[derive(Clone, Copy, Debug, PartialEq, Eq, Structural)]
pub enum TracePlan {
    AcceleratedSky,
    EquatorialBolometricSurface,
    EquatorialBlackbodySurface,
}

/// Whether a trace writes only the presented image or also per-pixel diagnostic records.
#[derive(Clone, Copy, Debug, PartialEq, Eq, Structural)]
pub enum TraceTargetKind {
    Presentation,
    Diagnostic,
}

/// Why a capture pipeline cannot be built for a plan.
#[derive(Clone, Copy, Debug, PartialEq, Eq, Structural)]
pub enum CaptureSpecError {
    SurfaceFootprintRequiresSurface,
    SurfaceTransportRequiresSurface,
}

/// The scratch memory of a plan: the shadow edge list and escape map of the accelerated sky,
/// nothing for surface plans.
pub open spec fn plan_scratch_bytes(plan: TracePlan, extent: (u32, u32)) -> int {
    match plan {
        TracePlan::AcceleratedSky => {
            let sum = shadow_scratch_bytes(extent) + escape_map_bytes(extent);
            if sum > u64::MAX { u64::MAX as int } else { sum }
        },
        _ => 0,
    }
}

impl TracePlan {
    pub fn scratch_bytes(self, extent: RenderExtent) -> (bytes: u64)
        ensures
            bytes == plan_scratch_bytes(self, extent@),
    {
        match self {
            TracePlan::AcceleratedSky => shadow_coverage_scratch_bytes(extent).saturating_add(
                escape_map_scratch_bytes(extent),
            ),
            TracePlan::EquatorialBolometricSurface | TracePlan::EquatorialBlackbodySurface => 0,
        }
    }

    /// Whether the trace stops on equatorial surface events (the pipeline constant is `1.0`
    /// exactly then, `0.0` otherwise).
    pub fn surface_events_enabled(self) -> (enabled: bool)
        ensures
            enabled == !(self is AcceleratedSky),
    {
        match self {
            TracePlan::AcceleratedSky => false,
            TracePlan::EquatorialBolometricSurface | TracePlan::EquatorialBlackbodySurface => true,
        }
    }

    pub fn has_blackbody_lut(self) -> (has: bool)
        ensures
            has == (self is EquatorialBlackbodySurface),
    {
        match self {
            TracePlan::EquatorialBlackbodySurface => true,
            _ => false,
        }
    }
}

impl TraceTargetKind {
    pub fn captures_records(self) -> (captures: bool)
        ensures
            captures == (self is Diagnostic),
    {
        match self {
            TraceTargetKind::Presentation => false,
            TraceTargetKind::Diagnostic => true,
        }
    }
}

/// The mathematical content of a [`TracePipelineSpec`].
pub struct PipelineModel {
    pub program: ShaderProgram,
    pub entry_point: Seq<char>,
    pub escape_map_node_entry_point: Option<Seq<char>>,
    pub has_shadow_refinement: bool,
    pub target_kind: TraceTargetKind,
}

/// How to build one trace pipeline.
#[derive(Clone, Copy, Debug)]
pub struct TracePipelineSpec {
    pub program: ShaderProgram,
    pub entry_point: &'static str,
    pub escape_map_node_entry_point: Option<&'static str>,
    pub has_shadow_refinement: bool,
    pub target_kind: TraceTargetKind,
}

impl View for TracePipelineSpec {
    type V = PipelineModel;

    open spec fn view(&self) -> PipelineModel {
        PipelineModel {
            program: self.program,
            entry_point: self.entry_point@,
            escape_map_node_entry_point: match self.escape_map_node_entry_point {
                Some(e) => Some(e@),
                None => None,
            },
            has_shadow_refinement: self.has_shadow_refinement,
            target_kind: self.target_kind,
        }
    }
}

/// The presentation pipeline of each plan.
pub open spec fn presentation_model(plan: TracePlan) -> PipelineModel {
    match plan {
        TracePlan::AcceleratedSky => PipelineModel {
            program: ShaderProgram::AcceleratedScene,
            entry_point: "trace_scene_accelerated"@,
            escape_map_node_entry_point: Some("trace_escape_map_nodes"@),
            has_shadow_refinement: true,
            target_kind: TraceTargetKind::Presentation,
        },
        TracePlan::EquatorialBolometricSurface => PipelineModel {
            program: ShaderProgram::BolometricSurfaceScene,
            entry_point: "trace_bolometric_surface_scene"@,
            escape_map_node_entry_point: None,
            has_shadow_refinement: false,
            target_kind: TraceTargetKind::Presentation,
        },
        TracePlan::EquatorialBlackbodySurface => PipelineModel {
            program: ShaderProgram::BlackbodySurfaceScene,
            entry_point: "trace_blackbody_surface_scene"@,
            escape_map_node_entry_point: None,
            has_shadow_refinement: false,
            target_kind: TraceTargetKind::Presentation,
        },
    }
}

/// The record-capture pipeline of each plan.
pub open spec fn capture_model(plan: TracePlan) -> PipelineModel {
    match plan {
        TracePlan::AcceleratedSky => PipelineModel {
            program: ShaderProgram::TraceCapture,
            entry_point: "capture_trace_scene"@,
            escape_map_node_entry_point: None,
            has_shadow_refinement: true,
            target_kind: TraceTargetKind::Diagnostic,
        },
        TracePlan::EquatorialBolometricSurface => PipelineModel {
            program: ShaderProgram::BolometricSurfaceCapture,
            entry_point: "capture_surface_trace_scene"@,
            escape_map_node_entry_point: None,
            has_shadow_refinement: false,
            target_kind: TraceTargetKind::Diagnostic,
        },
        TracePlan::EquatorialBlackbodySurface => PipelineModel {
            program: ShaderProgram::BlackbodySurfaceCapture,
            entry_point: "capture_surface_trace_scene"@,
            escape_map_node_entry_point: None,
            has_shadow_refinement: false,
            target_kind: TraceTargetKind::Diagnostic,
        },
    }
}

/// A diagnostic pipeline of a fixed program with one entry point and no escape map.
pub open spec fn diagnostic_model(program: ShaderProgram, entry_point: Seq<char>, has_shadow_refinement: bool) -> PipelineModel {
    PipelineModel {
        program,
        entry_point,
        escape_map_node_entry_point: None,
        has_shadow_refinement,
        target_kind: TraceTargetKind::Diagnostic,
    }
}

impl TracePlan {
    pub fn presentation_spec(self) -> (spec: TracePipelineSpec)
        ensures
            spec@ == presentation_model(self),
    {
        proof {
            reveal_strlit("trace_scene_accelerated");
            reveal_strlit("trace_escape_map_nodes");
            reveal_strlit("trace_bolometric_surface_scene");
            reveal_strlit("trace_blackbody_surface_scene");
        }
        match self {
            TracePlan::AcceleratedSky => TracePipelineSpec {
                program: ShaderProgram::AcceleratedScene,
                entry_point: "trace_scene_accelerated",
                escape_map_node_entry_point: Some("trace_escape_map_nodes"),
                has_shadow_refinement: true,
                target_kind: TraceTargetKind::Presentation,
            },
            TracePlan::EquatorialBolometricSurface => TracePipelineSpec {
                program: ShaderProgram::BolometricSurfaceScene,
                entry_point: "trace_bolometric_surface_scene",
                escape_map_node_entry_point: None,
                has_shadow_refinement: false,
                target_kind: TraceTargetKind::Presentation,
            },
            TracePlan::EquatorialBlackbodySurface => TracePipelineSpec {
                program: ShaderProgram::BlackbodySurfaceScene,
                entry_point: "trace_blackbody_surface_scene",
                escape_map_node_entry_point: None,
                has_shadow_refinement: false,
                target_kind: TraceTargetKind::Presentation,
            },
        }
    }

    pub fn capture_spec(self) -> (spec: TracePipelineSpec)
        ensures
            spec@ == capture_model(self),
    {
        proof {
            reveal_strlit("capture_trace_scene");
            reveal_strlit("capture_surface_trace_scene");
        }
        let (program, entry_point, has_shadow_refinement) = match self {
            TracePlan::AcceleratedSky => (ShaderProgram::TraceCapture, "capture_trace_scene", true),
            TracePlan::EquatorialBolometricSurface => (
                ShaderProgram::BolometricSurfaceCapture,
                "capture_surface_trace_scene",
                false,
            ),
            TracePlan::EquatorialBlackbodySurface => (
                ShaderProgram::BlackbodySurfaceCapture,
                "capture_surface_trace_scene",
                false,
            ),
        };
        TracePipelineSpec {
            program,
            entry_point,
            escape_map_node_entry_point: None,
            has_shadow_refinement,
            target_kind: TraceTargetKind::Diagnostic,
        }
    }

    /// The surface footprint capture; an analytic sky has no surface to capture.
    pub fn footprint_capture_spec(self) -> (spec: Result<TracePipelineSpec, CaptureSpecError>)
        ensures
            self is AcceleratedSky ==> spec == Err::<TracePipelineSpec, CaptureSpecError>(
                CaptureSpecError::SurfaceFootprintRequiresSurface,
            ),
            self is EquatorialBolometricSurface ==> (spec matches Ok(s) && s@ == diagnostic_model(
                ShaderProgram::BolometricSurfaceFootprintCapture,
                "capture_surface_footprint"@,
                false,
            )),
            self is EquatorialBlackbodySurface ==> (spec matches Ok(s) && s@ == diagnostic_model(
                ShaderProgram::BlackbodySurfaceFootprintCapture,
                "capture_surface_footprint"@,
                false,
            )),
    {
        let program = match self {
            TracePlan::AcceleratedSky => {
                return Err(CaptureSpecError::SurfaceFootprintRequiresSurface);
            },
            TracePlan::EquatorialBolometricSurface => ShaderProgram::BolometricSurfaceFootprintCapture,
            TracePlan::EquatorialBlackbodySurface => ShaderProgram::BlackbodySurfaceFootprintCapture,
        };
        Ok(
            TracePipelineSpec {
                program,
                entry_point: "capture_surface_footprint",
                escape_map_node_entry_point: None,
                has_shadow_refinement: false,
                target_kind: TraceTargetKind::Diagnostic,
            },
        )
    }

    /// The surface transport capture: the record capture of the plan with the transport entry
    /// point; an analytic sky has no surface transport.
    pub fn transport_capture_spec(self) -> (spec: Result<TracePipelineSpec, CaptureSpecError>)
        ensures
            self is AcceleratedSky ==> spec == Err::<TracePipelineSpec, CaptureSpecError>(
                CaptureSpecError::SurfaceTransportRequiresSurface,
            ),
            !(self is AcceleratedSky) ==> (spec matches Ok(s) && s@ == (PipelineModel {
                entry_point: "capture_surface_transport_case"@,
                ..capture_model(self)
            })),
    {
        if let TracePlan::AcceleratedSky = self {
            return Err(CaptureSpecError::SurfaceTransportRequiresSurface);
        }
        let capture = self.capture_spec();
        Ok(TracePipelineSpec { entry_point: "capture_surface_transport_case", ..capture })
    }
}

/// The record capture of the accelerated sky, with its escape map and shadow refinement.
pub fn accelerated_capture_spec() -> (spec: TracePipelineSpec)
    ensures
        spec@ == (PipelineModel {
            program: ShaderProgram::AcceleratedCapture,
            entry_point: "capture_accelerated_trace_scene"@,
            escape_map_node_entry_point: Some("trace_escape_map_nodes"@),
            has_shadow_refinement: true,
            target_kind: TraceTargetKind::Diagnostic,
        }),
{
    TracePipelineSpec {
        program: ShaderProgram::AcceleratedCapture,
        entry_point: "capture_accelerated_trace_scene",
        escape_map_node_entry_point: Some("trace_escape_map_nodes"),
        has_shadow_refinement: true,
        target_kind: TraceTargetKind::Diagnostic,
    }
}

pub fn initial_ray_capture_spec() -> (spec: TracePipelineSpec)
    ensures
        spec@ == diagnostic_model(ShaderProgram::InitialRayCapture, "write_initial_rays"@, false),
{
    TracePipelineSpec {
        program: ShaderProgram::InitialRayCapture,
        entry_point: "write_initial_rays",
        escape_map_node_entry_point: None,
        has_shadow_refinement: false,
        target_kind: TraceTargetKind::Diagnostic,
    }
}

pub fn invariant_gate_capture_spec() -> (spec: TracePipelineSpec)
    ensures
        spec@ == diagnostic_model(ShaderProgram::InvariantGateCapture, "write_invariant_gate_cases"@, false),
{
    TracePipelineSpec {
        program: ShaderProgram::InvariantGateCapture,
        entry_point: "write_invariant_gate_cases",
        escape_map_node_entry_point: None,
        has_shadow_refinement: false,
        target_kind: TraceTargetKind::Diagnostic,
    }
}

pub fn event_policy_capture_spec() -> (spec: TracePipelineSpec)
    ensures
        spec@ == diagnostic_model(ShaderProgram::EventPolicyCapture, "write_event_policy_cases"@, false),
{
    TracePipelineSpec {
        program: ShaderProgram::EventPolicyCapture,
        entry_point: "write_event_policy_cases",
        escape_map_node_entry_point: None,
        has_shadow_refinement: false,
        target_kind: TraceTargetKind::Diagnostic,
    }
}

/// The pipelines of a plan are those of its scene: the bolometric plan presents and captures
/// with bolometric programs and the blackbody plan with blackbody ones, only the accelerated sky
/// presents with geodesic acceleration, builds an escape map, refines shadows and needs
/// scratch memory, every capture pipeline is a capture program writing diagnostic records, and
/// no presentation pipeline captures.
pub proof fn law_plan_pipelines_match_the_scene(plan: TracePlan, extent: (u32, u32))
    requires
        extent.0 > 0,
        extent.1 > 0,
    ensures
        ({
            let shown = presentation_model(plan);
            let captured = capture_model(plan);
            &&& emits_bolometric(shown.program) <==> plan is EquatorialBolometricSurface
            &&& emits_bolometric(captured.program) <==> plan is EquatorialBolometricSurface
            &&& emits_blackbody(shown.program) <==> plan is EquatorialBlackbodySurface
            &&& emits_blackbody(captured.program) <==> plan is EquatorialBlackbodySurface
            &&& is_accelerated(shown.program) <==> plan is AcceleratedSky
            &&& shown.escape_map_node_entry_point is Some <==> plan is AcceleratedSky
            &&& shown.has_shadow_refinement <==> plan is AcceleratedSky
            &&& captured.has_shadow_refinement <==> plan is AcceleratedSky
            &&& captured.escape_map_node_entry_point is None
            &&& is_capture(captured.program) && !is_capture(shown.program)
            &&& captured.target_kind is Diagnostic && shown.target_kind is Presentation
            &&& (plan_scratch_bytes(plan, extent) > 0 <==> plan is AcceleratedSky)
        }),
{
}

/// The resource behind one compute binding of the trace bind group.
#[derive(Clone, Copy, Debug, PartialEq, Eq, Structural)]
pub enum TraceBindingKind {
    Uniform { min_binding_size: u64 },
    /// The write-only `Rgba16Float` 2D storage texture the trace writes.
    OutputTexture,
    Storage { read_only: bool, min_binding_size: u64 },
}

/// One entry of the trace bind group layout.
#[derive(Clone, Copy, Debug, PartialEq, Eq, Structural)]
pub struct TraceBinding {
    pub binding: u32,
    pub kind: TraceBindingKind,
}

/// The trace bind group layout: uniforms at 0, the output texture at 1, the tile dispatch at 2,
/// then the four record planes at 3 to 6 when records are captured, the escape map at 7 and the
/// blackbody table at 8 when the pipeline has them.
pub open spec fn trace_bindings(
    captures_records: bool,
    has_escape_map: bool,
    has_blackbody_lut: bool,
    uniform_bytes: u64,
) -> Seq<TraceBinding> {
    let base = seq![
        TraceBinding { binding: 0, kind: TraceBindingKind::Uniform { min_binding_size: uniform_bytes } },
        TraceBinding { binding: 1, kind: TraceBindingKind::OutputTexture },
        TraceBinding { binding: 2, kind: TraceBindingKind::Uniform { min_binding_size: TRACE_DISPATCH_BYTES } },
    ];
    let plane = |binding: u32|
        TraceBinding {
            binding,
            kind: TraceBindingKind::Storage { read_only: false, min_binding_size: TRACE_RECORD_PLANE_ELEMENT_SIZE },
        };
    let records = if captures_records {
        seq![plane(3), plane(4), plane(5), plane(6)]
    } else {
        Seq::empty()
    };
    let escape = if has_escape_map {
        seq![
            TraceBinding {
                binding: 7,
                kind: TraceBindingKind::Storage { read_only: false, min_binding_size: ESCAPE_MAP_NODE_BYTES },
            },
        ]
    } else {
        Seq::empty()
    };
    let lut = if has_blackbody_lut {
        seq![
            TraceBinding {
                binding: 8,
                kind: TraceBindingKind::Storage { read_only: true, min_binding_size: BLACKBODY_LUT_BYTE_SIZE },
            },
        ]
    } else {
        Seq::empty()
    };
    base + records + escape + lut
}

/// The binding numbers of a trace layout ascend strictly, so no two entries share a binding,
/// and the uniforms, output texture and tile dispatch always hold bindings 0, 1 and 2.
pub proof fn law_trace_bindings_are_distinct_and_ordered(
    captures_records: bool,
    has_escape_map: bool,
    has_blackbody_lut: bool,
    uniform_bytes: u64,
)
    ensures
        ({
            let bindings = trace_bindings(captures_records, has_escape_map, has_blackbody_lut, uniform_bytes);
            &&& bindings.len() >= 3
            &&& bindings[0].binding == 0 && bindings[1].binding == 1 && bindings[2].binding == 2
            &&& forall|i: int, j: int| 0 <= i < j < bindings.len() ==> bindings[i].binding < bindings[j].binding
        }),
{
    let bindings = trace_bindings(captures_records, has_escape_map, has_blackbody_lut, uniform_bytes);
    assert forall|i: int| 0 <= i < bindings.len() implies #[trigger] bindings[i].binding == binding_number(
        captures_records,
        has_escape_map,
        i,
    ) by {
        assert(bindings[i] == trace_bindings(captures_records, has_escape_map, has_blackbody_lut, uniform_bytes)[i]);
    }
    assert forall|i: int, j: int| 0 <= i < j < bindings.len() implies bindings[i].binding < bindings[j].binding by {
        assert(bindings[i].binding == binding_number(captures_records, has_escape_map, i));
        assert(bindings[j].binding == binding_number(captures_records, has_escape_map, j));
    }
}

/// What each binding of a trace layout holds: the uniforms at 0, the output texture at 1 and
/// the tile dispatch at 2; the record planes at 3 to 6, present exactly when records are
/// captured, and the escape map at 7, present exactly with an escape map, are storage the trace
/// passes write; the blackbody table at 8, present exactly with a table, is the one read-only
/// storage binding.
pub proof fn law_trace_binding_resources(
    captures_records: bool,
    has_escape_map: bool,
    has_blackbody_lut: bool,
    uniform_bytes: u64,
)
    ensures
        ({
            let bindings = trace_bindings(captures_records, has_escape_map, has_blackbody_lut, uniform_bytes);
            &&& bindings.len() == 3 + (if captures_records { 4int } else { 0 }) + (if has_escape_map { 1int } else { 0 })
                + (if has_blackbody_lut { 1int } else { 0 })
            &&& forall|i: int|
                0 <= i < bindings.len() ==> {
                    let b = #[trigger] bindings[i];
                    &&& b.binding == 0 ==> b.kind == TraceBindingKind::Uniform { min_binding_size: uniform_bytes }
                    &&& b.binding == 1 ==> b.kind == TraceBindingKind::OutputTexture
                    &&& b.binding == 2 ==> b.kind == TraceBindingKind::Uniform {
                        min_binding_size: TRACE_DISPATCH_BYTES,
                    }
                    &&& 3 <= b.binding <= 6 ==> captures_records && b.kind == TraceBindingKind::Storage {
                        read_only: false,
                        min_binding_size: TRACE_RECORD_PLANE_ELEMENT_SIZE,
                    }
                    &&& b.binding == 7 ==> has_escape_map && b.kind == TraceBindingKind::Storage {
                        read_only: false,
                        min_binding_size: ESCAPE_MAP_NODE_BYTES,
                    }
                    &&& b.binding == 8 ==> has_blackbody_lut && b.kind == TraceBindingKind::Storage {
                        read_only: true,
                        min_binding_size: BLACKBODY_LUT_BYTE_SIZE,
                    }
                    &&& b.binding <= 8
                    &&& (b.kind matches TraceBindingKind::Storage { read_only, .. } ==> (read_only <==> b.binding
                        == 8))
                }
            &&& captures_records ==> forall|k: int| 3 <= k <= 6 ==> #[trigger] bindings[k].binding == k
            &&& has_escape_map ==> exists|i: int| 0 <= i < bindings.len() && #[trigger] bindings[i].binding == 7
            &&& has_blackbody_lut ==> bindings[bindings.len() - 1].binding == 8
        }),
{
    let bindings = trace_bindings(captures_records, has_escape_map, has_blackbody_lut, uniform_bytes);
    let records = if captures_records { 4int } else { 0int };
    if has_escape_map {
        assert(bindings[3 + records].binding == 7);
    }
}

/// The binding number of entry `i` of a trace layout.
spec fn binding_number(captures_records: bool, has_escape_map: bool, i: int) -> int {
    let records = if captures_records { 4int } else { 0int };
    if i < 3 + records {
        i
    } else if has_escape_map && i == 3 + records {
        7
    } else {
        8
    }
}

/// The trace bind group layout entries for a target kind and the optional passes.
pub fn trace_bind_group_layout_entries(
    target_kind: TraceTargetKind,
    has_escape_map: bool,
    has_blackbody_lut: bool,
    uniform_bytes: u64,
) -> (entries: Vec<TraceBinding>)
    ensures
        entries@ == trace_bindings(target_kind is Diagnostic, has_escape_map, has_blackbody_lut, uniform_bytes),
{
    let mut entries = vec![
        TraceBinding { binding: 0, kind: TraceBindingKind::Uniform { min_binding_size: uniform_bytes } },
        TraceBinding { binding: 1, kind: TraceBindingKind::OutputTexture },
        TraceBinding { binding: 2, kind: TraceBindingKind::Uniform { min_binding_size: TRACE_DISPATCH_BYTES } },
    ];
    let ghost base = entries@;
    if target_kind.captures_records() {
        let mut binding: u32 = 3;
        while binding <= 6
            invariant
                3 <= binding <= 7,
                entries@ == base + Seq::new(
                    (binding - 3) as nat,
                    |i: int|
                        TraceBinding {
                            binding: (3 + i) as u32,
                            kind: TraceBindingKind::Storage {
                                read_only: false,
                                min_binding_size: TRACE_RECORD_PLANE_ELEMENT_SIZE,
                            },
                        },
                ),
            decreases 7 - binding,
        {
            entries.push(
                TraceBinding {
                    binding,
                    kind: TraceBindingKind::Storage { read_only: false, min_binding_size: TRACE_RECORD_PLANE_ELEMENT_SIZE },
                },
            );
            binding = binding + 1;
        }
    }
    let ghost with_records = entries@;
    if has_escape_map {
        entries.push(
            TraceBinding {
                binding: 7,
                kind: TraceBindingKind::Storage { read_only: false, min_binding_size: ESCAPE_MAP_NODE_BYTES },
            },
        );
    }
    let ghost with_escape = entries@;
    if has_blackbody_lut {
        entries.push(
            TraceBinding {
                binding: 8,
                kind: TraceBindingKind::Storage { read_only: true, min_binding_size: BLACKBODY_LUT_BYTE_SIZE },
            },
        );
    }
    assert(entries@ =~= trace_bindings(target_kind is Diagnostic, has_escape_map, has_blackbody_lut, uniform_bytes));
    entries
}

/// Whether a trace batch also runs the shadow refinement: only a pipeline with refinement, when
/// refinement is asked for, and only on the batch that finishes the extent.
pub fn refines_batch(has_shadow_refinement: bool, refine_final_batch: bool, tiles: TileRegion, extent: RenderExtent) -> (refines: bool)
    ensures
        refines == (has_shadow_refinement && refine_final_batch && finishes_grid(tiles@, grid_of(extent@))),
{
    has_shadow_refinement && refine_final_batch && tiles.finishes(extent)
}

/// The workgroups of the shadow classification pass (one per 8x8 pixels) and of the refinement
/// pass (one per 64 edge pixels of capacity).
pub fn shadow_dispatch(extent: RenderExtent, capacity: u32) -> (workgroups: ([u32; 2], u32))
    ensures
        workgroups.0[0] == div_ceil(extent@.0 as int, 8),
        workgroups.0[1] == div_ceil(extent@.1 as int, 8),
        workgroups.1 == div_ceil(capacity as int, 64),
{
    let width = extent.width();
    let height = extent.height();
    let x = width / CLASSIFY_WORKGROUP_AXIS + if width % CLASSIFY_WORKGROUP_AXIS == 0 { 0 } else { 1 };
    let y = height / CLASSIFY_WORKGROUP_AXIS + if height % CLASSIFY_WORKGROUP_AXIS == 0 { 0 } else { 1 };
    let refine = capacity / REFINE_WORKGROUP_WIDTH + if capacity % REFINE_WORKGROUP_WIDTH == 0 { 0 } else { 1 };
    ([x, y], refine)
}

/// Compute workgroups covering an extent at 8x8 pixels each.
#[derive(Clone, Copy, Debug, PartialEq, Eq, Structural)]
pub struct DispatchGrid {
    x: u32,
    y: u32,
}

impl DispatchGrid {
    pub closed spec fn spec_x(self) -> u32 {
        self.x
    }

    pub closed spec fn spec_y(self) -> u32 {
        self.y
    }

    pub fn for_extent(extent: RenderExtent) -> (grid: Self)
        ensures
            grid.spec_x() == div_ceil(extent@.0 as int, 8),
            grid.spec_y() == div_ceil(extent@.1 as int, 8),
    {
        let width = extent.width();
        let height = extent.height();
        DispatchGrid {
            x: width / 8 + if width % 8 == 0 { 0 } else { 1 },
            y: height / 8 + if height % 8 == 0 { 0 } else { 1 },
        }
    }

    pub fn x(self) -> (x: u32)
        ensures
            x == self.spec_x(),
    {
        self.x
    }

    pub fn y(self) -> (y: u32)
        ensures
            y == self.spec_y(),
    {
        self.y
    }
}

} // verus!
