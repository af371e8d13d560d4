//! Ordered WGSL composition of the trace programs: every program is the trace core followed by
//! its own fragments, joined by single newlines.

use vstd::prelude::*;
use vstd::string::StringExecFns;

verus! {

/// One WGSL source fragment.
#[derive(Clone, Copy, Debug, PartialEq, Eq, Structural)]
pub enum ShaderFragment {
    TraceProtocol,
    KerrSchildDynamics,
    GeodesicEvents,
    GeodesicIntegration,
    LensingPreview,
    GeodesicAcceleration,
    ShadowCoverage,
    SurfaceTransport,
    BolometricSurfacePreview,
    BlackbodySurfacePreview,
    SampleInspection,
    AnalyticSampleInspection,
    SurfaceSampleInspection,
    TraceCapture,
    SurfaceTraceCapture,
    SurfaceFootprintCapture,
    AcceleratedTraceCapture,
    InitialRayCapture,
    InvariantGateCapture,
    EventPolicyCapture,
}

/// Number of distinct fragments.
pub const FRAGMENT_COUNT: usize = 20;

/// The position of a fragment in a [`ShaderLibrary`].
pub open spec fn fragment_index(fragment: ShaderFragment) -> int {
    match fragment {
        ShaderFragment::TraceProtocol => 0,
        ShaderFragment::KerrSchildDynamics => 1,
        ShaderFragment::GeodesicEvents => 2,
        ShaderFragment::GeodesicIntegration => 3,
        ShaderFragment::LensingPreview => 4,
        ShaderFragment::GeodesicAcceleration => 5,
        ShaderFragment::ShadowCoverage => 6,
        ShaderFragment::SurfaceTransport => 7,
        ShaderFragment::BolometricSurfacePreview => 8,
        ShaderFragment::BlackbodySurfacePreview => 9,
        ShaderFragment::SampleInspection => 10,
        ShaderFragment::AnalyticSampleInspection => 11,
        ShaderFragment::SurfaceSampleInspection => 12,
        ShaderFragment::TraceCapture => 13,
        ShaderFragment::SurfaceTraceCapture => 14,
        ShaderFragment::SurfaceFootprintCapture => 15,
        ShaderFragment::AcceleratedTraceCapture => 16,
        ShaderFragment::InitialRayCapture => 17,
        ShaderFragment::InvariantGateCapture => 18,
        ShaderFragment::EventPolicyCapture => 19,
    }
}

pub fn fragment_position(fragment: ShaderFragment) -> (index: usize)
    ensures
        index == fragment_index(fragment),
{
    match fragment {
        ShaderFragment::TraceProtocol => 0,
        ShaderFragment::KerrSchildDynamics => 1,
        ShaderFragment::GeodesicEvents => 2,
        ShaderFragment::GeodesicIntegration => 3,
        ShaderFragment::LensingPreview => 4,
        ShaderFragment::GeodesicAcceleration => 5,
        ShaderFragment::ShadowCoverage => 6,
        ShaderFragment::SurfaceTransport => 7,
        ShaderFragment::BolometricSurfacePreview => 8,
        ShaderFragment::BlackbodySurfacePreview => 9,
        ShaderFragment::SampleInspection => 10,
        ShaderFragment::AnalyticSampleInspection => 11,
        ShaderFragment::SurfaceSampleInspection => 12,
        ShaderFragment::TraceCapture => 13,
        ShaderFragment::SurfaceTraceCapture => 14,
        ShaderFragment::SurfaceFootprintCapture => 15,
        ShaderFragment::AcceleratedTraceCapture => 16,
        ShaderFragment::InitialRayCapture => 17,
        ShaderFragment::InvariantGateCapture => 18,
        ShaderFragment::EventPolicyCapture => 19,
    }
}

/// The fragments every trace program starts with.
pub open spec fn trace_core() -> Seq<ShaderFragment> {
    seq![
        ShaderFragment::TraceProtocol,
        ShaderFragment::KerrSchildDynamics,
        ShaderFragment::GeodesicEvents,
        ShaderFragment::GeodesicIntegration,
    ]
}

/// The sources joined in order, with a newline before each fragment that follows nonempty text.
pub open spec fn assembled(parts: Seq<Seq<char>>) -> Seq<char>
    decreases parts.len(),
{
    if parts.len() == 0 {
        Seq::empty()
    } else {
        let before = assembled(parts.drop_last());
        if before.len() == 0 {
            parts.last()
        } else {
            before + seq!['\n'] + parts.last()
        }
    }
}

/// The WGSL text of every fragment.
pub struct ShaderLibrary {
    sources: Vec<String>,
}

impl ShaderLibrary {
    pub closed spec fn source_spec(&self, fragment: ShaderFragment) -> Seq<char> {
        self.sources@[fragment_index(fragment)]@
    }

    #[verifier::type_invariant]
    closed spec fn complete(&self) -> bool {
        self.sources@.len() == FRAGMENT_COUNT
    }

    /// A library from the fragment sources in [`ShaderFragment`] order; `None` unless there is
    /// exactly one source per fragment.
    pub fn new(sources: Vec<String>) -> (library: Option<Self>)
        ensures
            library is Some <==> sources@.len() == FRAGMENT_COUNT,
            library matches Some(l) ==> forall|f: ShaderFragment| #[trigger] l.source_spec(f)
                == sources@[fragment_index(f)]@,
    {
        if sources.len() != FRAGMENT_COUNT {
            return None;
        }
        Some(ShaderLibrary { sources })
    }

    pub fn source(&self, fragment: ShaderFragment) -> (source: &str)
        ensures
            source@ == self.source_spec(fragment),
    {
        proof {
            use_type_invariant(self);
        }
        self.sources[fragment_position(fragment)].as_str()
    }

    /// The sources of `fragments`, in order.
    pub open spec fn sources_of(&self, fragments: Seq<ShaderFragment>) -> Seq<Seq<char>> {
        fragments.map_values(|f: ShaderFragment| self.source_spec(f))
    }

    fn append_fragment(&self, source: &mut String, fragment: ShaderFragment, Ghost(parts): Ghost<Seq<Seq<char>>>)
        requires
            old(source)@ == assembled(parts),
        ensures
            final(source)@ == assembled(parts.push(self.source_spec(fragment))),
    {
        let text = self.source(fragment);
        if !source.as_str().is_empty() {
            source.append("\n");
        }
        source.append(text);
        proof {
            reveal_strlit("\n");
            assert(parts.push(self.source_spec(fragment)).drop_last() =~= parts);
        }
    }

    /// The trace core followed by `suffix`, assembled.
    pub fn assemble(&self, suffix: &[ShaderFragment]) -> (source: String)
        ensures
            source@ == assembled(self.sources_of(trace_core() + suffix@)),
    {
        let core = [
            ShaderFragment::TraceProtocol,
            ShaderFragment::KerrSchildDynamics,
            ShaderFragment::GeodesicEvents,
            ShaderFragment::GeodesicIntegration,
        ];
        assert(core@ =~= trace_core());
        let mut source = String::new();
        let mut index: usize = 0;
        proof {
            assert(self.sources_of(trace_core().subrange(0, 0)) =~= Seq::<Seq<char>>::empty());
        }
        while index < 4
            invariant
                core@ == trace_core(),
                index <= 4,
                source@ == assembled(self.sources_of(trace_core().subrange(0, index as int))),
            decreases 4 - index,
        {
            let fragment = core[index];
            self.append_fragment(&mut source, fragment, Ghost(self.sources_of(trace_core().subrange(0, index as int))));
            proof {
                assert(self.sources_of(trace_core().subrange(0, index + 1)) =~= self.sources_of(
                    trace_core().subrange(0, index as int),
                ).push(self.source_spec(fragment)));
            }
            index = index + 1;
        }
        let mut next: usize = 0;
        proof {
            assert((trace_core() + suffix@).subrange(0, 4) =~= trace_core().subrange(0, 4));
        }
        while next < suffix.len()
            invariant
                next <= suffix@.len(),
                source@ == assembled(self.sources_of((trace_core() + suffix@).subrange(0, 4 + next))),
            decreases suffix@.len() - next,
        {
            let fragment = suffix[next];
            self.append_fragment(
                &mut source,
                fragment,
                Ghost(self.sources_of((trace_core() + suffix@).subrange(0, 4 + next))),
            );
            proof {
                assert(self.sources_of((trace_core() + suffix@).subrange(0, 4 + next + 1)) =~= self.sources_of(
                    (trace_core() + suffix@).subrange(0, 4 + next),
                ).push(self.source_spec(fragment)));
            }
            next = next + 1;
        }
        assert((trace_core() + suffix@).subrange(0, 4 + suffix@.len() as int) =~= trace_core() + suffix@);
        source
    }

    /// The source of `program`: the trace core followed by the program's own fragments.
    pub open spec fn program_spec(&self, program: ShaderProgram) -> Seq<char> {
        assembled(self.sources_of(trace_core() + program_suffix(program)))
    }

    pub fn program_source(&self, program: ShaderProgram) -> (source: String)
        ensures
            source@ == self.program_spec(program),
    {
        let suffix = suffix_of(program);
        self.assemble(suffix.as_slice())
    }

    /// The accelerated analytic-sky scene.
    pub fn accelerated_scene(&self) -> (source: String)
        ensures
            source@ == self.program_spec(ShaderProgram::AcceleratedScene),
    {
        self.program_source(ShaderProgram::AcceleratedScene)
    }

    /// The bolometric equatorial-surface scene.
    pub fn bolometric_surface_scene(&self) -> (source: String)
        ensures
            source@ == self.program_spec(ShaderProgram::BolometricSurfaceScene),
    {
        self.program_source(ShaderProgram::BolometricSurfaceScene)
    }

    /// The blackbody equatorial-surface scene.
    pub fn blackbody_surface_scene(&self) -> (source: String)
        ensures
            source@ == self.program_spec(ShaderProgram::BlackbodySurfaceScene),
    {
        self.program_source(ShaderProgram::BlackbodySurfaceScene)
    }

    /// Per-sample inspection of the analytic sky.
    pub fn analytic_sample_inspection(&self) -> (source: String)
        ensures
            source@ == self.program_spec(ShaderProgram::AnalyticSampleInspection),
    {
        self.program_source(ShaderProgram::AnalyticSampleInspection)
    }

    /// Per-sample inspection of the bolometric surface.
    pub fn bolometric_sample_inspection(&self) -> (source: String)
        ensures
            source@ == self.program_spec(ShaderProgram::BolometricSampleInspection),
    {
        self.program_source(ShaderProgram::BolometricSampleInspection)
    }

    /// Per-sample inspection of the blackbody surface.
    pub fn blackbody_sample_inspection(&self) -> (source: String)
        ensures
            source@ == self.program_spec(ShaderProgram::BlackbodySampleInspection),
    {
        self.program_source(ShaderProgram::BlackbodySampleInspection)
    }

    /// The shadow-coverage refinement pass.
    pub fn shadow_coverage(&self) -> (source: String)
        ensures
            source@ == self.program_spec(ShaderProgram::ShadowCoverage),
    {
        self.program_source(ShaderProgram::ShadowCoverage)
    }

    /// Record capture of the analytic-sky trace.
    pub fn trace_capture(&self) -> (source: String)
        ensures
            source@ == self.program_spec(ShaderProgram::TraceCapture),
    {
        self.program_source(ShaderProgram::TraceCapture)
    }

    /// Record capture of the bolometric surface trace.
    pub fn bolometric_surface_capture(&self) -> (source: String)
        ensures
            source@ == self.program_spec(ShaderProgram::BolometricSurfaceCapture),
    {
        self.program_source(ShaderProgram::BolometricSurfaceCapture)
    }

    /// Record capture of the blackbody surface trace.
    pub fn blackbody_surface_capture(&self) -> (source: String)
        ensures
            source@ == self.program_spec(ShaderProgram::BlackbodySurfaceCapture),
    {
        self.program_source(ShaderProgram::BlackbodySurfaceCapture)
    }

    /// Footprint capture of the bolometric surface.
    pub fn bolometric_surface_footprint_capture(&self) -> (source: String)
        ensures
            source@ == self.program_spec(ShaderProgram::BolometricSurfaceFootprintCapture),
    {
        self.program_source(ShaderProgram::BolometricSurfaceFootprintCapture)
    }

    /// Footprint capture of the blackbody surface.
    pub fn blackbody_surface_footprint_capture(&self) -> (source: String)
        ensures
            source@ == self.program_spec(ShaderProgram::BlackbodySurfaceFootprintCapture),
    {
        self.program_source(ShaderProgram::BlackbodySurfaceFootprintCapture)
    }

    /// Record capture of the accelerated trace.
    pub fn accelerated_capture(&self) -> (source: String)
        ensures
            source@ == self.program_spec(ShaderProgram::AcceleratedCapture),
    {
        self.program_source(ShaderProgram::AcceleratedCapture)
    }

    /// Capture of the initial rays.
    pub fn initial_ray_capture(&self) -> (source: String)
        ensures
            source@ == self.program_spec(ShaderProgram::InitialRayCapture),
    {
        self.program_source(ShaderProgram::InitialRayCapture)
    }

    /// Capture of the invariant gate.
    pub fn invariant_gate_capture(&self) -> (source: String)
        ensures
            source@ == self.program_spec(ShaderProgram::InvariantGateCapture),
    {
        self.program_source(ShaderProgram::InvariantGateCapture)
    }

    /// Capture of the event policy.
    pub fn event_policy_capture(&self) -> (source: String)
        ensures
            source@ == self.program_spec(ShaderProgram::EventPolicyCapture),
    {
        self.program_source(ShaderProgram::EventPolicyCapture)
    }
}

/// A composed trace program.
#[derive(Clone, Copy, Debug, PartialEq, Eq, Structural)]
pub enum ShaderProgram {
    AcceleratedScene,
    BolometricSurfaceScene,
    BlackbodySurfaceScene,
    AnalyticSampleInspection,
    BolometricSampleInspection,
    BlackbodySampleInspection,
    ShadowCoverage,
    TraceCapture,
    BolometricSurfaceCapture,
    BlackbodySurfaceCapture,
    BolometricSurfaceFootprintCapture,
    BlackbodySurfaceFootprintCapture,
    AcceleratedCapture,
    InitialRayCapture,
    InvariantGateCapture,
    EventPolicyCapture,
}

/// The fragments a program adds after the trace core.
pub open spec fn program_suffix(program: ShaderProgram) -> Seq<ShaderFragment> {
    match program {
        ShaderProgram::AcceleratedScene => seq![ShaderFragment::LensingPreview, ShaderFragment::GeodesicAcceleration],
        ShaderProgram::BolometricSurfaceScene => seq![ShaderFragment::LensingPreview, ShaderFragment::SurfaceTransport, ShaderFragment::BolometricSurfacePreview],
        ShaderProgram::BlackbodySurfaceScene => seq![ShaderFragment::LensingPreview, ShaderFragment::SurfaceTransport, ShaderFragment::BlackbodySurfacePreview],
        ShaderProgram::AnalyticSampleInspection => seq![ShaderFragment::LensingPreview, ShaderFragment::SampleInspection, ShaderFragment::AnalyticSampleInspection],
        ShaderProgram::BolometricSampleInspection => seq![ShaderFragment::LensingPreview, ShaderFragment::SurfaceTransport, ShaderFragment::BolometricSurfacePreview, ShaderFragment::SampleInspection, ShaderFragment::SurfaceSampleInspection],
        ShaderProgram::BlackbodySampleInspection => seq![ShaderFragment::LensingPreview, ShaderFragment::SurfaceTransport, ShaderFragment::BlackbodySurfacePreview, ShaderFragment::SampleInspection, ShaderFragment::SurfaceSampleInspection],
        ShaderProgram::ShadowCoverage => seq![ShaderFragment::LensingPreview, ShaderFragment::GeodesicAcceleration, ShaderFragment::ShadowCoverage],
        ShaderProgram::TraceCapture => seq![ShaderFragment::LensingPreview, ShaderFragment::TraceCapture],
        ShaderProgram::BolometricSurfaceCapture => seq![ShaderFragment::LensingPreview, ShaderFragment::TraceCapture, ShaderFragment::SurfaceTransport, ShaderFragment::BolometricSurfacePreview, ShaderFragment::SurfaceTraceCapture],
        ShaderProgram::BlackbodySurfaceCapture => seq![ShaderFragment::LensingPreview, ShaderFragment::TraceCapture, ShaderFragment::SurfaceTransport, ShaderFragment::BlackbodySurfacePreview, ShaderFragment::SurfaceTraceCapture],
        ShaderProgram::BolometricSurfaceFootprintCapture => seq![ShaderFragment::LensingPreview, ShaderFragment::TraceCapture, ShaderFragment::SurfaceTransport, ShaderFragment::BolometricSurfacePreview, ShaderFragment::SurfaceFootprintCapture],
        ShaderProgram::BlackbodySurfaceFootprintCapture => seq![ShaderFragment::LensingPreview, ShaderFragment::TraceCapture, ShaderFragment::SurfaceTransport, ShaderFragment::BlackbodySurfacePreview, ShaderFragment::SurfaceFootprintCapture],
        ShaderProgram::AcceleratedCapture => seq![ShaderFragment::LensingPreview, ShaderFragment::TraceCapture, ShaderFragment::GeodesicAcceleration, ShaderFragment::AcceleratedTraceCapture],
        ShaderProgram::InitialRayCapture => seq![ShaderFragment::LensingPreview, ShaderFragment::TraceCapture, ShaderFragment::InitialRayCapture],
        ShaderProgram::InvariantGateCapture => seq![ShaderFragment::LensingPreview, ShaderFragment::TraceCapture, ShaderFragment::InvariantGateCapture],
        ShaderProgram::EventPolicyCapture => seq![ShaderFragment::LensingPreview, ShaderFragment::TraceCapture, ShaderFragment::EventPolicyCapture],
    }
}

pub fn suffix_of(program: ShaderProgram) -> (suffix: Vec<ShaderFragment>)
    ensures
        suffix@ == program_suffix(program),
{
    let suffix = match program {
        ShaderProgram::AcceleratedScene => vec![ShaderFragment::LensingPreview, ShaderFragment::GeodesicAcceleration],
        ShaderProgram::BolometricSurfaceScene => vec![ShaderFragment::LensingPreview, ShaderFragment::SurfaceTransport, ShaderFragment::BolometricSurfacePreview],
        ShaderProgram::BlackbodySurfaceScene => vec![ShaderFragment::LensingPreview, ShaderFragment::SurfaceTransport, ShaderFragment::BlackbodySurfacePreview],
        ShaderProgram::AnalyticSampleInspection => vec![ShaderFragment::LensingPreview, ShaderFragment::SampleInspection, ShaderFragment::AnalyticSampleInspection],
        ShaderProgram::BolometricSampleInspection => vec![ShaderFragment::LensingPreview, ShaderFragment::SurfaceTransport, ShaderFragment::BolometricSurfacePreview, ShaderFragment::SampleInspection, ShaderFragment::SurfaceSampleInspection],
        ShaderProgram::BlackbodySampleInspection => vec![ShaderFragment::LensingPreview, ShaderFragment::SurfaceTransport, ShaderFragment::BlackbodySurfacePreview, ShaderFragment::SampleInspection, ShaderFragment::SurfaceSampleInspection],
        ShaderProgram::ShadowCoverage => vec![ShaderFragment::LensingPreview, ShaderFragment::GeodesicAcceleration, ShaderFragment::ShadowCoverage],
        ShaderProgram::TraceCapture => vec![ShaderFragment::LensingPreview, ShaderFragment::TraceCapture],
        ShaderProgram::BolometricSurfaceCapture => vec![ShaderFragment::LensingPreview, ShaderFragment::TraceCapture, ShaderFragment::SurfaceTransport, ShaderFragment::BolometricSurfacePreview, ShaderFragment::SurfaceTraceCapture],
        ShaderProgram::BlackbodySurfaceCapture => vec![ShaderFragment::LensingPreview, ShaderFragment::TraceCapture, ShaderFragment::SurfaceTransport, ShaderFragment::BlackbodySurfacePreview, ShaderFragment::SurfaceTraceCapture],
        ShaderProgram::BolometricSurfaceFootprintCapture => vec![ShaderFragment::LensingPreview, ShaderFragment::TraceCapture, ShaderFragment::SurfaceTransport, ShaderFragment::BolometricSurfacePreview, ShaderFragment::SurfaceFootprintCapture],
        ShaderProgram::BlackbodySurfaceFootprintCapture => vec![ShaderFragment::LensingPreview, ShaderFragment::TraceCapture, ShaderFragment::SurfaceTransport, ShaderFragment::BlackbodySurfacePreview, ShaderFragment::SurfaceFootprintCapture],
        ShaderProgram::AcceleratedCapture => vec![ShaderFragment::LensingPreview, ShaderFragment::TraceCapture, ShaderFragment::GeodesicAcceleration, ShaderFragment::AcceleratedTraceCapture],
        ShaderProgram::InitialRayCapture => vec![ShaderFragment::LensingPreview, ShaderFragment::TraceCapture, ShaderFragment::InitialRayCapture],
        ShaderProgram::InvariantGateCapture => vec![ShaderFragment::LensingPreview, ShaderFragment::TraceCapture, ShaderFragment::InvariantGateCapture],
        ShaderProgram::EventPolicyCapture => vec![ShaderFragment::LensingPreview, ShaderFragment::TraceCapture, ShaderFragment::EventPolicyCapture],
    };
    assert(suffix@ =~= program_suffix(program));
    suffix
}


/// The stage of a fragment in a program: lensing first, then the capture records, geodesic
/// acceleration, surface transport, the surface emission preview, sample inspection, and last
/// the program's own entry fragment.
pub open spec fn fragment_stage(fragment: ShaderFragment) -> int {
    match fragment {
        ShaderFragment::TraceProtocol => 0,
        ShaderFragment::KerrSchildDynamics => 0,
        ShaderFragment::GeodesicEvents => 0,
        ShaderFragment::GeodesicIntegration => 0,
        ShaderFragment::LensingPreview => 1,
        ShaderFragment::TraceCapture => 2,
        ShaderFragment::GeodesicAcceleration => 3,
        ShaderFragment::SurfaceTransport => 4,
        ShaderFragment::BolometricSurfacePreview => 5,
        ShaderFragment::BlackbodySurfacePreview => 5,
        ShaderFragment::SampleInspection => 6,
        _ => 7,
    }
}

/// The programs that preview bolometric surface emission.
pub open spec fn emits_bolometric(program: ShaderProgram) -> bool {
    ||| program is BolometricSurfaceScene
    ||| program is BolometricSampleInspection
    ||| program is BolometricSurfaceCapture
    ||| program is BolometricSurfaceFootprintCapture
}

/// The programs that preview blackbody surface emission.
pub open spec fn emits_blackbody(program: ShaderProgram) -> bool {
    ||| program is BlackbodySurfaceScene
    ||| program is BlackbodySampleInspection
    ||| program is BlackbodySurfaceCapture
    ||| program is BlackbodySurfaceFootprintCapture
}

/// The programs that integrate with geodesic acceleration.
pub open spec fn is_accelerated(program: ShaderProgram) -> bool {
    program is AcceleratedScene || program is ShadowCoverage || program is AcceleratedCapture
}

/// The sample-inspection programs.
pub open spec fn is_inspection(program: ShaderProgram) -> bool {
    program is AnalyticSampleInspection || program is BolometricSampleInspection || program is BlackbodySampleInspection
}

/// The trace-capture programs.
pub open spec fn is_capture(program: ShaderProgram) -> bool {
    ||| program is TraceCapture
    ||| program is BolometricSurfaceCapture
    ||| program is BlackbodySurfaceCapture
    ||| program is BolometricSurfaceFootprintCapture
    ||| program is BlackbodySurfaceFootprintCapture
    ||| program is AcceleratedCapture
    ||| program is InitialRayCapture
    ||| program is InvariantGateCapture
    ||| program is EventPolicyCapture
}

/// Whether a program is composed after what its name says: every program starts with the lensing
/// preview and never holds the trace core; a bolometric program has the bolometric preview and
/// no blackbody one and conversely, and exactly the surface programs have surface transport;
/// acceleration, sample inspection and trace capture occur in exactly the programs named for
/// them; each program-specific entry fragment occurs in exactly its programs; and its fragments
/// come in strictly increasing stage order, so none repeats and the list is fixed by which
/// fragments occur.
pub open spec fn composed_as_named(program: ShaderProgram) -> bool {
    let s = program_suffix(program);
    &&& s.len() >= 2 && s[0] == ShaderFragment::LensingPreview
    &&& forall|i: int, j: int| 0 <= i < j < s.len() ==> fragment_stage(s[i]) < fragment_stage(s[j])
    &&& !s.contains(ShaderFragment::TraceProtocol)
    &&& !s.contains(ShaderFragment::KerrSchildDynamics)
    &&& !s.contains(ShaderFragment::GeodesicEvents)
    &&& !s.contains(ShaderFragment::GeodesicIntegration)
    &&& s.contains(ShaderFragment::LensingPreview)
    &&& s.contains(ShaderFragment::BolometricSurfacePreview) == emits_bolometric(program)
    &&& s.contains(ShaderFragment::BlackbodySurfacePreview) == emits_blackbody(program)
    &&& s.contains(ShaderFragment::SurfaceTransport) == (emits_bolometric(program) || emits_blackbody(program))
    &&& s.contains(ShaderFragment::GeodesicAcceleration) == is_accelerated(program)
    &&& s.contains(ShaderFragment::SampleInspection) == is_inspection(program)
    &&& s.contains(ShaderFragment::TraceCapture) == is_capture(program)
    &&& s.contains(ShaderFragment::ShadowCoverage) == (program is ShadowCoverage)
    &&& s.contains(ShaderFragment::AnalyticSampleInspection) == (program is AnalyticSampleInspection)
    &&& s.contains(ShaderFragment::SurfaceSampleInspection) == (program is BolometricSampleInspection || program is BlackbodySampleInspection)
    &&& s.contains(ShaderFragment::SurfaceTraceCapture) == (program is BolometricSurfaceCapture || program is BlackbodySurfaceCapture)
    &&& s.contains(ShaderFragment::SurfaceFootprintCapture) == (program is BolometricSurfaceFootprintCapture || program is BlackbodySurfaceFootprintCapture)
    &&& s.contains(ShaderFragment::AcceleratedTraceCapture) == (program is AcceleratedCapture)
    &&& s.contains(ShaderFragment::InitialRayCapture) == (program is InitialRayCapture)
    &&& s.contains(ShaderFragment::InvariantGateCapture) == (program is InvariantGateCapture)
    &&& s.contains(ShaderFragment::EventPolicyCapture) == (program is EventPolicyCapture)
}

/// Every program is composed as [`composed_as_named`] says: its fragments are the ones its name
/// calls for, in stage order.
pub proof fn law_programs_are_composed_as_named(program: ShaderProgram)
    ensures
        composed_as_named(program),
{
    broadcast use vstd::seq_lib::lemma_seq_contains_after_push, vstd::seq_lib::lemma_seq_empty_contains_nothing;

    match program {
        ShaderProgram::AcceleratedScene => assert(composed_as_named(ShaderProgram::AcceleratedScene)),
        ShaderProgram::BolometricSurfaceScene => assert(composed_as_named(ShaderProgram::BolometricSurfaceScene)),
        ShaderProgram::BlackbodySurfaceScene => assert(composed_as_named(ShaderProgram::BlackbodySurfaceScene)),
        ShaderProgram::AnalyticSampleInspection => assert(composed_as_named(ShaderProgram::AnalyticSampleInspection)),
        ShaderProgram::BolometricSampleInspection => assert(composed_as_named(ShaderProgram::BolometricSampleInspection)),
        ShaderProgram::BlackbodySampleInspection => assert(composed_as_named(ShaderProgram::BlackbodySampleInspection)),
        ShaderProgram::ShadowCoverage => assert(composed_as_named(ShaderProgram::ShadowCoverage)),
        ShaderProgram::TraceCapture => assert(composed_as_named(ShaderProgram::TraceCapture)),
        ShaderProgram::BolometricSurfaceCapture => assert(composed_as_named(ShaderProgram::BolometricSurfaceCapture)),
        ShaderProgram::BlackbodySurfaceCapture => assert(composed_as_named(ShaderProgram::BlackbodySurfaceCapture)),
        ShaderProgram::BolometricSurfaceFootprintCapture => assert(composed_as_named(ShaderProgram::BolometricSurfaceFootprintCapture)),
        ShaderProgram::BlackbodySurfaceFootprintCapture => assert(composed_as_named(ShaderProgram::BlackbodySurfaceFootprintCapture)),
        ShaderProgram::AcceleratedCapture => assert(composed_as_named(ShaderProgram::AcceleratedCapture)),
        ShaderProgram::InitialRayCapture => assert(composed_as_named(ShaderProgram::InitialRayCapture)),
        ShaderProgram::InvariantGateCapture => assert(composed_as_named(ShaderProgram::InvariantGateCapture)),
        ShaderProgram::EventPolicyCapture => assert(composed_as_named(ShaderProgram::EventPolicyCapture)),
    }
}

} // verus!
