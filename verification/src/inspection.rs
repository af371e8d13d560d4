//! Single-sample inspection: admission of one request at a time, cancellation by generation,
//! and the integer part of the inspection record protocol.

use vstd::prelude::*;

use crate::capture::{ScientificTexel, texel_at};
use crate::extent::RenderExtent;
use crate::tiles::{TraceTermination, termination_code, termination_from_code};

verus! {

/// Bytes of the GPU inspection record: six lanes of four 32-bit words.
pub const INSPECTION_RECORD_BYTES: u64 = 96;

/// Offset of the published texel copied behind the record.
pub const PUBLISHED_TEXEL_OFFSET: u64 = 96;

/// Bytes of the inspection readback: the record followed by one `Rgba16Float` texel.
pub const INSPECTION_READBACK_BYTES: u64 = 104;

/// Bytes of the inspection request uniform.
pub const INSPECTION_REQUEST_BYTES: u64 = 32;

pub const KNOWN_NUMERICAL_FLAGS: u32 = 7;
pub const EVENT_CANDIDATE_SINGULARITY: u32 = 1;
pub const EVENT_CANDIDATE_HORIZON: u32 = 2;
pub const EVENT_CANDIDATE_SURFACE: u32 = 4;
pub const EVENT_CANDIDATE_ESCAPE: u32 = 8;
pub const KNOWN_EVENT_CANDIDATES: u32 = 15;

/// binary32 bit patterns of the scene-value tags: `0.0`, `1.0`, `2.0`, `-3.0`, `-4.0`, `-5.0`,
/// `-6.0`.
pub const HORIZON_TAG: u32 = 0x0000_0000;
pub const ANALYTIC_ESCAPE_TAG: u32 = 0x3f80_0000;
pub const SURFACE_RADIANCE_TAG: u32 = 0x4000_0000;
pub const SINGULARITY_FAILURE_TAG: u32 = 0xc040_0000;
pub const STEP_EXHAUSTION_FAILURE_TAG: u32 = 0xc080_0000;
pub const NUMERICAL_FAILURE_TAG: u32 = 0xc0a0_0000;
pub const UNCERTAIN_FAILURE_TAG: u32 = 0xc0c0_0000;

/// Why an inspection could not be decoded or finished.
#[derive(Clone, Copy, Debug, PartialEq, Eq)]
pub enum SampleInspectionError {
    UnknownTermination(u32),
    UnknownPolarSide(u32),
    InvalidRecord { field: &'static str },
    MapFailed,
    MappedRange,
    CallbackDisconnected,
    InvalidReadback,
}

/// Why an inspection request was not admitted.
#[derive(Clone, Copy, Debug, PartialEq, Eq)]
pub enum SampleInspectionRequestError {
    NoCurrentPublication,
    SampleOutsideExtent { pixel: [u32; 2], extent: [u32; 2] },
    Busy,
}

/// The pole a ray started toward.
#[derive(Clone, Copy, Debug, PartialEq, Eq, Structural)]
pub enum SamplePolarSide {
    Negative,
    Equatorial,
    Positive,
}

/// The discrete path class of a traced ray.
#[derive(Clone, Copy, Debug, PartialEq, Eq, Structural)]
pub struct SampleBranchKey {
    pub initial_polar_side: SamplePolarSide,
    pub radial_turnings: u32,
    pub equatorial_crossings: u32,
    pub azimuth_winding: i32,
}

impl SampleBranchKey {
    pub fn initial_polar_side(self) -> (side: SamplePolarSide)
        ensures
            side == self.initial_polar_side,
    {
        self.initial_polar_side
    }

    pub fn radial_turnings(self) -> (turnings: u32)
        ensures
            turnings == self.radial_turnings,
    {
        self.radial_turnings
    }

    pub fn equatorial_crossings(self) -> (crossings: u32)
        ensures
            crossings == self.equatorial_crossings,
    {
        self.equatorial_crossings
    }

    pub fn azimuth_winding(self) -> (winding: i32)
        ensures
            winding == self.azimuth_winding,
    {
        self.azimuth_winding
    }
}

/// The producer table: which failure flags and event candidates each termination writes.
pub open spec fn terminal_diagnostics_valid(termination: TraceTermination, numerical_flags: u32, event_candidates: u32) -> bool {
    match termination {
        TraceTermination::HorizonCrossing => numerical_flags == 0 && event_candidates == EVENT_CANDIDATE_HORIZON,
        TraceTermination::Escape => numerical_flags == 0 && event_candidates == EVENT_CANDIDATE_ESCAPE,
        TraceTermination::SingularityGuard => numerical_flags == 0 && event_candidates == EVENT_CANDIDATE_SINGULARITY,
        TraceTermination::StepExhaustion => numerical_flags == 0 && event_candidates == 0,
        TraceTermination::NumericalFailure => numerical_flags != 0 && event_candidates == 0,
        TraceTermination::Uncertain => numerical_flags == 0 && event_candidates != 0,
        TraceTermination::EquatorialSurface => numerical_flags == 0 && event_candidates == EVENT_CANDIDATE_SURFACE,
    }
}

pub fn validate_terminal_diagnostics(termination: TraceTermination, numerical_flags: u32, event_candidates: u32) -> (result:
    Result<(), SampleInspectionError>)
    ensures
        result is Ok <==> terminal_diagnostics_valid(termination, numerical_flags, event_candidates),
        result is Err ==> result == Err::<(), SampleInspectionError>(
            SampleInspectionError::InvalidRecord { field: "termination diagnostics" },
        ),
{
    let valid = match termination {
        TraceTermination::HorizonCrossing => numerical_flags == 0 && event_candidates == EVENT_CANDIDATE_HORIZON,
        TraceTermination::Escape => numerical_flags == 0 && event_candidates == EVENT_CANDIDATE_ESCAPE,
        TraceTermination::SingularityGuard => numerical_flags == 0 && event_candidates == EVENT_CANDIDATE_SINGULARITY,
        TraceTermination::StepExhaustion => numerical_flags == 0 && event_candidates == 0,
        TraceTermination::NumericalFailure => numerical_flags != 0 && event_candidates == 0,
        TraceTermination::Uncertain => numerical_flags == 0 && event_candidates != 0,
        TraceTermination::EquatorialSurface => numerical_flags == 0 && event_candidates == EVENT_CANDIDATE_SURFACE,
    };
    if valid {
        Ok(())
    } else {
        Err(SampleInspectionError::InvalidRecord { field: "termination diagnostics" })
    }
}

/// The metadata lane of a record: termination, failure flags, steps and event candidates.
#[derive(Clone, Copy, Debug, PartialEq, Eq, Structural)]
pub struct RecordMetadata {
    pub termination: TraceTermination,
    pub numerical_flags: u32,
    pub steps: u32,
    pub event_candidates: u32,
}

/// What the metadata lane decodes to: the termination must be known, flags and candidates must
/// use only their defined bits, and together they must match the producer table.
pub open spec fn metadata_result(words: Seq<u32>) -> Result<RecordMetadata, SampleInspectionError> {
    match termination_from_code(words[0]) {
        Err(_) => Err(SampleInspectionError::UnknownTermination(words[0])),
        Ok(termination) => if words[1] > KNOWN_NUMERICAL_FLAGS {
            Err(SampleInspectionError::InvalidRecord { field: "failure flags" })
        } else if words[3] > KNOWN_EVENT_CANDIDATES {
            Err(SampleInspectionError::InvalidRecord { field: "event candidates" })
        } else if !terminal_diagnostics_valid(termination, words[1], words[3]) {
            Err(SampleInspectionError::InvalidRecord { field: "termination diagnostics" })
        } else {
            Ok(RecordMetadata { termination, numerical_flags: words[1], steps: words[2], event_candidates: words[3] })
        },
    }
}

/// Decodes the metadata lane; an unknown bit is any bit above the defined ones, so a word has
/// none exactly when it is at most the mask of the defined bits.
pub fn decode_record_metadata(metadata: [u32; 4]) -> (result: Result<RecordMetadata, SampleInspectionError>)
    ensures
        result == metadata_result(metadata@),
{
    let termination = match TraceTermination::from_code(metadata[0]) {
        Ok(termination) => termination,
        Err(_) => return Err(SampleInspectionError::UnknownTermination(metadata[0])),
    };
    let numerical_flags = metadata[1];
    let flags_unknown = numerical_flags & !KNOWN_NUMERICAL_FLAGS;
    assert(flags_unknown == 0 <==> numerical_flags <= 7) by (bit_vector)
        requires
            flags_unknown == numerical_flags & !7u32,
    ;
    if flags_unknown != 0 {
        return Err(SampleInspectionError::InvalidRecord { field: "failure flags" });
    }
    let event_candidates = metadata[3];
    let candidates_unknown = event_candidates & !KNOWN_EVENT_CANDIDATES;
    assert(candidates_unknown == 0 <==> event_candidates <= 15) by (bit_vector)
        requires
            candidates_unknown == event_candidates & !15u32,
    ;
    if candidates_unknown != 0 {
        return Err(SampleInspectionError::InvalidRecord { field: "event candidates" });
    }
    match validate_terminal_diagnostics(termination, numerical_flags, event_candidates) {
        Ok(()) => {},
        Err(error) => return Err(error),
    }
    Ok(RecordMetadata { termination, numerical_flags, steps: metadata[2], event_candidates })
}

/// What a branch-key lane decodes to: a numerical failure has no branch and must write zeros;
/// otherwise the polar side must be known, and an uncertain termination has no branch.
pub open spec fn branch_result(termination: TraceTermination, words: Seq<u32>) -> Result<Option<SampleBranchKey>, SampleInspectionError> {
    if termination is NumericalFailure {
        if words[0] == 0 && words[1] == 0 && words[2] == 0 && words[3] == 0 {
            Ok(None)
        } else {
            Err(SampleInspectionError::InvalidRecord { field: "numerical-failure branch" })
        }
    } else if words[3] > 2 {
        Err(SampleInspectionError::UnknownPolarSide(words[3]))
    } else if termination is Uncertain {
        Ok(None)
    } else {
        Ok(
            Some(
                SampleBranchKey {
                    initial_polar_side: if words[3] == 0 {
                        SamplePolarSide::Negative
                    } else if words[3] == 1 {
                        SamplePolarSide::Equatorial
                    } else {
                        SamplePolarSide::Positive
                    },
                    radial_turnings: words[0],
                    equatorial_crossings: words[1],
                    azimuth_winding: words[2] as i32,
                },
            ),
        )
    }
}

pub fn decode_branch_key(termination: TraceTermination, words: [u32; 4]) -> (result: Result<
    Option<SampleBranchKey>,
    SampleInspectionError,
>)
    ensures
        result == branch_result(termination, words@),
{
    if let TraceTermination::NumericalFailure = termination {
        if words[0] != 0 || words[1] != 0 || words[2] != 0 || words[3] != 0 {
            return Err(SampleInspectionError::InvalidRecord { field: "numerical-failure branch" });
        }
        return Ok(None);
    }
    let initial_polar_side = match words[3] {
        0 => SamplePolarSide::Negative,
        1 => SamplePolarSide::Equatorial,
        2 => SamplePolarSide::Positive,
        unknown => return Err(SampleInspectionError::UnknownPolarSide(unknown)),
    };
    if let TraceTermination::Uncertain = termination {
        return Ok(None);
    }
    Ok(
        Some(
            SampleBranchKey {
                initial_polar_side,
                radial_turnings: words[0],
                equatorial_crossings: words[1],
                azimuth_winding: words[2] as i32,
            },
        ),
    )
}

/// The branch key of a termination that has a branch carries its lane words as they are: the
/// side word 0, 1 and 2 gives the negative, equatorial and positive side, so distinct side words
/// give distinct sides, and every other side word is refused as unknown. An uncertain
/// termination with a known side has no branch.
pub proof fn law_branch_key_keeps_its_words(termination: TraceTermination, words: Seq<u32>, other: Seq<u32>)
    requires
        words.len() == 4,
        other.len() == 4,
        !(termination is NumericalFailure),
    ensures
        words[3] > 2 ==> branch_result(termination, words) == Err::<Option<SampleBranchKey>, SampleInspectionError>(
            SampleInspectionError::UnknownPolarSide(words[3]),
        ),
        words[3] <= 2 && termination is Uncertain ==> branch_result(termination, words) == Ok::<
            Option<SampleBranchKey>,
            SampleInspectionError,
        >(None),
        words[3] <= 2 && !(termination is Uncertain) ==> (branch_result(termination, words) matches Ok(Some(key)) && {
            &&& key.radial_turnings == words[0]
            &&& key.equatorial_crossings == words[1]
            &&& key.azimuth_winding == words[2] as i32
            &&& (words[3] == 0 <==> key.initial_polar_side == SamplePolarSide::Negative)
            &&& (words[3] == 1 <==> key.initial_polar_side == SamplePolarSide::Equatorial)
            &&& (words[3] == 2 <==> key.initial_polar_side == SamplePolarSide::Positive)
        }),
        words[3] <= 2 && other[3] <= 2 && words[3] != other[3] && !(termination is Uncertain) ==> branch_result(
            termination,
            words,
        )->Ok_0->Some_0.initial_polar_side != branch_result(termination, other)->Ok_0->Some_0.initial_polar_side,
{
}

/// A decoded metadata lane keeps its words: the termination is the one its code names, and the
/// flags, steps and candidates are the lane's words. It also obeys the producer table: only a
/// numerical failure has failure flags, and then no event candidate; a step exhaustion has no
/// candidate and an uncertain termination at least one; horizon, singularity, surface and
/// escape terminations each have exactly their own candidate bit (2, 1, 4 and 8). An unknown
/// code is refused with that code, and so are flag or candidate bits beyond the defined ones.
pub proof fn law_metadata_lane_is_decoded_as_written(words: Seq<u32>)
    requires
        words.len() == 4,
    ensures
        metadata_result(words) matches Ok(m) ==> {
            &&& termination_code(m.termination) == words[0]
            &&& m.numerical_flags == words[1]
            &&& m.steps == words[2]
            &&& m.event_candidates == words[3]
            &&& (m.numerical_flags != 0 <==> m.termination is NumericalFailure)
            &&& m.termination is NumericalFailure ==> m.event_candidates == 0
            &&& m.termination is StepExhaustion ==> m.event_candidates == 0
            &&& m.termination is Uncertain ==> m.event_candidates != 0
            &&& m.termination is HorizonCrossing ==> m.event_candidates == 2
            &&& m.termination is SingularityGuard ==> m.event_candidates == 1
            &&& m.termination is EquatorialSurface ==> m.event_candidates == 4
            &&& m.termination is Escape ==> m.event_candidates == 8
        },
        (words[0] < 1 || words[0] > 7) ==> metadata_result(words) == Err::<RecordMetadata, SampleInspectionError>(
            SampleInspectionError::UnknownTermination(words[0]),
        ),
        (1 <= words[0] <= 7 && words[1] > 7) ==> metadata_result(words) == Err::<
            RecordMetadata,
            SampleInspectionError,
        >(SampleInspectionError::InvalidRecord { field: "failure flags" }),
        (1 <= words[0] <= 7 && words[1] <= 7 && words[3] > 15) ==> metadata_result(words) == Err::<
            RecordMetadata,
            SampleInspectionError,
        >(SampleInspectionError::InvalidRecord { field: "event candidates" }),
        (words[0] == 5 && words[1] != 0 && words[1] <= 7 && words[3] == 0) ==> (metadata_result(words) matches Ok(m)
            && m.termination is NumericalFailure),
{
}

/// The scene-value tag of a termination that has one: the horizon writes binary32 zero, an
/// escape binary32 one, and each failure termination binary32 minus its termination code; a
/// surface termination has no single tag. Distinct terminations write distinct tags.
pub proof fn law_scene_tags_name_their_termination(termination: TraceTermination, other: TraceTermination)
    ensures
        termination is HorizonCrossing ==> scene_tag_of(termination) == Some(0x0000_0000u32),
        termination is Escape ==> scene_tag_of(termination) == Some(0x3f80_0000u32),
        termination is SingularityGuard ==> scene_tag_of(termination) == Some(0xc040_0000u32),
        termination is StepExhaustion ==> scene_tag_of(termination) == Some(0xc080_0000u32),
        termination is NumericalFailure ==> scene_tag_of(termination) == Some(0xc0a0_0000u32),
        termination is Uncertain ==> scene_tag_of(termination) == Some(0xc0c0_0000u32),
        scene_tag_of(termination) is None <==> termination is EquatorialSurface,
        termination != other && scene_tag_of(termination) is Some ==> scene_tag_of(termination) != scene_tag_of(
            other,
        ),
{
}

/// Refuses a scene-value tag other than the one the termination writes.
pub fn require_scene_tag(actual: u32, expected: u32) -> (result: Result<(), SampleInspectionError>)
    ensures
        result is Ok <==> actual == expected,
        result is Err ==> result == Err::<(), SampleInspectionError>(
            SampleInspectionError::InvalidRecord { field: "termination/scene tag" },
        ),
{
    if actual == expected {
        Ok(())
    } else {
        Err(SampleInspectionError::InvalidRecord { field: "termination/scene tag" })
    }
}

/// The scene-value tag each termination writes; a surface termination writes either the
/// radiance tag or the numerical-failure tag and has no single one.
pub open spec fn scene_tag_of(termination: TraceTermination) -> Option<u32> {
    match termination {
        TraceTermination::HorizonCrossing => Some(HORIZON_TAG),
        TraceTermination::Escape => Some(ANALYTIC_ESCAPE_TAG),
        TraceTermination::SingularityGuard => Some(SINGULARITY_FAILURE_TAG),
        TraceTermination::StepExhaustion => Some(STEP_EXHAUSTION_FAILURE_TAG),
        TraceTermination::NumericalFailure => Some(NUMERICAL_FAILURE_TAG),
        TraceTermination::Uncertain => Some(UNCERTAIN_FAILURE_TAG),
        TraceTermination::EquatorialSurface => None,
    }
}

pub fn scene_tag(termination: TraceTermination) -> (tag: Option<u32>)
    ensures
        tag == scene_tag_of(termination),
{
    match termination {
        TraceTermination::HorizonCrossing => Some(HORIZON_TAG),
        TraceTermination::Escape => Some(ANALYTIC_ESCAPE_TAG),
        TraceTermination::SingularityGuard => Some(SINGULARITY_FAILURE_TAG),
        TraceTermination::StepExhaustion => Some(STEP_EXHAUSTION_FAILURE_TAG),
        TraceTermination::NumericalFailure => Some(NUMERICAL_FAILURE_TAG),
        TraceTermination::Uncertain => Some(UNCERTAIN_FAILURE_TAG),
        TraceTermination::EquatorialSurface => None,
    }
}

/// How a surface hit's RGB is to be read, by its tag.
#[derive(Clone, Copy, Debug, PartialEq, Eq, Structural)]
pub enum SurfaceEvaluationKind {
    Radiance,
    NumericalFailure,
}

pub fn surface_evaluation_kind(tag: u32) -> (kind: Result<SurfaceEvaluationKind, SampleInspectionError>)
    ensures
        tag == SURFACE_RADIANCE_TAG ==> kind == Ok::<SurfaceEvaluationKind, SampleInspectionError>(
            SurfaceEvaluationKind::Radiance,
        ),
        tag == NUMERICAL_FAILURE_TAG ==> kind == Ok::<SurfaceEvaluationKind, SampleInspectionError>(
            SurfaceEvaluationKind::NumericalFailure,
        ),
        tag != SURFACE_RADIANCE_TAG && tag != NUMERICAL_FAILURE_TAG ==> kind == Err::<
            SurfaceEvaluationKind,
            SampleInspectionError,
        >(SampleInspectionError::InvalidRecord { field: "termination/scene tag" }),
{
    if tag == SURFACE_RADIANCE_TAG {
        Ok(SurfaceEvaluationKind::Radiance)
    } else if tag == NUMERICAL_FAILURE_TAG {
        Ok(SurfaceEvaluationKind::NumericalFailure)
    } else {
        Err(SampleInspectionError::InvalidRecord { field: "termination/scene tag" })
    }
}

/// The little-endian `u32` at `offset`.
pub open spec fn le_u32(bytes: Seq<u8>, offset: int) -> int {
    bytes[offset] + 256 * (bytes[offset + 1] + 256 * (bytes[offset + 2] + 256 * bytes[offset + 3]))
}

fn read_le_u32(bytes: &[u8], offset: usize) -> (value: u32)
    requires
        offset + 4 <= bytes@.len(),
    ensures
        value == le_u32(bytes@, offset as int),
{
    let b0 = bytes[offset] as u32;
    let b1 = bytes[offset + 1] as u32;
    let b2 = bytes[offset + 2] as u32;
    let b3 = bytes[offset + 3] as u32;
    b0 + 256 * (b1 + 256 * (b2 + 256 * b3))
}

/// The words and texel of an inspection readback.
#[derive(Debug)]
pub struct InspectionReadback {
    /// The 24 little-endian words of the record, lane by lane.
    pub record_words: Vec<u32>,
    /// The published texel at the sample.
    pub published_texel: ScientificTexel,
}

/// Splits a mapped inspection readback into its record words and published texel; the
/// readback must be exactly the record followed by one texel.
pub fn decode_readback_words(bytes: &[u8]) -> (result: Result<InspectionReadback, SampleInspectionError>)
    ensures
        result is Err <==> bytes@.len() != INSPECTION_READBACK_BYTES,
        result is Err ==> (result matches Err(e) && e == SampleInspectionError::InvalidReadback),
        result matches Ok(r) ==> {
            &&& r.record_words@.len() == 24
            &&& forall|i: int| 0 <= i < 24 ==> #[trigger] r.record_words@[i] == le_u32(bytes@, 4 * i)
            &&& r.published_texel.bits() == texel_at(bytes@, PUBLISHED_TEXEL_OFFSET as int)
        },
{
    if bytes.len() != 104 {
        return Err(SampleInspectionError::InvalidReadback);
    }
    let mut record_words: Vec<u32> = Vec::new();
    let mut index: usize = 0;
    while index < 24
        invariant
            bytes@.len() == 104,
            index <= 24,
            record_words@.len() == index,
            forall|i: int| 0 <= i < index ==> #[trigger] record_words@[i] == le_u32(bytes@, 4 * i),
        decreases 24 - index,
    {
        record_words.push(read_le_u32(bytes, 4 * index));
        index = index + 1;
    }
    let texel = crate::capture::texel_from_le_bytes(bytes, 96);
    Ok(InspectionReadback { record_words, published_texel: texel })
}

/// The admitted target of one inspection request.
#[derive(Clone, Copy, Debug, PartialEq, Eq, Structural)]
pub struct SampleInspectionTicket {
    generation: u64,
    width: u32,
    height: u32,
    pixel_x: u32,
    pixel_y: u32,
}

impl SampleInspectionTicket {
    pub closed spec fn spec_generation(self) -> u64 {
        self.generation
    }

    pub closed spec fn spec_extent(self) -> (u32, u32) {
        (self.width, self.height)
    }

    pub closed spec fn spec_pixel(self) -> (u32, u32) {
        (self.pixel_x, self.pixel_y)
    }

    pub fn generation(self) -> (generation: u64)
        ensures
            generation == self.spec_generation(),
    {
        self.generation
    }

    pub fn extent(self) -> (extent: [u32; 2])
        ensures
            (extent[0], extent[1]) == self.spec_extent(),
    {
        [self.width, self.height]
    }

    pub fn pixel(self) -> (pixel: [u32; 2])
        ensures
            (pixel[0], pixel[1]) == self.spec_pixel(),
    {
        [self.pixel_x, self.pixel_y]
    }
}

/// What the readback's map callback reported when the device was polled.
#[derive(Clone, Copy, Debug, PartialEq, Eq, Structural)]
pub enum InspectionMapEvent {
    Mapped,
    MapFailed,
    NotReady,
    Disconnected,
}

/// How a finished inspection is to be answered.
#[derive(Clone, Copy, Debug, PartialEq, Eq)]
pub enum InspectionStep {
    /// The request was cancelled, or its generation is no longer the accepted one.
    Cancelled { ticket: SampleInspectionTicket },
    Failed { ticket: SampleInspectionTicket, error: SampleInspectionError },
    /// The readback is mapped and current: decode it for this ticket.
    Decode { ticket: SampleInspectionTicket },
}

impl InspectionStep {
    /// The ticket of the request this step answers.
    pub fn ticket(&self) -> (ticket: SampleInspectionTicket)
        ensures
            ticket == match *self {
                InspectionStep::Cancelled { ticket } => ticket,
                InspectionStep::Failed { ticket, .. } => ticket,
                InspectionStep::Decode { ticket } => ticket,
            },
    {
        match self {
            InspectionStep::Cancelled { ticket } => *ticket,
            InspectionStep::Failed { ticket, .. } => *ticket,
            InspectionStep::Decode { ticket } => *ticket,
        }
    }
}

/// The step of a pending inspection after a callback report other than `NotReady`.
pub open spec fn inspection_step(
    ticket: SampleInspectionTicket,
    cancelled: bool,
    accepted_generation: Option<u64>,
    event: InspectionMapEvent,
) -> InspectionStep {
    if cancelled || accepted_generation != Some(ticket.spec_generation()) {
        InspectionStep::Cancelled { ticket }
    } else {
        match event {
            InspectionMapEvent::Mapped => InspectionStep::Decode { ticket },
            InspectionMapEvent::MapFailed => InspectionStep::Failed { ticket, error: SampleInspectionError::MapFailed },
            _ => InspectionStep::Failed { ticket, error: SampleInspectionError::CallbackDisconnected },
        }
    }
}

/// The one inspection that may be in flight, with its cancellation mark.
#[derive(Debug)]
pub struct SampleInspectionSlot {
    pending: Option<(SampleInspectionTicket, bool)>,
}

impl View for SampleInspectionSlot {
    type V = Option<(SampleInspectionTicket, bool)>;

    closed spec fn view(&self) -> Option<(SampleInspectionTicket, bool)> {
        self.pending
    }
}

impl SampleInspectionSlot {
    pub fn new() -> (slot: Self)
        ensures
            slot@ is None,
    {
        SampleInspectionSlot { pending: None }
    }

    pub fn is_pending(&self) -> (pending: bool)
        ensures
            pending == self@ is Some,
    {
        self.pending.is_some()
    }

    /// Admits an inspection of `pixel` in the published `extent` of `generation`: a pixel
    /// outside the extent is refused first, then a request while another is in flight.
    pub fn request(&mut self, extent: RenderExtent, generation: u64, pixel: [u32; 2]) -> (result: Result<
        SampleInspectionTicket,
        SampleInspectionRequestError,
    >)
        ensures
            (pixel[0] >= extent@.0 || pixel[1] >= extent@.1) ==> final(self)@ == old(self)@ && result == Err::<
                SampleInspectionTicket,
                SampleInspectionRequestError,
            >(SampleInspectionRequestError::SampleOutsideExtent { pixel, extent: [extent@.0, extent@.1] }),
            (pixel[0] < extent@.0 && pixel[1] < extent@.1 && old(self)@ is Some) ==> final(self)@ == old(self)@
                && result == Err::<SampleInspectionTicket, SampleInspectionRequestError>(
                SampleInspectionRequestError::Busy,
            ),
            (pixel[0] < extent@.0 && pixel[1] < extent@.1 && old(self)@ is None) ==> (result matches Ok(ticket) && {
                &&& ticket.spec_generation() == generation
                &&& ticket.spec_extent() == extent@
                &&& ticket.spec_pixel() == (pixel[0], pixel[1])
                &&& final(self)@ == Some((ticket, false))
            }),
    {
        let width = extent.width();
        let height = extent.height();
        if pixel[0] >= width || pixel[1] >= height {
            return Err(SampleInspectionRequestError::SampleOutsideExtent { pixel, extent: [width, height] });
        }
        if self.pending.is_some() {
            return Err(SampleInspectionRequestError::Busy);
        }
        let ticket = SampleInspectionTicket { generation, width, height, pixel_x: pixel[0], pixel_y: pixel[1] };
        self.pending = Some((ticket, false));
        Ok(ticket)
    }

    /// Marks the in-flight inspection as cancelled; its completion will be answered
    /// `Cancelled`.
    pub fn cancel_active(&mut self)
        ensures
            match old(self)@ {
                Some((ticket, _)) => final(self)@ == Some((ticket, true)),
                None => final(self)@ is None,
            },
    {
        match self.pending {
            Some((ticket, _)) => {
                self.pending = Some((ticket, true));
            },
            None => {},
        }
    }

    /// Finishes a poll: a callback that has not run keeps the inspection in flight; any other
    /// report frees the slot and says how to answer the request.
    pub fn poll(&mut self, accepted_generation: Option<u64>, event: InspectionMapEvent) -> (step: Option<InspectionStep>)
        ensures
            match old(self)@ {
                None => step is None && final(self)@ is None,
                Some((ticket, cancelled)) => if event is NotReady {
                    step is None && final(self)@ == old(self)@
                } else {
                    step == Some(inspection_step(ticket, cancelled, accepted_generation, event)) && final(self)@ is None
                },
            },
    {
        let (ticket, cancelled) = match self.pending {
            Some(pending) => pending,
            None => return None,
        };
        if let InspectionMapEvent::NotReady = event {
            return None;
        }
        self.pending = None;
        let stale = match accepted_generation {
            Some(generation) => generation != ticket.generation,
            None => true,
        };
        if cancelled || stale {
            return Some(InspectionStep::Cancelled { ticket });
        }
        match event {
            InspectionMapEvent::Mapped => Some(InspectionStep::Decode { ticket }),
            InspectionMapEvent::MapFailed => Some(
                InspectionStep::Failed { ticket, error: SampleInspectionError::MapFailed },
            ),
            _ => Some(InspectionStep::Failed { ticket, error: SampleInspectionError::CallbackDisconnected }),
        }
    }
}

/// A cancelled or superseded inspection is never decoded: whatever its callback reports, it is
/// answered `Cancelled` with its own ticket.
pub proof fn law_cancelled_inspection_is_never_decoded(
    ticket: SampleInspectionTicket,
    accepted_generation: Option<u64>,
    event: InspectionMapEvent,
)
    ensures
        inspection_step(ticket, true, accepted_generation, event) == (InspectionStep::Cancelled { ticket }),
        accepted_generation != Some(ticket.spec_generation()) ==> inspection_step(
            ticket,
            false,
            accepted_generation,
            event,
        ) == (InspectionStep::Cancelled { ticket }),
{
}

} // verus!
