//! Building a snapshot from telemetry and cue detections, and checking that
//! an inbound snapshot has the shape that consumers rely on.

use crate::clock::elapsed_ms;
use crate::region::{infer_region, region_name};
use crate::schema::{RuneliteData, SnapshotSchema, WorldCoord};
use crate::text::{lemma_texts_push, texts};
use crate::types::Confidence;
use crate::validation::ValidationResult;
use std::time::Instant;
use vstd::prelude::*;
use vstd::string::StringExecFns;

verus! {

/// The message for an empty capture identifier.
pub open spec fn missing_capture_id_message() -> Seq<char> {
    "Missing capture_id"@
}

/// The message for an empty timestamp.
pub open spec fn missing_timestamp_message() -> Seq<char> {
    "Missing timestamp"@
}

/// The message for an empty session identifier.
pub open spec fn missing_session_id_message() -> Seq<char> {
    "Missing session_id"@
}

/// The message for client bounds without an area.
pub open spec fn invalid_bounds_message() -> Seq<char> {
    "Invalid client bounds"@
}

/// The message of a rule when the rule is violated, nothing otherwise.
pub open spec fn violation(violated: bool, message: Seq<char>) -> Seq<Seq<char>> {
    if violated {
        seq![message]
    } else {
        Seq::empty()
    }
}

/// Every violation of a snapshot, rule by rule: capture identifier,
/// timestamp and session identifier must not be empty, and the client bounds
/// must have an area. Each rule is checked whatever the others found.
pub open spec fn snapshot_errors(snapshot: SnapshotSchema) -> Seq<Seq<char>> {
    violation(snapshot.capture_id@.len() == 0, missing_capture_id_message()) + violation(
        snapshot.timestamp@.len() == 0,
        missing_timestamp_message(),
    ) + violation(snapshot.session_id@.len() == 0, missing_session_id_message()) + violation(
        !snapshot.client.bounds.has_area(),
        invalid_bounds_message(),
    )
}

/// Collects every violation of a snapshot.
pub fn check_snapshot(snapshot: &SnapshotSchema) -> (errors: Vec<String>)
    ensures
        texts(errors@) == snapshot_errors(*snapshot),
{
    let mut errors: Vec<String> = Vec::new();
    assert(texts(errors@) =~= Seq::<Seq<char>>::empty());

    if snapshot.capture_id.as_str().is_empty() {
        let message = String::from_str("Missing capture_id");
        proof {
            lemma_texts_push(errors@, message);
        }
        errors.push(message);
    }
    let ghost after_capture_id = violation(
        snapshot.capture_id@.len() == 0,
        missing_capture_id_message(),
    );
    assert(texts(errors@) =~= after_capture_id);

    if snapshot.timestamp.as_str().is_empty() {
        let message = String::from_str("Missing timestamp");
        proof {
            lemma_texts_push(errors@, message);
        }
        errors.push(message);
    }
    let ghost after_timestamp = after_capture_id + violation(
        snapshot.timestamp@.len() == 0,
        missing_timestamp_message(),
    );
    assert(texts(errors@) =~= after_timestamp);

    if snapshot.session_id.as_str().is_empty() {
        let message = String::from_str("Missing session_id");
        proof {
            lemma_texts_push(errors@, message);
        }
        errors.push(message);
    }
    let ghost after_session_id = after_timestamp + violation(
        snapshot.session_id@.len() == 0,
        missing_session_id_message(),
    );
    assert(texts(errors@) =~= after_session_id);

    if snapshot.client.bounds.width <= 0 || snapshot.client.bounds.height <= 0 {
        let message = String::from_str("Invalid client bounds");
        proof {
            lemma_texts_push(errors@, message);
        }
        errors.push(message);
    }
    assert(texts(errors@) =~= snapshot_errors(*snapshot));
    errors
}

/// Validates a snapshot and measures how long that took.
///
/// The result reports every violated rule; the duration is whatever the clock
/// gave.
pub fn validate_snapshot(snapshot: &SnapshotSchema) -> (result: ValidationResult)
    ensures
        result.messages() == snapshot_errors(*snapshot),
        result.valid == (snapshot_errors(*snapshot).len() == 0),
        result.wf(),
{
    let start = Instant::now();
    let errors = check_snapshot(snapshot);
    ValidationResult::from_errors(errors, elapsed_ms(&start))
}

/// The highlight state that the cue detections resolve to: an arrow takes
/// precedence over a highlight, and without either the state is empty.
pub open spec fn cue_state(arrow_found: bool, highlight_found: bool) -> Seq<char> {
    if arrow_found {
        "arrow"@
    } else if highlight_found {
        "object"@
    } else {
        Seq::empty()
    }
}

/// The capture latency that a snapshot records for a capture duration: the
/// low 32 bits of the duration in milliseconds.
pub open spec fn recorded_latency(capture_ms: u64) -> u32 {
    (capture_ms % 0x1_0000_0000) as u32
}

impl SnapshotSchema {
    /// The staleness flag is the negation of the telemetry's freshness.
    pub open spec fn stale_follows_telemetry(&self) -> bool {
        self.stale == !self.runelite_data.fresh
    }

    /// The location is a function of the telemetry's world position: with a
    /// position, the coordinates are that position and the region is the
    /// area that holds it; without one, the location is empty.
    pub open spec fn location_follows_telemetry(&self) -> bool {
        let location = self.derived.location;
        match self.runelite_data.player_world {
            Some((x, y, plane)) => {
                &&& location.coordinates == WorldCoord { x, y, plane }
                &&& location.region@ == region_name(x as int, y as int)
                &&& location.subarea@.len() == 0
            },
            None => location.is_default(),
        }
    }

    /// The snapshot is the merge of the telemetry with the cue detections
    /// and the capture duration: the telemetry is copied whole, staleness,
    /// location, highlight state and capture latency follow from the inputs,
    /// and every other field is empty.
    pub open spec fn is_merge_of(
        &self,
        telemetry: &RuneliteData,
        arrow_found: bool,
        highlight_found: bool,
        capture_ms: u64,
    ) -> bool {
        &&& self.runelite_data@ == telemetry@
        &&& self.stale_follows_telemetry()
        &&& self.location_follows_telemetry()
        &&& self.cues.is_default_with(cue_state(arrow_found, highlight_found))
        &&& self.client.is_default_with(recorded_latency(capture_ms))
        &&& self.capture_id@.len() == 0
        &&& self.timestamp@.len() == 0
        &&& self.version == 0
        &&& self.session_id@.len() == 0
        &&& self.roi.is_default()
        &&& self.ui.is_default()
        &&& self.ocr@.len() == 0
        &&& self.derived.activity.is_default()
        &&& self.derived.combat.is_default()
        &&& self.account.is_default()
    }
}

/// Merges telemetry with the cue detections of a frame into a fresh
/// snapshot.
pub fn merge_snapshot_data(
    runelite: &RuneliteData,
    arrow: Option<(i32, i32, Confidence)>,
    highlight: Option<(i32, i32, Confidence)>,
    capture_ms: u64,
) -> (snapshot: SnapshotSchema)
    ensures
        snapshot.is_merge_of(runelite, arrow is Some, highlight is Some, capture_ms),
{
    let mut snapshot = SnapshotSchema::default();

    snapshot.runelite_data = runelite.clone();
    snapshot.stale = !runelite.fresh;

    if let Some((x, y, plane)) = runelite.player_world {
        snapshot.derived.location.coordinates = WorldCoord { x, y, plane };
        snapshot.derived.location.region = infer_region(x, y).to_owned();
    }

    if arrow.is_some() {
        snapshot.cues.highlight_state = String::from_str("arrow");
    } else if highlight.is_some() {
        snapshot.cues.highlight_state = String::from_str("object");
    }

    snapshot.client.capture_latency_ms = (capture_ms % 0x1_0000_0000) as u32;

    snapshot
}

/// Merging fresh telemetry yields a snapshot that is not stale, and merging
/// telemetry that is not fresh yields a stale one.
pub proof fn lemma_merge_staleness(
    snapshot: SnapshotSchema,
    telemetry: RuneliteData,
    arrow_found: bool,
    highlight_found: bool,
    capture_ms: u64,
)
    requires
        snapshot.is_merge_of(&telemetry, arrow_found, highlight_found, capture_ms),
    ensures
        telemetry.fresh ==> !snapshot.stale,
        !telemetry.fresh ==> snapshot.stale,
{
}

/// An arrow takes precedence: where an arrow was found, the highlight state
/// of the merged snapshot is `"arrow"` and not `"object"`, whether or not a
/// highlight was found too.
pub proof fn lemma_merge_arrow_precedence(
    snapshot: SnapshotSchema,
    telemetry: RuneliteData,
    highlight_found: bool,
    capture_ms: u64,
)
    requires
        snapshot.is_merge_of(&telemetry, true, highlight_found, capture_ms),
    ensures
        snapshot.cues.highlight_state@ == "arrow"@,
        snapshot.cues.highlight_state@ != "object"@,
{
    reveal_strlit("arrow");
    reveal_strlit("object");
    assert("arrow"@.len() == 5);
    assert("object"@.len() == 6);
}

/// A highlight alone resolves to `"object"`, and no cue to the empty state.
pub proof fn lemma_merge_without_arrow(
    snapshot: SnapshotSchema,
    telemetry: RuneliteData,
    highlight_found: bool,
    capture_ms: u64,
)
    requires
        snapshot.is_merge_of(&telemetry, false, highlight_found, capture_ms),
    ensures
        highlight_found ==> snapshot.cues.highlight_state@ == "object"@,
        !highlight_found ==> snapshot.cues.highlight_state@.len() == 0,
{
}

} // verus!
