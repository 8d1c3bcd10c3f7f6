//! Analysis of a captured frame, and a holder for the most recent capture.
//!
//! Acquiring a frame from the screen is the caller's business. The caller
//! hands over what the acquisition gave, a buffer or the reason of its
//! failure, and the time it took.

use crate::clock::elapsed_ms;
use crate::detection::{find_cyan_highlight, find_yellow_arrow, locate, CueKind};
use crate::types::{DetectionResult, Point};
use std::time::Instant;
use vstd::prelude::*;
use vstd::string::StringExecFns;

verus! {

/// The message of a failed capture: the label and the reason.
pub open spec fn capture_failure_message(reason: Seq<char>) -> Seq<char> {
    "capture failed: "@ + reason
}

/// Labels the reason of a failed capture, so that the failure cannot be
/// taken for a cue that was not found.
pub fn capture_failure(reason: &str) -> (message: String)
    ensures
        message@ == capture_failure_message(reason@),
{
    let mut message = String::from_str("capture failed: ");
    message.append(reason);
    message
}

/// What analysing a frame yields, the detection time apart: both cues as
/// located in the frame, and the capture time as given.
pub open spec fn analysis_of(
    result: DetectionResult,
    img: Seq<u8>,
    width: u32,
    height: u32,
    capture_ms: u64,
) -> bool {
    &&& result.arrow == Point::of_option(locate(img, width, height, CueKind::Arrow))
    &&& result.highlight == Point::of_option(locate(img, width, height, CueKind::Highlight))
    &&& result.capture_ms == capture_ms
}

/// Locates both cues in a frame and measures how long that took.
///
/// The detection time is whatever the clock gave.
pub fn analyze_frame(img_data: &[u8], width: u32, height: u32, capture_ms: u64) -> (result:
    DetectionResult)
    ensures
        analysis_of(result, img_data@, width, height, capture_ms),
{
    let detect_start = Instant::now();
    let arrow = find_yellow_arrow(img_data, width, height);
    let highlight = find_cyan_highlight(img_data, width, height);
    let detect_ms = elapsed_ms(&detect_start);
    DetectionResult {
        arrow: Point::from_found(arrow),
        highlight: Point::from_found(highlight),
        capture_ms,
        detect_ms,
    }
}

/// Analyses what a capture gave.
///
/// A failed capture is passed on under its label and nothing is detected; a
/// captured frame is analysed.
pub fn analyze_capture(
    captured: Result<Vec<u8>, String>,
    width: u32,
    height: u32,
    capture_ms: u64,
) -> (outcome: Result<DetectionResult, String>)
    ensures
        match captured {
            Ok(frame) => outcome matches Ok(result) && analysis_of(
                result,
                frame@,
                width,
                height,
                capture_ms,
            ),
            Err(reason) => outcome matches Err(message) && message@ == capture_failure_message(
                reason@,
            ),
        },
{
    match captured {
        Ok(frame) => Ok(analyze_frame(frame.as_slice(), width, height, capture_ms)),
        Err(reason) => Err(capture_failure(reason.as_str())),
    }
}

/// The screen region that a capture was asked for.
#[derive(Debug, Clone, Copy, PartialEq, Eq, Structural)]
pub struct CaptureRequest {
    pub x: i32,
    pub y: i32,
    pub width: u32,
    pub height: u32,
}

/// A holder of the most recent capture, keyed by the request that it
/// answered.
pub struct ScreenCapture {
    last_capture: Option<Vec<u8>>,
    request: CaptureRequest,
}

impl ScreenCapture {
    /// The frame that the holder keeps, if any.
    pub closed spec fn frame(&self) -> Option<Seq<u8>> {
        match self.last_capture {
            Some(frame) => Some(frame@),
            None => None,
        }
    }

    /// The request that the kept frame answered.
    pub closed spec fn request(&self) -> CaptureRequest {
        self.request
    }

    /// A holder that keeps nothing.
    pub fn new() -> (holder: ScreenCapture)
        ensures
            holder.frame() is None,
            holder.request() == (CaptureRequest { x: 0, y: 0, width: 0, height: 0 }),
    {
        ScreenCapture {
            last_capture: None,
            request: CaptureRequest { x: 0, y: 0, width: 0, height: 0 },
        }
    }

    /// Takes in what a capture of the region gave.
    ///
    /// A captured frame replaces what the holder kept and is handed back; a
    /// failed capture leaves the holder as it was and passes the reason on.
    pub fn capture(
        &mut self,
        x: i32,
        y: i32,
        width: u32,
        height: u32,
        captured: Result<Vec<u8>, String>,
    ) -> (outcome: Result<&[u8], String>)
        ensures
            match captured {
                Ok(frame) => {
                    &&& outcome matches Ok(kept) && kept@ == frame@
                    &&& final(self).frame() == Some(frame@)
                    &&& final(self).request() == (CaptureRequest { x, y, width, height })
                },
                Err(reason) => {
                    &&& outcome matches Err(passed) && passed@ == reason@
                    &&& final(self).frame() == old(self).frame()
                    &&& final(self).request() == old(self).request()
                },
            },
    {
        match captured {
            Ok(frame) => {
                self.request = CaptureRequest { x, y, width, height };
                self.last_capture = Some(frame);
                Ok(self.last_capture.as_ref().unwrap().as_slice())
            },
            Err(reason) => Err(reason),
        }
    }
}

} // verus!
