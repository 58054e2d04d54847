//! Validation of performed actions, and the plain message payloads the
//! transport layer fills in.

use vstd::prelude::*;

use vstd::utf8::encode_utf8;

use crate::events::PerformAction;
use crate::fixed::UNIT;

verus! {

/// Longest accepted scene name, in bytes.
pub const SCENE_NAME_MAX_BYTES: usize = 100;

/// Longest accepted freeze, in microseconds (300 seconds).
pub const FREEZE_LIMIT_MICROS: i64 = 300_000_000;

/// Why a performed action was rejected.
#[derive(Debug, Clone, Copy, PartialEq, Eq, Structural)]
pub enum ValidationError {
    /// A trigger-style intensity lay outside the unit interval.
    IntensityOutOfRange,
    /// A scene name was empty, or whitespace only.
    SceneNameEmpty,
    /// A scene name ran past the byte limit.
    SceneNameTooLong,
    /// A freeze length was negative.
    FreezeNegative,
    /// A freeze length ran past the limit.
    FreezeTooLong,
}

/// What trimming leaves of a string: its characters without leading and
/// trailing whitespace.
pub uninterp spec fn trimmed(s: Seq<char>) -> Seq<char>;

/// Relies on `str::trim`, which removes leading and trailing whitespace:
/// the result is a function of the characters alone, never longer than
/// the input, and empty input stays empty.
#[verifier::external_body]
fn trim_to_string(s: &String) -> (r: String)
    ensures
        r@ == trimmed(s@),
        r@.len() <= s@.len(),
        s@.len() == 0 ==> r@.len() == 0,
{
    s.trim().to_string()
}

/// Relies on `String::len`: a string's UTF-8 byte length. vstd states
/// `str::len` only up to a truncating cast (`encode_utf8(s@).len() as
/// usize`) and gives no bound tying a view's length to the machine
/// word, so the untruncated equality is taken on trust: a real
/// string's bytes sit in one allocation and their count fits `usize`.
#[verifier::external_body]
fn byte_len(s: &String) -> (n: usize)
    ensures
        n == encode_utf8(s@).len(),
{
    s.len()
}

/// The verdict on a trigger-style intensity: accepted exactly when it
/// lies in the unit interval.
pub open spec fn intensity_verdict(intensity: int) -> Result<(), ValidationError> {
    if intensity < 0 || intensity > UNIT {
        Err(ValidationError::IntensityOutOfRange)
    } else {
        Ok(())
    }
}

/// The verdict on a scene name: rejected when nothing but whitespace,
/// or when longer than the byte limit.
pub open spec fn scene_name_verdict(name: Seq<char>) -> Result<(), ValidationError> {
    if trimmed(name).len() == 0 {
        Err(ValidationError::SceneNameEmpty)
    } else if encode_utf8(name).len() > SCENE_NAME_MAX_BYTES {
        Err(ValidationError::SceneNameTooLong)
    } else {
        Ok(())
    }
}

/// The verdict on a freeze length: rejected when negative or past the
/// limit.
pub open spec fn freeze_verdict(micros: int) -> Result<(), ValidationError> {
    if micros < 0 {
        Err(ValidationError::FreezeNegative)
    } else if micros > FREEZE_LIMIT_MICROS {
        Err(ValidationError::FreezeTooLong)
    } else {
        Ok(())
    }
}

/// The verdict on a whole performed action.
pub open spec fn action_verdict(action: PerformAction) -> Result<(), ValidationError> {
    match action {
        PerformAction::Pulse { intensity } => intensity_verdict(intensity as int),
        PerformAction::Stir { intensity } => intensity_verdict(intensity as int),
        PerformAction::Calm { intensity } => intensity_verdict(intensity as int),
        PerformAction::Heat { intensity } => intensity_verdict(intensity as int),
        PerformAction::Tense { intensity } => intensity_verdict(intensity as int),
        PerformAction::Scene { name } => scene_name_verdict(name@),
        PerformAction::Freeze { micros } => freeze_verdict(micros as int),
    }
}

/// Checks one trigger-style intensity.
fn check_intensity(intensity: i64) -> (r: Result<(), ValidationError>)
    ensures
        r == intensity_verdict(intensity as int),
{
    if intensity < 0 || intensity > UNIT as i64 {
        Err(ValidationError::IntensityOutOfRange)
    } else {
        Ok(())
    }
}

/// Validates a performed action, returning exactly the verdict the
/// rules above give: intensities must lie in the unit interval, scene
/// names must carry something besides whitespace and fit the byte
/// limit, freezes must be non-negative and bounded.
pub fn validate_perform_action(action: &PerformAction) -> (r: Result<(), ValidationError>)
    ensures
        r == action_verdict(*action),
{
    match action {
        PerformAction::Pulse { intensity } => check_intensity(*intensity),
        PerformAction::Stir { intensity } => check_intensity(*intensity),
        PerformAction::Calm { intensity } => check_intensity(*intensity),
        PerformAction::Heat { intensity } => check_intensity(*intensity),
        PerformAction::Tense { intensity } => check_intensity(*intensity),
        PerformAction::Scene { name } => {
            let bare = trim_to_string(name);
            if bare.as_str().is_empty() {
                Err(ValidationError::SceneNameEmpty)
            } else if byte_len(name) > SCENE_NAME_MAX_BYTES {
                Err(ValidationError::SceneNameTooLong)
            } else {
                Ok(())
            }
        },
        PerformAction::Freeze { micros } => {
            if *micros < 0 {
                Err(ValidationError::FreezeNegative)
            } else if *micros > FREEZE_LIMIT_MICROS {
                Err(ValidationError::FreezeTooLong)
            } else {
                Ok(())
            }
        },
    }
}

/// An error message sent back to a client; the transport layer fills
/// the fields.
#[derive(Debug, Clone, PartialEq)]
pub struct ErrorPayload {
    pub code: String,
    pub message: String,
    pub request_id: Option<String>,
}

/// A request to change the scene.
#[derive(Debug, Clone, PartialEq)]
pub struct SetScenePayload {
    pub request_id: Option<String>,
    pub scene_name: String,
}

} // verus!
