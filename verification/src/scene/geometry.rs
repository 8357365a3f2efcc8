//! # Scene plane limits

use vstd::prelude::*;

use super::resolved::{MAX_PLANES, SceneError};

verus! {

/// ### Checks the number of planes in a scene
///
/// ### Errors
///
/// Returns [`SceneError::TooManyPlanes`] when there are more than [`MAX_PLANES`].
pub fn check_plane_count(actual: usize) -> (r: Result<(), SceneError>)
    ensures
        r is Ok <==> actual <= MAX_PLANES,
        r matches Err(e) ==> e matches SceneError::TooManyPlanes { maximum, actual: a }
            && maximum == MAX_PLANES && a == actual,
{
    if actual > MAX_PLANES {
        Err(SceneError::TooManyPlanes { maximum: MAX_PLANES, actual })
    } else {
        Ok(())
    }
}

} // verus!
