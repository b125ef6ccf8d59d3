//! What is read out of the answers of the text and image service, and the
//! prompt that the image service is given.

use vstd::prelude::*;
use vstd::string::*;
use crate::json::json_document;
use crate::stats::{NotJson, RobotStatus, recover_stats, recovered};

verus! {

/// An answer of the generation service that holds nothing to use.
#[derive(Clone, Copy, Debug, PartialEq, Eq, Structural)]
pub enum ResponseError {
    /// The answer holds no candidate.
    NoCandidates,
    /// The first candidate holds no part.
    NoParts,
    /// The first part of the first candidate holds no image.
    NoImage,
}

/// The text of the first part of the first candidate. Each candidate is given
/// as the texts of its parts.
pub fn first_part_text(candidates: &Vec<Vec<String>>) -> (r: Result<String, ResponseError>)
    ensures
        candidates@.len() == 0 ==> r == Err::<String, ResponseError>(ResponseError::NoCandidates),
        candidates@.len() > 0 && candidates@[0]@.len() == 0 ==> r == Err::<String, ResponseError>(
            ResponseError::NoParts,
        ),
        candidates@.len() > 0 && candidates@[0]@.len() > 0 ==> r == Ok::<String, ResponseError>(
            candidates@[0]@[0],
        ),
{
    if candidates.len() == 0 {
        Err(ResponseError::NoCandidates)
    } else if candidates[0].len() == 0 {
        Err(ResponseError::NoParts)
    } else {
        Ok(candidates[0][0].clone())
    }
}

/// The image that an answer holds: the inline data of the first part of the
/// first candidate.
pub open spec fn held_image(candidates: Seq<Vec<Option<String>>>) -> Option<String> {
    if candidates.len() > 0 && candidates[0]@.len() > 0 {
        candidates[0]@[0]
    } else {
        None
    }
}

/// The base64 image of an answer of the image service. Each candidate is given
/// as the inline data of its parts, where a part has any.
pub fn first_image(candidates: &Vec<Vec<Option<String>>>) -> (r: Result<String, ResponseError>)
    ensures
        match held_image(candidates@) {
            Some(data) => r == Ok::<String, ResponseError>(data),
            None => r == Err::<String, ResponseError>(ResponseError::NoImage),
        },
{
    if candidates.len() == 0 {
        return Err(ResponseError::NoImage);
    }
    if candidates[0].len() == 0 {
        return Err(ResponseError::NoImage);
    }
    match &candidates[0][0] {
        Some(data) => Ok(data.clone()),
        None => Err(ResponseError::NoImage),
    }
}

/// What every image prompt ends in: the framing and the style of the picture.
pub open spec fn image_instructions() -> Seq<char> {
    ", highly zoomed out, full A-pose with slightly spread arms. The ENTIRE body from the top of the head to the bottom of the feet MUST be completely visible inside the frame. Leave plenty of empty white space around the character. DO NOT crop the image at the ankles or head. single white background `#FFFFFF`, mechanical combat robot design, clear silhouette."@
}

/// The prompt for the concept image: the robot's description, followed by the
/// instructions on framing and style.
pub fn image_prompt(description: &str) -> (prompt: String)
    ensures
        prompt@ == description@ + image_instructions(),
{
    String::from_str(description).concat(
        ", highly zoomed out, full A-pose with slightly spread arms. The ENTIRE body from the top of the head to the bottom of the feet MUST be completely visible inside the frame. Leave plenty of empty white space around the character. DO NOT crop the image at the ankles or head. single white background `#FFFFFF`, mechanical combat robot design, clear silhouette.",
    )
}

/// The statistics of an answer text: those read from it directly, where that
/// worked, and else those recovered from it as a JSON document of any shape.
/// Fails only where nothing was read directly and the text is no JSON document.
pub fn stats_of_text(direct: Option<RobotStatus>, text: &str) -> (r: Result<RobotStatus, NotJson>)
    ensures
        match direct {
            Some(stats) => r == Ok::<RobotStatus, NotJson>(stats),
            None => match json_document(text@) {
                Some(doc) => r is Ok && r->Ok_0@ == recovered(doc),
                None => r is Err,
            },
        },
{
    match direct {
        Some(stats) => Ok(stats),
        None => recover_stats(text),
    }
}

} // verus!
