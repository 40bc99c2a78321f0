//! What the export of scenes decides without a world at hand: the name of a
//! scene's file, and whether a scene that was built from nothing holds nothing.

use crate::scene_format::SceneFormat;
use vstd::prelude::*;
use vstd::string::*;

verus! {

/// The error of `serde_json`, opaque to the verifier.
#[verifier::external_type_specification]
#[verifier::external_body]
pub struct ExJsonError(serde_json::Error);

/// Whether two JSON texts hold the same value: `None` where one of them is not
/// JSON, as `serde_json` reads it.
pub uninterp spec fn json_same_value(left: Seq<char>, right: Seq<char>) -> Option<bool>;

/// `serde_json::from_str` on each text, then `==` on the two values: whether
/// both texts hold the same JSON value, the error of the first text that is
/// not JSON.
#[verifier::external_body]
fn json_texts_equal(left: &str, right: &str) -> (same: Result<bool, serde_json::Error>)
    ensures
        match same {
            Ok(equal) => json_same_value(left@, right@) == Some(equal),
            Err(_) => json_same_value(left@, right@).is_none(),
        },
{
    let left: serde_json::Value = serde_json::from_str(left)?;
    let right: serde_json::Value = serde_json::from_str(right)?;
    Ok(left == right)
}

/// `Error::to_string`: what the error says. Nothing is claimed of the text.
#[verifier::external_body]
fn json_error_text(error: &serde_json::Error) -> (text: String) {
    error.to_string()
}

/// The file name of the scene `name` in the format `format`.
pub open spec fn scene_file_name_text(name: Seq<char>, format: SceneFormat) -> Seq<char> {
    name + "."@ + format.extension_text()
}

/// The file name of the scene `name` in the format `format`.
pub fn scene_file_name(name: &str, format: SceneFormat) -> (file_name: String)
    ensures
        file_name@ == scene_file_name_text(name@, format),
{
    let mut file_name = String::from_str(name);
    file_name.append(".");
    file_name.append(format.extension());
    file_name
}

/// The scene that holds nothing, as JSON.
pub open spec fn empty_scene_text() -> Seq<char> {
    "{\"resources\":{},\"entities\":{}}"@
}

/// Why a scene that was built from nothing is not accepted.
#[derive(Debug, Clone, PartialEq, Eq)]
pub enum EmptySceneError {
    /// The scene is not JSON; the text says what the reader found.
    Malformed(String),
    /// The scene holds something; the text is the scene.
    NotEmpty(String),
}

/// Judges a scene that was built from nothing by what its comparison with the
/// empty scene gave: `Ok(true)` where both hold the same value, `Ok(false)`
/// where they differ, the reader's words where the scene is not JSON.
pub fn judge_empty_scene(scene: &str, same: Result<bool, String>) -> (outcome: Result<
    (),
    EmptySceneError,
>)
    ensures
        match same {
            Ok(true) => outcome.is_ok(),
            Ok(false) => outcome matches Err(EmptySceneError::NotEmpty(held)) && held@ == scene@,
            Err(words) => outcome matches Err(EmptySceneError::Malformed(text)) && text@
                == words@,
        },
{
    match same {
        Ok(true) => Ok(()),
        Ok(false) => Err(EmptySceneError::NotEmpty(String::from_str(scene))),
        Err(words) => Err(EmptySceneError::Malformed(words)),
    }
}

/// Checks that a scene that was built from nothing holds nothing: as JSON it
/// is the object with an empty `resources` and an empty `entities`. A scene
/// that holds more usually shows a resource that the export should ignore.
pub fn check_empty_scene(scene: &str) -> (outcome: Result<(), EmptySceneError>)
    ensures
        match outcome {
            Ok(_) => json_same_value(scene@, empty_scene_text()) == Some(true),
            Err(EmptySceneError::NotEmpty(held)) => json_same_value(scene@, empty_scene_text())
                == Some(false) && held@ == scene@,
            Err(EmptySceneError::Malformed(_)) => json_same_value(
                scene@,
                empty_scene_text(),
            ).is_none(),
        },
{
    let same = match json_texts_equal(scene, "{\"resources\":{},\"entities\":{}}") {
        Ok(equal) => Ok(equal),
        Err(error) => Err(json_error_text(&error)),
    };
    judge_empty_scene(scene, same)
}

} // verus!
