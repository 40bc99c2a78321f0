//! The file formats a scene can be written in.

use crate::text::{ends_with, has_suffix};
use vstd::prelude::*;
use vstd::string::*;

verus! {

/// The format of a scene file.
#[derive(Debug, Clone, Copy, PartialEq, Eq, Structural, Hash)]
pub enum SceneFormat {
    Json,
    Ron,
}

/// A path whose ending names no scene format.
#[derive(Debug, Clone, PartialEq, Eq)]
pub struct UnrecognizedExtension {
    /// The path as it was given.
    pub path: String,
}

impl UnrecognizedExtension {
    /// What the error says.
    pub open spec fn message_text(path: Seq<char>) -> Seq<char> {
        "Unrecognized scene extension format: "@ + path
    }

    /// What the error says.
    pub fn message(&self) -> (message: String)
        ensures
            message@ == Self::message_text(self.path@),
    {
        let mut message = String::from_str("Unrecognized scene extension format: ");
        message.append(self.path.as_str());
        message
    }
}

impl Default for SceneFormat {
    fn default() -> (format: Self)
        ensures
            format == SceneFormat::Json,
    {
        SceneFormat::Json
    }
}

impl SceneFormat {
    /// The file extension of the format, without the dot.
    pub open spec fn extension_text(self) -> Seq<char> {
        match self {
            SceneFormat::Json => "json"@,
            SceneFormat::Ron => "ron"@,
        }
    }

    /// The format that the ending of `path` names: `.json` or `.ron`.
    pub open spec fn of_path(path: Seq<char>) -> Option<SceneFormat> {
        if has_suffix(path, ".json"@) {
            Some(SceneFormat::Json)
        } else if has_suffix(path, ".ron"@) {
            Some(SceneFormat::Ron)
        } else {
            None
        }
    }

    /// The file extension of the format, without the dot.
    pub fn extension(&self) -> (extension: &'static str)
        ensures
            extension@ == self.extension_text(),
    {
        match self {
            SceneFormat::Json => "json",
            SceneFormat::Ron => "ron",
        }
    }

    /// The format that the ending of `path` names; an error that holds the
    /// path where the ending is neither `.json` nor `.ron`.
    pub fn from_path(path: &str) -> (format: Result<Self, UnrecognizedExtension>)
        ensures
            match format {
                Ok(found) => Self::of_path(path@) == Some(found),
                Err(error) => Self::of_path(path@).is_none() && error.path@ == path@,
            },
    {
        if ends_with(path, ".json") {
            return Ok(SceneFormat::Json);
        } else if ends_with(path, ".ron") {
            return Ok(SceneFormat::Ron);
        }
        Err(UnrecognizedExtension { path: String::from_str(path) })
    }
}

/// The text of a scene file, sent to an app that is to spawn the scene.
#[derive(Debug, Clone, PartialEq, Eq)]
pub struct SpawnSceneFile {
    pub format: SceneFormat,
    pub payload: String,
}

impl SpawnSceneFile {
    /// The scene with the text `payload` in the format `format`.
    pub fn new(format: SceneFormat, payload: String) -> (scene: Self)
        ensures
            scene.format == format,
            scene.payload == payload,
    {
        SpawnSceneFile { format, payload }
    }

    /// The scene with the RON text `payload`.
    pub fn ron(payload: String) -> (scene: Self)
        ensures
            scene.format == SceneFormat::Ron,
            scene.payload == payload,
    {
        Self::new(SceneFormat::Ron, payload)
    }

    /// The scene with the JSON text `payload`.
    pub fn json(payload: String) -> (scene: Self)
        ensures
            scene.format == SceneFormat::Json,
            scene.payload == payload,
    {
        Self::new(SceneFormat::Json, payload)
    }

    /// The scene with the text `payload` of the file at `path`, in the format
    /// that the ending of `path` names.
    pub fn from_file(path: &str, payload: String) -> (scene: Result<Self, UnrecognizedExtension>)
        ensures
            match scene {
                Ok(scene) => SceneFormat::of_path(path@) == Some(scene.format) && scene.payload
                    == payload,
                Err(error) => SceneFormat::of_path(path@).is_none() && error.path@ == path@,
            },
    {
        match SceneFormat::from_path(path) {
            Ok(format) => Ok(Self::new(format, payload)),
            Err(error) => Err(error),
        }
    }
}

} // verus!
