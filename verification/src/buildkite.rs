//! Build events of the CI system: the payload's shape and how it is read out
//! of a JSON value.

use vstd::prelude::*;
use vstd::string::*;
use crate::json::{Json, JsonValue};
use crate::text::str_eq;

verus! {

/// The state that a build event reports.
#[derive(Debug, Clone, Copy, PartialEq, Eq, Structural)]
pub enum BuildState {
    Failing,
    Scheduled,
    Running,
    Failed,
    Canceled,
}

/// The state that the wire tag `tag` stands for.
pub open spec fn state_of_tag(tag: Seq<char>) -> Option<BuildState> {
    if tag == "failing"@ {
        Some(BuildState::Failing)
    } else if tag == "scheduled"@ {
        Some(BuildState::Scheduled)
    } else if tag == "running"@ {
        Some(BuildState::Running)
    } else if tag == "failed"@ {
        Some(BuildState::Failed)
    } else if tag == "canceled"@ {
        Some(BuildState::Canceled)
    } else {
        None
    }
}

impl BuildState {
    /// The label under which a state is shown: the variant's name.
    pub open spec fn label_of(self) -> Seq<char> {
        match self {
            BuildState::Failing => "Failing"@,
            BuildState::Scheduled => "Scheduled"@,
            BuildState::Running => "Running"@,
            BuildState::Failed => "Failed"@,
            BuildState::Canceled => "Canceled"@,
        }
    }

    /// The label under which the state is shown.
    pub fn label(&self) -> (name: &'static str)
        ensures
            name@ == self.label_of(),
    {
        match self {
            BuildState::Failing => "Failing",
            BuildState::Scheduled => "Scheduled",
            BuildState::Running => "Running",
            BuildState::Failed => "Failed",
            BuildState::Canceled => "Canceled",
        }
    }

    /// Reads a state from its wire tag; `None` for any other text.
    pub fn from_tag(tag: &str) -> (state: Option<BuildState>)
        ensures
            state == state_of_tag(tag@),
    {
        if str_eq(tag, "failing") {
            Some(BuildState::Failing)
        } else if str_eq(tag, "scheduled") {
            Some(BuildState::Scheduled)
        } else if str_eq(tag, "running") {
            Some(BuildState::Running)
        } else if str_eq(tag, "failed") {
            Some(BuildState::Failed)
        } else if str_eq(tag, "canceled") {
            Some(BuildState::Canceled)
        } else {
            None
        }
    }
}

/// The pipeline that a build belongs to.
#[derive(Debug, PartialEq, Eq)]
pub struct Pipeline {
    pub name: String,
    pub web_url: String,
    pub repository: String,
}

/// A pipeline as plain sequences of characters.
pub struct PipelineView {
    pub name: Seq<char>,
    pub web_url: Seq<char>,
    pub repository: Seq<char>,
}

impl View for Pipeline {
    type V = PipelineView;

    open spec fn view(&self) -> PipelineView {
        PipelineView { name: self.name@, web_url: self.web_url@, repository: self.repository@ }
    }
}

/// One build of a pipeline.
#[derive(Debug, PartialEq, Eq)]
pub struct Build {
    pub number: String,
    pub commit: String,
    pub created_at: String,
    pub state: BuildState,
}

/// A build as plain sequences of characters.
pub struct BuildView {
    pub number: Seq<char>,
    pub commit: Seq<char>,
    pub created_at: Seq<char>,
    pub state: BuildState,
}

impl View for Build {
    type V = BuildView;

    open spec fn view(&self) -> BuildView {
        BuildView {
            number: self.number@,
            commit: self.commit@,
            created_at: self.created_at@,
            state: self.state,
        }
    }
}

/// A build event: a build, its pipeline and who started it.
#[derive(Debug, PartialEq, Eq)]
pub struct BuildData {
    pub pipeline: Pipeline,
    pub build: Build,
    pub sender_name: String,
    pub creator_avatar: String,
}

/// A build event as plain sequences of characters.
pub struct BuildDataView {
    pub pipeline: PipelineView,
    pub build: BuildView,
    pub sender_name: Seq<char>,
    pub creator_avatar: Seq<char>,
}

impl View for BuildData {
    type V = BuildDataView;

    open spec fn view(&self) -> BuildDataView {
        BuildDataView {
            pipeline: self.pipeline@,
            build: self.build@,
            sender_name: self.sender_name@,
            creator_avatar: self.creator_avatar@,
        }
    }
}

/// The pipeline that the JSON value `v` holds: an object with the strings
/// `name`, `web_url` and `repository`.
pub open spec fn pipeline_of(v: Json) -> Option<PipelineView> {
    match (v.text_member("name"@), v.text_member("web_url"@), v.text_member("repository"@)) {
        (Some(name), Some(web_url), Some(repository)) => Some(
            PipelineView { name, web_url, repository },
        ),
        _ => None,
    }
}

/// The build that the JSON value `v` holds: an object with the strings
/// `number`, `commit` and `created_at`, and a `state` that is one of the
/// known tags.
pub open spec fn build_of(v: Json) -> Option<BuildView> {
    match (
        v.text_member("number"@),
        v.text_member("commit"@),
        v.text_member("created_at"@),
        v.text_member("state"@),
    ) {
        (Some(number), Some(commit), Some(created_at), Some(tag)) => match state_of_tag(tag) {
            Some(state) => Some(BuildView { number, commit, created_at, state }),
            None => None,
        },
        _ => None,
    }
}

/// The build event that the JSON value `v` holds: an object with a
/// `pipeline`, a `build` and the strings `sender_name` and `creator_avatar`.
/// Members beyond these are passed over.
pub open spec fn build_data_of(v: Json) -> Option<BuildDataView> {
    match (
        v.member("pipeline"@),
        v.member("build"@),
        v.text_member("sender_name"@),
        v.text_member("creator_avatar"@),
    ) {
        (Some(p), Some(b), Some(sender_name), Some(creator_avatar)) => match (
            pipeline_of(p),
            build_of(b),
        ) {
            (Some(pipeline), Some(build)) => Some(
                BuildDataView { pipeline, build, sender_name, creator_avatar },
            ),
            _ => None,
        },
        _ => None,
    }
}

impl Pipeline {
    /// Reads a pipeline out of a JSON value.
    pub fn from_json(v: &JsonValue) -> (read: Option<Pipeline>)
        ensures
            read is Some <==> pipeline_of(v@) is Some,
            read matches Some(p) ==> Some(p@) == pipeline_of(v@),
    {
        match (v.get_text("name"), v.get_text("web_url"), v.get_text("repository")) {
            (Some(name), Some(web_url), Some(repository)) => Some(
                Pipeline {
                    name: String::from_str(name),
                    web_url: String::from_str(web_url),
                    repository: String::from_str(repository),
                },
            ),
            _ => None,
        }
    }
}

impl Build {
    /// Reads a build out of a JSON value.
    pub fn from_json(v: &JsonValue) -> (read: Option<Build>)
        ensures
            read is Some <==> build_of(v@) is Some,
            read matches Some(b) ==> Some(b@) == build_of(v@),
    {
        match (
            v.get_text("number"),
            v.get_text("commit"),
            v.get_text("created_at"),
            v.get_text("state"),
        ) {
            (Some(number), Some(commit), Some(created_at), Some(tag)) => match BuildState::from_tag(
                tag,
            ) {
                Some(state) => Some(
                    Build {
                        number: String::from_str(number),
                        commit: String::from_str(commit),
                        created_at: String::from_str(created_at),
                        state,
                    },
                ),
                None => None,
            },
            _ => None,
        }
    }
}

impl BuildData {
    /// Reads a build event out of a JSON value.
    pub fn from_json(v: &JsonValue) -> (read: Option<BuildData>)
        ensures
            read is Some <==> build_data_of(v@) is Some,
            read matches Some(b) ==> Some(b@) == build_data_of(v@),
    {
        match (
            v.get("pipeline"),
            v.get("build"),
            v.get_text("sender_name"),
            v.get_text("creator_avatar"),
        ) {
            (Some(p), Some(b), Some(sender_name), Some(creator_avatar)) => match (
                Pipeline::from_json(p),
                Build::from_json(b),
            ) {
                (Some(pipeline), Some(build)) => Some(
                    BuildData {
                        pipeline,
                        build,
                        sender_name: String::from_str(sender_name),
                        creator_avatar: String::from_str(creator_avatar),
                    },
                ),
                _ => None,
            },
            _ => None,
        }
    }
}

} // verus!
