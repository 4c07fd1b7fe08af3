use vstd::prelude::*;

verus! {

/// Why `angular.json` could not be given the styles of a UI library.
#[derive(Debug, Clone, Copy, PartialEq, Eq, Structural)]
pub enum AngularJsonError {
    /// The file is not JSON.
    InvalidJson,
    /// The document has no `projects` object.
    MissingProjects,
    /// The `projects` object is empty.
    NoProjects,
    /// The first project has no `/architect/build/options/styles` array.
    MissingStyles,
    /// The updated document could not be rendered back to text.
    RenderFailed,
}

/// Errors of a `ngseed` run.
#[derive(Debug)]
pub enum SeedError {
    /// The directory the project would be created in already exists.
    ProjectExists { project_name: String },
    /// A tool the project needs did not answer `--version`.
    ToolRequired { tool: String, source: Box<SeedError> },
    /// `angular.json` could not be updated; for a document that does not
    /// parse or render, serde_json's account of why.
    AngularJson(AngularJsonError, Option<String>),
    /// A failure reported by a port (a prompt, a process, the file system),
    /// already worded for the user.
    Failure { message: String },
}

/// The text shown for an `angular.json` problem.
pub open spec fn angular_json_message(kind: AngularJsonError) -> Seq<char> {
    match kind {
        AngularJsonError::InvalidJson => "failed to parse angular.json as JSON"@,
        AngularJsonError::MissingProjects => "angular.json is missing `projects`"@,
        AngularJsonError::NoProjects => "angular.json has no projects entries"@,
        AngularJsonError::MissingStyles => "angular.json is missing /architect/build/options/styles"@,
        AngularJsonError::RenderFailed => "failed to render angular.json"@,
    }
}

/// The text shown for an error: its own words, then, after `: `, those of
/// the error it wraps.
pub open spec fn error_message(e: SeedError) -> Seq<char>
    decreases e,
{
    match e {
        SeedError::ProjectExists { project_name } => "project directory `"@ + project_name@
            + "` already exists. Choose a different project name."@,
        SeedError::ToolRequired { tool, source } => "`"@ + tool@ + "` is required. Install it and retry."@
            + ": "@ + error_message(*source),
        SeedError::AngularJson(kind, cause) => angular_json_message(kind) + match cause {
            Some(cause) => ": "@ + cause@,
            None => Seq::<char>::empty(),
        },
        SeedError::Failure { message } => message@,
    }
}

fn angular_json_text(kind: AngularJsonError) -> (text: &'static str)
    ensures
        text@ == angular_json_message(kind),
{
    match kind {
        AngularJsonError::InvalidJson => "failed to parse angular.json as JSON",
        AngularJsonError::MissingProjects => "angular.json is missing `projects`",
        AngularJsonError::NoProjects => "angular.json has no projects entries",
        AngularJsonError::MissingStyles => "angular.json is missing /architect/build/options/styles",
        AngularJsonError::RenderFailed => "failed to render angular.json",
    }
}

impl SeedError {
    /// The message shown to the user for this error.
    pub fn message(&self) -> (text: String)
        ensures
            text@ == error_message(*self),
        decreases self,
    {
        match self {
            SeedError::ProjectExists { project_name } => {
                let mut text = String::from_str("project directory `");
                text.append(project_name.as_str());
                text.append("` already exists. Choose a different project name.");
                text
            },
            SeedError::ToolRequired { tool, source } => {
                let mut text = String::from_str("`");
                text.append(tool.as_str());
                text.append("` is required. Install it and retry.");
                text.append(": ");
                let inner = source.message();
                text.append(inner.as_str());
                text
            },
            SeedError::AngularJson(kind, cause) => {
                let mut text = String::from_str(angular_json_text(*kind));
                match cause {
                    Some(cause) => {
                        text.append(": ");
                        text.append(cause.as_str());
                    },
                    None => {},
                }
                text
            },
            SeedError::Failure { message } => message.clone(),
        }
    }
}

} // verus!
