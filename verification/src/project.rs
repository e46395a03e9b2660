//! Classification of a project by its manifest.

use crate::substring::{contains, is_substring};
use crate::tool::ToolKind;
use vstd::prelude::*;

verus! {

/// What kind of project a directory holds.
#[derive(Clone, Copy, Debug, PartialEq, Eq, Structural)]
pub enum ProjectClassification {
    /// The manifest mentions the framework, or could not be read.
    FrameworkProject,
    /// The manifest was read and does not mention the framework.
    PlainProject,
}

/// The token whose presence in a manifest marks a framework project.
pub open spec fn framework_token() -> Seq<char> {
    "aztec"@
}

/// The classification of a project whose manifest holds `manifest`, or
/// could not be read (`None`). An unreadable manifest counts as a framework
/// project: the framework tool falls back to the plain compiler by itself,
/// and the plain compiler does not fall back to the framework tool.
pub open spec fn classification(manifest: Option<Seq<char>>) -> ProjectClassification {
    match manifest {
        Some(text) if !is_substring(framework_token(), text) => ProjectClassification::PlainProject,
        _ => ProjectClassification::FrameworkProject,
    }
}

impl ProjectClassification {
    /// The tool that is searched first for a project of this kind.
    pub open spec fn primary(self) -> ToolKind {
        match self {
            ProjectClassification::FrameworkProject => ToolKind::FrameworkCli,
            ProjectClassification::PlainProject => ToolKind::DirectCompiler,
        }
    }

    /// The tool that is searched when the primary one is not found.
    pub open spec fn fallback(self) -> ToolKind {
        self.primary().other()
    }

    /// The tool that is searched first for a project of this kind.
    pub fn primary_tool(self) -> (kind: ToolKind)
        ensures
            kind == self.primary(),
    {
        match self {
            ProjectClassification::FrameworkProject => ToolKind::FrameworkCli,
            ProjectClassification::PlainProject => ToolKind::DirectCompiler,
        }
    }

    /// The tool that is searched when the primary one is not found.
    pub fn fallback_tool(self) -> (kind: ToolKind)
        ensures
            kind == self.fallback(),
    {
        self.primary_tool().other_tool()
    }
}

/// Whether a project is a framework project, by the text of its manifest,
/// `None` where the manifest could not be read. Only the presence of the
/// framework's token counts; the manifest is not parsed.
pub fn is_aztec_project(manifest: Option<&str>) -> (framework: bool)
    ensures
        framework == (classification(manifest.deep_view())
            == ProjectClassification::FrameworkProject),
        manifest is None ==> framework,
        manifest is Some ==> framework == is_substring(framework_token(), manifest->0@),
{
    match manifest {
        Some(text) => contains(text, "aztec"),
        None => true,
    }
}

/// Classifies a project by the text of its manifest, `None` where the
/// manifest could not be read: a framework project where the manifest names
/// the framework or could not be read, a plain project else.
pub fn classify_project(manifest: Option<&str>) -> (project: ProjectClassification)
    ensures
        project == classification(manifest.deep_view()),
        manifest is None ==> project == ProjectClassification::FrameworkProject,
        manifest is Some ==> (project == ProjectClassification::FrameworkProject <==> is_substring(
            framework_token(),
            manifest->0@,
        )),
{
    if is_aztec_project(manifest) {
        ProjectClassification::FrameworkProject
    } else {
        ProjectClassification::PlainProject
    }
}

} // verus!
