//! The candidate locator: where a tool is, by the shell's search path first
//! and the well-known installation directory second.

use crate::resolver::AztecExtension;
use crate::tool::ToolKind;
use vstd::prelude::*;
use vstd::string::*;

verus! {

/// What the host found out about the file at a tool's well-known path.
#[derive(Clone, Copy, Debug, PartialEq, Eq, Structural)]
pub enum Existence {
    /// The file was looked for and is there.
    Present,
    /// The file was looked for and is not there.
    Absent,
    /// The host cannot look: it runs in a sandbox without access to the
    /// directory.
    Unverified,
}

/// What the host reports of one tool.
#[derive(Clone, Debug, PartialEq, Eq)]
pub struct ToolProbe {
    /// Where the shell's search path has the tool, if it has it.
    pub on_path: Option<String>,
    /// Whether the tool's file is at its well-known path under the home
    /// directory. It counts only where a home directory is known.
    pub installed: Existence,
}

/// The mathematical model of a `ToolProbe`.
pub struct ToolProbeView {
    pub on_path: Option<Seq<char>>,
    pub installed: Existence,
}

impl View for ToolProbe {
    type V = ToolProbeView;

    open spec fn view(&self) -> ToolProbeView {
        ToolProbeView { on_path: self.on_path.deep_view(), installed: self.installed }
    }
}

/// The well-known path of a tool under the home directory `home`.
pub open spec fn well_known_path(home: Seq<char>, kind: ToolKind) -> Seq<char> {
    home + "/.aztec/bin/"@ + kind.name()
}

/// Whether the search for a tool ends at its well-known path: the search
/// path does not have the tool, a home directory is known, and the file was
/// not found missing there.
pub open spec fn taken_from_install_dir(probe: ToolProbeView, home: Option<Seq<char>>) -> bool {
    probe.on_path is None && home is Some && probe.installed != Existence::Absent
}

/// Where the tool of kind `kind` is. The first match counts: the entry on the
/// search path; else the well-known path under `home`, unless the host looked
/// there and found no file; else nowhere.
pub open spec fn located(
    kind: ToolKind,
    probe: ToolProbeView,
    home: Option<Seq<char>>,
) -> Option<Seq<char>> {
    match probe.on_path {
        Some(path) => Some(path),
        None => if taken_from_install_dir(probe, home) {
            Some(well_known_path(home->0, kind))
        } else {
            None
        },
    }
}

/// What the resolver remembers after a search: the well-known path where the
/// search ended there, else what it remembered before.
pub open spec fn cache_after_search(
    cache: Option<Seq<char>>,
    kind: ToolKind,
    probe: ToolProbeView,
    home: Option<Seq<char>>,
) -> Option<Seq<char>> {
    if taken_from_install_dir(probe, home) {
        Some(well_known_path(home->0, kind))
    } else {
        cache
    }
}

/// The well-known path of a tool under the home directory `home`.
pub fn install_path(home: &String, kind: ToolKind) -> (path: String)
    ensures
        path@ == well_known_path(home@, kind),
{
    let mut path = home.clone();
    path.append("/.aztec/bin/");
    path.append(kind.executable_name());
    path
}

impl AztecExtension {
    /// Searches for the tool of kind `kind`, given what the host reports of
    /// it and the home directory, if one is known. A path that is taken from
    /// the well-known installation directory is remembered.
    pub fn locate(
        &mut self,
        kind: ToolKind,
        probe: ToolProbe,
        home: Option<&String>,
    ) -> (found: Option<String>)
        ensures
            found.deep_view() == located(kind, probe@, home.deep_view()),
            final(self).cache() == cache_after_search(
                old(self).cache(),
                kind,
                probe@,
                home.deep_view(),
            ),
    {
        if let Some(path) = probe.on_path {
            return Some(path);
        }
        if let Some(home) = home {
            match probe.installed {
                Existence::Absent => {},
                _ => {
                    let path = install_path(home, kind);
                    self.cached_binary_path = Some(path.clone());
                    return Some(path);
                },
            }
        }
        None
    }

    /// Searches for the framework tool.
    pub fn find_aztec(&mut self, probe: ToolProbe, home: Option<&String>) -> (found: Option<String>)
        ensures
            found.deep_view() == located(ToolKind::FrameworkCli, probe@, home.deep_view()),
            final(self).cache() == cache_after_search(
                old(self).cache(),
                ToolKind::FrameworkCli,
                probe@,
                home.deep_view(),
            ),
    {
        self.locate(ToolKind::FrameworkCli, probe, home)
    }

    /// Searches for the direct compiler.
    pub fn find_nargo(&mut self, probe: ToolProbe, home: Option<&String>) -> (found: Option<String>)
        ensures
            found.deep_view() == located(ToolKind::DirectCompiler, probe@, home.deep_view()),
            final(self).cache() == cache_after_search(
                old(self).cache(),
                ToolKind::DirectCompiler,
                probe@,
                home.deep_view(),
            ),
    {
        self.locate(ToolKind::DirectCompiler, probe, home)
    }
}

} // verus!
