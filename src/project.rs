//! Projects: metadata and configuration of a design.
use vstd::prelude::*;
use crate::domain::HardwareDomain;

verus! {

/// Metadata of a project.
#[derive(Debug)]
pub struct ProjectMetadata {
    pub name: String,
    pub version: String,
    pub format_version: String,
    pub domain: HardwareDomain,
    pub author: Option<String>,
    pub description: Option<String>,
    pub license: Option<String>,
}

/// Schematic files of a project, as paths.
#[derive(Debug)]
pub struct SchematicConfig {
    pub main: Option<String>,
    pub sheets: Vec<String>,
}

/// Layout file of a project, as a path.
#[derive(Debug)]
pub struct PcbConfig {
    pub layout: String,
    pub stackup: Option<String>,
}

/// Library locations of a project.
#[derive(Debug)]
pub struct LibraryConfig {
    pub local: Vec<String>,
    pub remote: Vec<String>,
}

/// Which outputs a project generates.
#[derive(Debug)]
pub struct OutputConfig {
    pub gerber: bool,
    pub ipc2581: bool,
    pub odbpp: bool,
    pub step: bool,
}

impl Default for OutputConfig {
    /// Gerber files only.
    fn default() -> (r: OutputConfig)
        ensures
            r.gerber && !r.ipc2581 && !r.odbpp && !r.step,
    {
        OutputConfig { gerber: true, ipc2581: false, odbpp: false, step: false }
    }
}

/// A project.
#[derive(Debug)]
pub struct Project {
    pub project: ProjectMetadata,
    pub schematics: SchematicConfig,
    pub pcb: Option<PcbConfig>,
    pub libraries: LibraryConfig,
    pub output: OutputConfig,
}

/// The version a new project starts at.
pub fn default_version() -> (r: String)
    ensures
        r@ == "0.1.0"@,
{
    "0.1.0".to_owned()
}

/// The project file format version.
pub fn default_format_version() -> (r: String)
    ensures
        r@ == "1"@,
{
    "1".to_owned()
}

impl Project {
    /// A new project with default configuration.
    pub fn new(name: &str, domain: HardwareDomain) -> (r: Project)
        ensures
            r.project.name@ == name@,
            r.project.version@ == "0.1.0"@,
            r.project.format_version@ == "1"@,
            r.project.domain == domain,
            r.project.author is None,
            r.project.description is None,
            r.project.license is None,
            r.schematics.main is None,
            r.schematics.sheets@.len() == 0,
            r.pcb is None,
            r.libraries.local@.len() == 0,
            r.libraries.remote@.len() == 0,
            r.output.gerber && !r.output.ipc2581 && !r.output.odbpp && !r.output.step,
    {
        Project {
            project: ProjectMetadata {
                name: name.to_owned(),
                version: default_version(),
                format_version: default_format_version(),
                domain,
                author: None,
                description: None,
                license: None,
            },
            schematics: SchematicConfig { main: None, sheets: Vec::new() },
            pcb: None,
            libraries: LibraryConfig { local: Vec::new(), remote: Vec::new() },
            output: OutputConfig::default(),
        }
    }
}

} // verus!
