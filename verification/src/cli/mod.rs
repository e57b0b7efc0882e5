//! The command line: its commands, and what the discovery command reports.
use vstd::prelude::*;

use crate::config::GlobalConfig;
use crate::projects::DiscoveredProject;
use crate::text::{decimal_text, strs, u64_to_text};

verus! {

/// The command line: a command, or none (which opens the interface).
#[derive(Debug)]
pub struct Cli {
    pub command: Option<Commands>,
}

/// The commands of the command line.
#[derive(Debug)]
pub enum Commands {
    /// Initialize a new project
    Init {
        /// Ecosystem (e.g., go, bun, rust)
        ecosystem: String,
        /// Project type (e.g., cli, desktop, web)
        project_type: String,
        /// Project name
        name: String,
    },
    /// Discover and list all projects
    Discover,
    /// Launch TUI
    Tui,
}

/// The line that lists a discovered project.
pub open spec fn project_entry(p: DiscoveredProject) -> Seq<char> {
    "  • "@ + p.config.project.name@ + " ("@ + p.config.project.ecosystem@ + "/"@
        + p.config.project.project_type@ + ") at "@ + p.path@
}

/// What `byte discover` prints after its first line: the projects found, or
/// where it looked when there are none.
pub open spec fn discovery_report_of(g: GlobalConfig, projects: Seq<DiscoveredProject>) -> Seq<Seq<char>> {
    if projects.len() == 0 {
        seq!["No projects found."@, "\nSearched in:"@, "  - Primary workspace: "@ + g.workspace.path@]
            + strs(g.workspace.registered@).map_values(|r: Seq<char>| "  - Registered: "@ + r)
    } else {
        seq![
            "Found "@ + decimal_text(projects.len() as int) + " project"@ + (if projects.len() == 1 {
                ""@
            } else {
                "s"@
            }) + ":\n"@,
        ] + projects.map_values(|p: DiscoveredProject| project_entry(p))
    }
}

fn push_line(out: &mut Vec<String>, s: String)
    ensures
        strs(final(out)@) == strs(old(out)@).push(s@),
{
    let ghost before = out@;
    out.push(s);
    assert(strs(out@) =~= strs(before).push(s@));
}

/// The lines `byte discover` prints after its first line.
pub fn discovery_report(global: &GlobalConfig, projects: &Vec<DiscoveredProject>) -> (r: Vec<String>)
    ensures
        strs(r@) == discovery_report_of(*global, projects@),
{
    let mut out: Vec<String> = Vec::new();
    if projects.len() == 0 {
        push_line(&mut out, String::from_str("No projects found."));
        push_line(&mut out, String::from_str("\nSearched in:"));
        let mut p = String::from_str("  - Primary workspace: ");
        p.append(global.workspace.path.as_str());
        push_line(&mut out, p);
        let ghost head = strs(out@);
        let ghost reg = strs(global.workspace.registered@);
        let mut i: usize = 0;
        while i < global.workspace.registered.len()
            invariant
                i <= global.workspace.registered@.len(),
                reg == strs(global.workspace.registered@),
                strs(out@) == head + reg.subrange(0, i as int).map_values(
                    |r: Seq<char>| "  - Registered: "@ + r,
                ),
            decreases global.workspace.registered.len() - i,
        {
            let mut l = String::from_str("  - Registered: ");
            l.append(global.workspace.registered[i].as_str());
            push_line(&mut out, l);
            i = i + 1;
            assert(reg.subrange(0, i as int).map_values(|r: Seq<char>| "  - Registered: "@ + r)
                =~= reg.subrange(0, i - 1).map_values(|r: Seq<char>| "  - Registered: "@ + r).push(
                "  - Registered: "@ + reg[i - 1],
            ));
            assert(strs(out@) =~= head + reg.subrange(0, i as int).map_values(
                |r: Seq<char>| "  - Registered: "@ + r,
            ));
        }
        assert(reg.subrange(0, reg.len() as int) =~= reg);
        assert(strs(out@) =~= discovery_report_of(*global, projects@));
        return out;
    }
    let n = projects.len();
    let mut first = String::from_str("Found ");
    first.append(u64_to_text(n as u64).as_str());
    first.append(" project");
    first.append(if n == 1 { "" } else { "s" });
    first.append(":\n");
    push_line(&mut out, first);
    let ghost head = strs(out@);
    let mut i: usize = 0;
    while i < projects.len()
        invariant
            i <= projects@.len(),
            strs(out@) == head + projects@.subrange(0, i as int).map_values(
                |p: DiscoveredProject| project_entry(p),
            ),
        decreases projects.len() - i,
    {
        let p = &projects[i];
        let mut l = String::from_str("  • ");
        l.append(p.config.project.name.as_str());
        l.append(" (");
        l.append(p.config.project.ecosystem.as_str());
        l.append("/");
        l.append(p.config.project.project_type.as_str());
        l.append(") at ");
        l.append(p.path.as_str());
        push_line(&mut out, l);
        i = i + 1;
        assert(projects@.subrange(0, i as int).map_values(|p: DiscoveredProject| project_entry(p))
            =~= projects@.subrange(0, i - 1).map_values(|p: DiscoveredProject| project_entry(p)).push(
            project_entry(projects@[i - 1]),
        ));
        assert(strs(out@) =~= head + projects@.subrange(0, i as int).map_values(
            |p: DiscoveredProject| project_entry(p),
        ));
    }
    assert(projects@.subrange(0, projects@.len() as int) =~= projects@);
    assert(strs(out@) =~= discovery_report_of(*global, projects@));
    out
}

} // verus!
