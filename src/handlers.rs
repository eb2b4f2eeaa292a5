//! The commands' work: the request to make, and what to show for its answer.
use vstd::prelude::*;

use crate::completer::names_of;
use crate::config::Configuration;
use crate::ordering::{ordered_projects, ordered_tasks, sort_items, sort_projects};
use crate::render::{
    item_line, project_color, project_line, render_item, render_project, OutputLine,
};
use crate::types::{ItemStruct, ProjectStruct, SyncStruct};

verus! {

/// The resource collections that can be requested from the sync endpoint.
#[derive(Clone, Copy, Debug, PartialEq, Eq)]
pub enum TodrResourceType {
    Items,
    Projects,
}

/// Why a command produced no listing.
#[derive(Clone, Debug, PartialEq, Eq)]
pub enum CommandError {
    /// No authentication token was configured.
    MissingToken,
    /// The fetch failed; the fetcher's own diagnostic.
    Fetch(String),
    /// The response holds no task collection.
    MissingItems,
    /// The response holds no project collection.
    MissingProjects,
    /// A project has a color id outside the known table.
    UnknownColor(u8),
}

/// The `resource_types` parameter: a JSON array that names one collection.
pub open spec fn resource_param(t: TodrResourceType) -> Seq<char> {
    match t {
        TodrResourceType::Items => "[\"items\"]"@,
        TodrResourceType::Projects => "[\"projects\"]"@,
    }
}

/// The one-line diagnostic for an error.
pub open spec fn error_message(e: CommandError) -> Seq<char> {
    match e {
        CommandError::MissingToken => "TODR_AUTHTOKEN is not set"@,
        CommandError::Fetch(m) => m@,
        CommandError::MissingItems => "Failed to parse items JSON"@,
        CommandError::MissingProjects => "Failed to parse projects JSON"@,
        CommandError::UnknownColor(_) => "Unknown color id"@,
    }
}

/// The query of a full-snapshot request for one collection.
pub open spec fn query_is(q: Seq<(String, String)>, token: Seq<char>, resources: Seq<char>) -> bool {
    &&& q.len() == 4
    &&& q[0].0@ == "token"@ && q[0].1@ == token
    &&& q[1].0@ == "sync_token"@ && q[1].1@ == "*"@
    &&& q[2].0@ == "resource_types"@ && q[2].1@ == resources
    &&& q[3].0@ == "all_data"@ && q[3].1@ == "true"@
}

/// `out` shows `items`, one default-colored line each, in their order.
pub open spec fn item_lines(out: Seq<OutputLine>, items: Seq<ItemStruct>) -> bool {
    &&& out.len() == items.len()
    &&& forall|i: int|
        0 <= i < out.len() ==> (#[trigger] out[i]).color is None && out[i].text@ == item_line(
            items[i],
        )
}

/// `out` shows `projects`, one line each in its project's color, in their order.
pub open spec fn project_lines(out: Seq<OutputLine>, projects: Seq<ProjectStruct>) -> bool {
    &&& out.len() == projects.len()
    &&& forall|i: int|
        0 <= i < out.len() ==> (#[trigger] out[i]).color == project_color(projects[i].color)
            && out[i].text@ == project_line(projects[i])
}

/// Every project in `ps` has a known color id.
pub open spec fn all_colors_known(ps: Seq<ProjectStruct>) -> bool {
    forall|j: int| 0 <= j < ps.len() ==> (#[trigger] project_color(ps[j].color)) is Some
}

/// The first project in `ps` whose color id is unknown is the one at `i`.
pub open spec fn first_unknown_color(ps: Seq<ProjectStruct>, i: int) -> bool {
    &&& 0 <= i < ps.len()
    &&& project_color(ps[i].color) is None
    &&& forall|j: int| 0 <= j < i ==> (#[trigger] project_color(ps[j].color)) is Some
}

/// The `resource_types` parameter for a collection.
pub fn to_resource_type(resource_type: &TodrResourceType) -> (r: String)
    ensures
        r@ == resource_param(*resource_type),
{
    match resource_type {
        TodrResourceType::Items => String::from_str("[\"items\"]"),
        TodrResourceType::Projects => String::from_str("[\"projects\"]"),
    }
}

impl CommandError {
    /// The one-line diagnostic for this error.
    pub fn message(&self) -> (r: String)
        ensures
            r@ == error_message(*self),
    {
        match self {
            CommandError::MissingToken => String::from_str("TODR_AUTHTOKEN is not set"),
            CommandError::Fetch(m) => m.clone(),
            CommandError::MissingItems => String::from_str("Failed to parse items JSON"),
            CommandError::MissingProjects => String::from_str("Failed to parse projects JSON"),
            CommandError::UnknownColor(_) => String::from_str("Unknown color id"),
        }
    }
}

fn pair(k: &str, v: String) -> (r: (String, String))
    ensures
        r.0@ == k@,
        r.1@ == v@,
{
    (String::from_str(k), v)
}

/// The query parameters of a full-snapshot request for one collection; an
/// error when no token is configured.
pub fn request_query(config: &Configuration, resource_type: &TodrResourceType) -> (r: Result<
    Vec<(String, String)>,
    CommandError,
>)
    ensures
        match config.token {
            None => r == Err::<Vec<(String, String)>, CommandError>(CommandError::MissingToken),
            Some(t) => r is Ok && query_is(r->Ok_0@, t@, resource_param(*resource_type)),
        },
{
    let token = match config.api_token() {
        Ok(t) => t,
        Err(e) => return Err(e),
    };
    let mut q: Vec<(String, String)> = Vec::new();
    q.push(pair("token", token));
    q.push(pair("sync_token", String::from_str("*")));
    q.push(pair("resource_types", to_resource_type(resource_type)));
    q.push(pair("all_data", String::from_str("true")));
    Ok(q)
}

/// The lines for `items`, in their order.
fn render_items(items: &Vec<ItemStruct>) -> (r: Vec<OutputLine>)
    ensures
        item_lines(r@, items@),
{
    let mut out: Vec<OutputLine> = Vec::new();
    let mut i: usize = 0;
    while i < items.len()
        invariant
            i <= items@.len(),
            item_lines(out@, items@.take(i as int)),
        decreases items.len() - i,
    {
        let line = render_item(&items[i]);
        out.push(line);
        i = i + 1;
        assert(item_lines(out@, items@.take(i as int))) by {
            assert forall|j: int| 0 <= j < out@.len() implies (#[trigger] out@[j]).color is None
                && out@[j].text@ == item_line(items@.take(i as int)[j]) by {
                if j < i - 1 {
                    assert(items@.take(i as int)[j] == items@.take(i - 1)[j]);
                }
            }
        }
    }
    assert(items@.take(i as int) =~= items@);
    out
}

/// The lines for `projects`, in their order; the unknown color of the first
/// project that has one otherwise.
fn render_projects(projects: &Vec<ProjectStruct>) -> (r: Result<Vec<OutputLine>, CommandError>)
    ensures
        match r {
            Ok(out) => all_colors_known(projects@) && project_lines(out@, projects@),
            Err(e) => exists|i: int|
                first_unknown_color(projects@, i) && e == CommandError::UnknownColor(
                    projects@[i].color,
                ),
        },
{
    let mut out: Vec<OutputLine> = Vec::new();
    let mut i: usize = 0;
    while i < projects.len()
        invariant
            i <= projects@.len(),
            project_lines(out@, projects@.take(i as int)),
            forall|j: int| 0 <= j < i ==> (#[trigger] project_color(projects@[j].color)) is Some,
        decreases projects.len() - i,
    {
        match render_project(&projects[i]) {
            None => {
                assert(first_unknown_color(projects@, i as int));
                return Err(CommandError::UnknownColor(projects[i].color));
            },
            Some(line) => {
                out.push(line);
            },
        }
        i = i + 1;
        assert(project_lines(out@, projects@.take(i as int))) by {
            assert forall|j: int| 0 <= j < out@.len() implies (#[trigger] out@[j]).color
                == project_color(projects@.take(i as int)[j].color) && out@[j].text@
                == project_line(projects@.take(i as int)[j]) by {
                if j < i - 1 {
                    assert(projects@.take(i as int)[j] == projects@.take(i - 1)[j]);
                }
            }
        }
    }
    assert(projects@.take(i as int) =~= projects@);
    Ok(out)
}

/// Lists the tasks of a fetched data set: grouped by project, by rank within
/// a project. Fails on a failed fetch or a data set without tasks.
pub fn items_command(fetched: Result<SyncStruct, String>) -> (r: Result<Vec<OutputLine>, CommandError>)
    ensures
        match fetched {
            Err(e) => r == Err::<Vec<OutputLine>, CommandError>(CommandError::Fetch(e)),
            Ok(s) => match s.items {
                None => r == Err::<Vec<OutputLine>, CommandError>(CommandError::MissingItems),
                Some(v) => r is Ok && item_lines(r->Ok_0@, ordered_tasks(v@)),
            },
        },
{
    match fetched {
        Err(e) => Err(CommandError::Fetch(e)),
        Ok(s) => match s.items {
            None => Err(CommandError::MissingItems),
            Some(v) => {
                let sorted = sort_items(v);
                Ok(render_items(&sorted))
            },
        },
    }
}

/// Lists the projects of a fetched data set by rank. Fails on a failed
/// fetch, a data set without projects, or a project whose color id is
/// unknown (the first such project in listing order); nothing is rendered
/// until every project is known to render.
pub fn projects_command(fetched: Result<SyncStruct, String>) -> (r: Result<
    Vec<OutputLine>,
    CommandError,
>)
    ensures
        match fetched {
            Err(e) => r == Err::<Vec<OutputLine>, CommandError>(CommandError::Fetch(e)),
            Ok(s) => match s.projects {
                None => r == Err::<Vec<OutputLine>, CommandError>(CommandError::MissingProjects),
                Some(v) => match r {
                    Ok(out) => all_colors_known(ordered_projects(v@)) && project_lines(
                        out@,
                        ordered_projects(v@),
                    ),
                    Err(e) => exists|i: int|
                        first_unknown_color(ordered_projects(v@), i) && e
                            == CommandError::UnknownColor(ordered_projects(v@)[i].color),
                },
            },
        },
{
    match fetched {
        Err(e) => Err(CommandError::Fetch(e)),
        Ok(s) => match s.projects {
            None => Err(CommandError::MissingProjects),
            Some(v) => {
                let sorted = sort_projects(v);
                render_projects(&sorted)
            },
        },
    }
}

/// The help text: the four commands with their aliases.
pub open spec fn help_lines() -> Seq<Seq<char>> {
    seq![
        ""@,
        "Commands:"@,
        ""@,
        "  h | help  - This help message"@,
        ""@,
        "  i | items - List all active todo items."@,
        ""@,
        "  p | projs - List all active projects."@,
        ""@,
        "  q | quit  - Exit the application."@,
        ""@,
    ]
}

/// The help text, one string per line.
pub fn help_command() -> (r: Vec<String>)
    ensures
        names_of(r@) == help_lines(),
{
    let r = vec![
        String::from_str(""),
        String::from_str("Commands:"),
        String::from_str(""),
        String::from_str("  h | help  - This help message"),
        String::from_str(""),
        String::from_str("  i | items - List all active todo items."),
        String::from_str(""),
        String::from_str("  p | projs - List all active projects."),
        String::from_str(""),
        String::from_str("  q | quit  - Exit the application."),
        String::from_str(""),
    ];
    assert(names_of(r@) =~= help_lines());
    r
}

/// The message for a line that names no command: the line, verbatim.
pub fn unknown_command(command: &str) -> (r: String)
    ensures
        r@ == "Unknown Command: "@ + command@,
{
    let mut r = String::from_str("Unknown Command: ");
    r.append(command);
    r
}

} // verus!
