//! Configuration and selection types consumed by the command-line front end,
//! and the filter predicate evaluated by the stores.

use vstd::prelude::*;

verus! {

use crate::error::EnumParseError;
use crate::task::{prio_str, status_str, str_eq, Task};
use crate::text::{contains_str, is_substring};

/// Which storage backend a manager is built over.
#[derive(Debug, Clone, Copy, PartialEq, Eq, PartialOrd, Ord, Structural)]
pub enum Datasources {
    SqlLite,
}

/// Settings for the SQL-backed store: the backend tag and the database path.
#[derive(Debug, Clone)]
pub struct SqlLiteSettings {
    pub datasource: Datasources,
    pub path: String,
}

/// The default store location: `mytasks.sql` in the given home directory.
/// The home directory is handed in by the caller, which keeps this a pure
/// function of its input.
pub fn default_sqllite_settings(home_dir: &String) -> (r: SqlLiteSettings)
    ensures
        r.datasource == Datasources::SqlLite,
        r.path@ == home_dir@ + "/mytasks.sql"@,
{
    let mut path = home_dir.clone();
    path.append("/mytasks.sql");
    SqlLiteSettings { datasource: Datasources::SqlLite, path }
}

/// A command the front end can run against the manager.
#[derive(Debug, Clone, Copy, PartialEq, Eq, Structural)]
pub enum Command {
    Add,
    Remove,
    Edit,
    List,
    SetStatus,
    Show,
}

/// Parsed invocation: the command, an optional backend override, and
/// whether the listing should prompt for a filter.
#[derive(Debug)]
pub struct App {
    pub command: Command,
    pub datasource: Option<Datasources>,
    pub filter: bool,
}

/// Marker for a listing with no filter.
pub struct NoFilter {}

/// What a listing can be filtered by. A group filter is answered like a
/// name filter: tasks carry no group field.
#[derive(Debug, Clone, Copy, PartialEq, Eq, Structural)]
pub enum FilterOptions {
    ByName,
    ByStatus,
    ByGroup,
    ByPriority,
}

/// The display string of a filter option.
pub open spec fn filter_str(f: FilterOptions) -> Seq<char> {
    match f {
        FilterOptions::ByName => "By Name"@,
        FilterOptions::ByStatus => "By Status"@,
        FilterOptions::ByGroup => "By Group"@,
        FilterOptions::ByPriority => "By Priority"@,
    }
}

/// The filter option a display string names, if any.
pub open spec fn filter_of_str(s: Seq<char>) -> Option<FilterOptions> {
    if s == "By Name"@ {
        Some(FilterOptions::ByName)
    } else if s == "By Status"@ {
        Some(FilterOptions::ByStatus)
    } else if s == "By Group"@ {
        Some(FilterOptions::ByGroup)
    } else if s == "By Priority"@ {
        Some(FilterOptions::ByPriority)
    } else {
        None
    }
}

impl FilterOptions {
    /// The display string shown when choosing a filter.
    pub fn to_string(&self) -> (r: String)
        ensures
            r@ == filter_str(*self),
    {
        match self {
            FilterOptions::ByName => String::from_str("By Name"),
            FilterOptions::ByStatus => String::from_str("By Status"),
            FilterOptions::ByGroup => String::from_str("By Group"),
            FilterOptions::ByPriority => String::from_str("By Priority"),
        }
    }

    /// Parses a display string back into a filter option.
    pub fn from_str(s: &str) -> (r: Result<FilterOptions, EnumParseError>)
        ensures
            match filter_of_str(s@) {
                Some(f) => r == Ok::<FilterOptions, EnumParseError>(f),
                None => r is Err,
            },
    {
        if str_eq(s, "By Name") {
            Ok(FilterOptions::ByName)
        } else if str_eq(s, "By Status") {
            Ok(FilterOptions::ByStatus)
        } else if str_eq(s, "By Group") {
            Ok(FilterOptions::ByGroup)
        } else if str_eq(s, "By Priority") {
            Ok(FilterOptions::ByPriority)
        } else {
            Err(EnumParseError {})
        }
    }

    /// Every filter option, in declaration order.
    pub fn all() -> (r: Vec<FilterOptions>)
        ensures
            r@ == seq![
                FilterOptions::ByName,
                FilterOptions::ByStatus,
                FilterOptions::ByGroup,
                FilterOptions::ByPriority,
            ],
    {
        let mut v: Vec<FilterOptions> = Vec::new();
        v.push(FilterOptions::ByName);
        v.push(FilterOptions::ByStatus);
        v.push(FilterOptions::ByGroup);
        v.push(FilterOptions::ByPriority);
        proof {
            assert(v@ =~= seq![
                FilterOptions::ByName,
                FilterOptions::ByStatus,
                FilterOptions::ByGroup,
                FilterOptions::ByPriority,
            ]);
        }
        v
    }
}

/// Whether a task passes a filter. A name or group filter matches a run of
/// characters inside the short name; status and priority filters match the
/// canonical display string exactly. No filter admits everything.
pub open spec fn filter_matches(t: Task, f: Option<(FilterOptions, String)>) -> bool {
    match f {
        None => true,
        Some((FilterOptions::ByName, v)) => is_substring(t.short@, v@),
        Some((FilterOptions::ByGroup, v)) => is_substring(t.short@, v@),
        Some((FilterOptions::ByStatus, v)) => status_str(t.status) == v@,
        Some((FilterOptions::ByPriority, v)) => prio_str(t.prio) == v@,
    }
}

/// The filter predicate over tasks, as a single reusable function value.
pub open spec fn filter_pred(f: Option<(FilterOptions, String)>) -> spec_fn(Task) -> bool {
    |t: Task| filter_matches(t, f)
}

/// Evaluates `filter_matches` on a concrete task and filter.
pub fn matches_filter(t: &Task, f: &Option<(FilterOptions, String)>) -> (r: bool)
    ensures
        r == filter_matches(*t, *f),
{
    match f {
        None => true,
        Some((opt, v)) => match opt {
            FilterOptions::ByName => contains_str(t.short.as_str(), v.as_str()),
            FilterOptions::ByGroup => contains_str(t.short.as_str(), v.as_str()),
            FilterOptions::ByStatus => {
                let s = t.status.to_string();
                str_eq(s.as_str(), v.as_str())
            },
            FilterOptions::ByPriority => {
                let s = t.prio.to_string();
                str_eq(s.as_str(), v.as_str())
            },
        },
    }
}

} // verus!
