//! The snapshot command of the sampling loop.
use std::collections::HashMap;
use vstd::prelude::*;
use vstd::string::*;
use crate::command::CommandSpec;
use crate::text::{decimal_digits, push_decimal, same_text};

verus! {

/// How to list processes: the field to sort on (`cpu` or `mem`; anything else
/// leaves the order as `ps` gives it), how many lines to keep, whether to show
/// every user's processes, and whether to keep command lines whole.
#[derive(Debug, Clone)]
pub struct PsConfig {
    pub sort_by: String,
    pub limit: usize,
    pub all_users: bool,
    pub full_format: bool,
    /// Further `ps` options, for callers that build their own command.
    pub custom_options: HashMap<String, String>,
}

/// The `sort` stage for sorting on `sort_by`, if it names a known field.
pub open spec fn sort_stage(sort_by: Seq<char>) -> Seq<char> {
    if sort_by == "cpu"@ {
        " | sort -nrk 3,3"@
    } else if sort_by == "mem"@ {
        " | sort -nrk 4,4"@
    } else {
        Seq::<char>::empty()
    }
}

/// The shell pipeline that lists processes as `c` asks.
pub open spec fn pipeline(c: PsConfig) -> Seq<char> {
    "ps "@ + (if c.all_users { "aux"@ } else { "ux"@ }) + (if c.full_format { "ww"@ } else { Seq::<char>::empty() })
        + sort_stage(c.sort_by@) + " | head -n "@ + decimal_digits(c.limit as nat)
}

impl PsConfig {
    pub fn new(
        sort_by: String,
        limit: usize,
        all_users: bool,
        full_format: bool,
        custom_options: HashMap<String, String>,
    ) -> (r: PsConfig)
        ensures
            r.sort_by == sort_by,
            r.limit == limit,
            r.all_users == all_users,
            r.full_format == full_format,
            r.custom_options == custom_options,
    {
        PsConfig { sort_by, limit, all_users, full_format, custom_options }
    }

    /// The snapshot command: `sh -c` with the pipeline, its output kept in memory.
    pub fn snapshot_command(&self) -> (r: CommandSpec)
        ensures
            r.program@ == "sh"@,
            r.args@.len() == 2,
            r.args@[0]@ == "-c"@,
            r.args@[1]@ == pipeline(*self),
            r.output_file is None,
    {
        let mut line = String::from_str("ps ");
        if self.all_users {
            line.append("aux");
        } else {
            line.append("ux");
        }
        if self.full_format {
            line.append("ww");
        }
        if same_text(self.sort_by.as_str(), "cpu") {
            line.append(" | sort -nrk 3,3");
        } else if same_text(self.sort_by.as_str(), "mem") {
            line.append(" | sort -nrk 4,4");
        }
        line.append(" | head -n ");
        push_decimal(&mut line, self.limit as u64);
        assert(line@ =~= pipeline(*self));
        let mut args: Vec<String> = Vec::new();
        args.push(String::from_str("-c"));
        args.push(line);
        CommandSpec { program: String::from_str("sh"), args, output_file: None }
    }
}

} // verus!
