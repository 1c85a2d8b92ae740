//! The capability registry: tool kinds, their schemas, and name-keyed
//! lookup. Dispatching resolves a tool by name, never by type, so the set
//! of capabilities stays an open registration table.

use vstd::prelude::*;

use crate::chat::{ArgType, ArgValue, ArgValueModel, Argument, ToolArgs};
use crate::error::AiError;
use crate::ledger::string_eq;

verus! {

/// The tag of one executable capability.
#[derive(Clone, Copy, Debug, PartialEq, Eq, Structural)]
pub enum ToolKind {
    Bash,
    Edit,
    MultiEdit,
    Write,
    Read,
    Ls,
    Glob,
    Grep,
    Fetch,
    TodoRead,
    TodoWrite,
    Task,
    Tree,
    Cat,
    Compress,
    WriteMemo,
    CrawlWebsite,
    Mkdir,
    Sed,
    CreateFile,
    MoveFile,
    DeleteFile,
    GitLog,
    GitShowCommit,
    PatchFile,
    RunTerminal,
    EditFile,
}

impl ToolKind {
    /// The name under which the capability is offered to the model.
    pub fn name(&self) -> (r: &'static str)
        ensures
            r@ == self.name_spec(),
    {
        match self {
            ToolKind::Bash => "bash",
            ToolKind::Edit => "edit",
            ToolKind::MultiEdit => "multi_edit",
            ToolKind::Write => "write",
            ToolKind::Read => "read",
            ToolKind::Ls => "ls",
            ToolKind::Glob => "glob",
            ToolKind::Grep => "grep",
            ToolKind::Fetch => "fetch",
            ToolKind::TodoRead => "todo_read",
            ToolKind::TodoWrite => "todo_write",
            ToolKind::Task => "task",
            ToolKind::Tree => "list_project_file_tree",
            ToolKind::Cat => "cat_file",
            ToolKind::Compress => "compress_file",
            ToolKind::WriteMemo => "save_information",
            ToolKind::CrawlWebsite => "read_website",
            ToolKind::Mkdir => "create_dir",
            ToolKind::Sed => "search_and_replace",
            ToolKind::CreateFile => "create_file",
            ToolKind::MoveFile => "move_file",
            ToolKind::DeleteFile => "delete_file",
            ToolKind::GitLog => "git_log",
            ToolKind::GitShowCommit => "git_show",
            ToolKind::PatchFile => "patch_file",
            ToolKind::RunTerminal => "run_terminal",
            ToolKind::EditFile => "edit_file",
        }
    }

    /// What `name` returns.
    pub open spec fn name_spec(&self) -> Seq<char> {
        match self {
            ToolKind::Bash => "bash"@,
            ToolKind::Edit => "edit"@,
            ToolKind::MultiEdit => "multi_edit"@,
            ToolKind::Write => "write"@,
            ToolKind::Read => "read"@,
            ToolKind::Ls => "ls"@,
            ToolKind::Glob => "glob"@,
            ToolKind::Grep => "grep"@,
            ToolKind::Fetch => "fetch"@,
            ToolKind::TodoRead => "todo_read"@,
            ToolKind::TodoWrite => "todo_write"@,
            ToolKind::Task => "task"@,
            ToolKind::Tree => "list_project_file_tree"@,
            ToolKind::Cat => "cat_file"@,
            ToolKind::Compress => "compress_file"@,
            ToolKind::WriteMemo => "save_information"@,
            ToolKind::CrawlWebsite => "read_website"@,
            ToolKind::Mkdir => "create_dir"@,
            ToolKind::Sed => "search_and_replace"@,
            ToolKind::CreateFile => "create_file"@,
            ToolKind::MoveFile => "move_file"@,
            ToolKind::DeleteFile => "delete_file"@,
            ToolKind::GitLog => "git_log"@,
            ToolKind::GitShowCommit => "git_show"@,
            ToolKind::PatchFile => "patch_file"@,
            ToolKind::RunTerminal => "run_terminal"@,
            ToolKind::EditFile => "edit_file"@,
        }
    }

    /// A one-line description for the capability listing.
    pub fn description(&self) -> &'static str {
        match self {
            ToolKind::Bash => "executes a shell command after the user approves it",
            ToolKind::Edit => "performs an exact string replacement in a file",
            ToolKind::MultiEdit => "performs several string replacements in one file",
            ToolKind::Write => "writes a file to the local filesystem",
            ToolKind::Read => "reads the contents of a file from a line offset",
            ToolKind::Ls => "lists files and directories in a given path",
            ToolKind::Glob => "finds files whose paths match a glob pattern",
            ToolKind::Grep => "searches file contents for a pattern",
            ToolKind::Fetch => "fetches the main content of a web page",
            ToolKind::TodoRead => "reads the open items of the task list",
            ToolKind::TodoWrite => "creates or updates one task-list item",
            ToolKind::Task => "runs a one-task sub-agent and returns its last message",
            ToolKind::Tree => "prints the project file tree",
            ToolKind::Cat => "prints a file with line numbers",
            ToolKind::Compress => "compresses a file into the agent's memory",
            ToolKind::WriteMemo => "appends information to the agent's memory file",
            ToolKind::CrawlWebsite => "reads the text content of a website",
            ToolKind::Mkdir => "creates a directory",
            ToolKind::Sed => "searches and replaces a string in a file with sed",
            ToolKind::CreateFile => "creates a new file with content",
            ToolKind::MoveFile => "moves a file",
            ToolKind::DeleteFile => "deletes a file",
            ToolKind::GitLog => "shows the last commits",
            ToolKind::GitShowCommit => "shows a specific commit",
            ToolKind::PatchFile => "applies a unified diff after the user approves it",
            ToolKind::RunTerminal => "runs a program after the user approves it",
            ToolKind::EditFile => "applies a loose edit through a sub-agent",
        }
    }

    /// The names and declared types of `args`, in order.
    pub open spec fn args_spec(&self) -> Seq<(Seq<char>, ArgType)> {
        match self {
            ToolKind::Bash => seq![("command"@, ArgType::Str)],
            ToolKind::Edit => seq![("path"@, ArgType::Str), ("old_string"@, ArgType::Str), ("new_string"@, ArgType::Str), ("replace_all"@, ArgType::Bool)],
            ToolKind::MultiEdit => seq![("path"@, ArgType::Str), ("edits"@, ArgType::Str)],
            ToolKind::Write => seq![("path"@, ArgType::Str), ("content"@, ArgType::Str)],
            ToolKind::Read => seq![("path"@, ArgType::Str), ("offset"@, ArgType::Int)],
            ToolKind::Ls => seq![("path"@, ArgType::Str)],
            ToolKind::Glob => seq![("pattern"@, ArgType::Str), ("path"@, ArgType::Str)],
            ToolKind::Grep => seq![("pattern"@, ArgType::Str)],
            ToolKind::Fetch => seq![("url"@, ArgType::Str)],
            ToolKind::TodoRead => Seq::<(Seq<char>, ArgType)>::empty(),
            ToolKind::TodoWrite => seq![("id"@, ArgType::Str), ("content"@, ArgType::Str), ("priority"@, ArgType::Str), ("status"@, ArgType::Str)],
            ToolKind::Task => seq![("task"@, ArgType::Str)],
            ToolKind::Tree => Seq::<(Seq<char>, ArgType)>::empty(),
            ToolKind::Cat => seq![("file"@, ArgType::Str)],
            ToolKind::Compress => seq![("file_path"@, ArgType::Str)],
            ToolKind::WriteMemo => seq![("information"@, ArgType::Str)],
            ToolKind::CrawlWebsite => seq![("url"@, ArgType::Str)],
            ToolKind::Mkdir => seq![("dir_path"@, ArgType::Str)],
            ToolKind::Sed => seq![("file_path"@, ArgType::Str), ("old"@, ArgType::Str), ("new"@, ArgType::Str)],
            ToolKind::CreateFile => seq![("file_path"@, ArgType::Str), ("content"@, ArgType::Str)],
            ToolKind::MoveFile => seq![("src"@, ArgType::Str), ("dst"@, ArgType::Str)],
            ToolKind::DeleteFile => seq![("file_path"@, ArgType::Str)],
            ToolKind::GitLog => Seq::<(Seq<char>, ArgType)>::empty(),
            ToolKind::GitShowCommit => seq![("commit"@, ArgType::Str)],
            ToolKind::PatchFile => seq![("diff"@, ArgType::Str)],
            ToolKind::RunTerminal => seq![("command"@, ArgType::Str), ("arguments"@, ArgType::Str)],
            ToolKind::EditFile => seq![("edit_string"@, ArgType::Str), ("target_file"@, ArgType::Str)],
        }
    }

    /// The declared argument schema of the capability: each argument
    /// required, with no option list, named and typed as `args_spec` says.
    pub fn args(&self) -> (r: Vec<Argument>)
        ensures
            r@.map_values(|a: Argument| (a.name@, a.ty)) == self.args_spec(),
            forall|i: int| 0 <= i < r@.len() ==> (#[trigger] r@[i]).required && r@[i].options
                is None,
    {
        let mut out: Vec<Argument> = Vec::new();
        match self {
            ToolKind::Bash => {
                out.push(Argument::new("command", "the command to execute", ArgType::Str));
            },
            ToolKind::Edit => {
                out.push(Argument::new("path", "the file to modify", ArgType::Str));
                out.push(Argument::new("old_string", "the text to replace", ArgType::Str));
                out.push(Argument::new("new_string", "the text to replace it with", ArgType::Str));
                out.push(
                    Argument::new("replace_all", "replace every occurrence", ArgType::Bool),
                );
            },
            ToolKind::MultiEdit => {
                out.push(Argument::new("path", "the file to modify", ArgType::Str));
                out.push(Argument::new("edits", "the edit operations, in order", ArgType::Str));
            },
            ToolKind::Write => {
                out.push(Argument::new("path", "the absolute path to the file", ArgType::Str));
                out.push(Argument::new("content", "the file content", ArgType::Str));
            },
            ToolKind::Read => {
                out.push(Argument::new("path", "the path to the file", ArgType::Str));
                out.push(Argument::new("offset", "the start line offset", ArgType::Int));
            },
            ToolKind::Ls => {
                out.push(Argument::new("path", "the directory to list", ArgType::Str));
            },
            ToolKind::Glob => {
                out.push(Argument::new("pattern", "the glob pattern", ArgType::Str));
                out.push(Argument::new("path", "the directory to search in", ArgType::Str));
            },
            ToolKind::Grep => {
                out.push(Argument::new("pattern", "the pattern to search for", ArgType::Str));
            },
            ToolKind::Fetch => {
                out.push(Argument::new("url", "the URL to fetch content from", ArgType::Str));
            },
            ToolKind::TodoRead => {},
            ToolKind::TodoWrite => {
                out.push(Argument::new("id", "the item identifier", ArgType::Str));
                out.push(Argument::new("content", "the item text", ArgType::Str));
                out.push(Argument::new("priority", "high, medium or low", ArgType::Str));
                out.push(
                    Argument::new("status", "pending, in_progress or completed", ArgType::Str),
                );
            },
            ToolKind::Task => {
                out.push(Argument::new("task", "the task for the new agent", ArgType::Str));
            },
            ToolKind::Tree => {},
            ToolKind::Cat => {
                out.push(Argument::new("file", "the file path", ArgType::Str));
            },
            ToolKind::Compress => {
                out.push(Argument::new("file_path", "the file to compress", ArgType::Str));
            },
            ToolKind::WriteMemo => {
                out.push(Argument::new("information", "the information markdown", ArgType::Str));
            },
            ToolKind::CrawlWebsite => {
                out.push(Argument::new("url", "url of the website", ArgType::Str));
            },
            ToolKind::Mkdir => {
                out.push(Argument::new("dir_path", "the dir path", ArgType::Str));
            },
            ToolKind::Sed => {
                out.push(Argument::new("file_path", "the file path", ArgType::Str));
                out.push(Argument::new("old", "the old string", ArgType::Str));
                out.push(Argument::new("new", "the new string", ArgType::Str));
            },
            ToolKind::CreateFile => {
                out.push(Argument::new("file_path", "the file path", ArgType::Str));
                out.push(Argument::new("content", "the content", ArgType::Str));
            },
            ToolKind::MoveFile => {
                out.push(Argument::new("src", "source path", ArgType::Str));
                out.push(Argument::new("dst", "destination path", ArgType::Str));
            },
            ToolKind::DeleteFile => {
                out.push(Argument::new("file_path", "the file to delete", ArgType::Str));
            },
            ToolKind::GitLog => {},
            ToolKind::GitShowCommit => {
                out.push(Argument::new("commit", "the commit hash", ArgType::Str));
            },
            ToolKind::PatchFile => {
                out.push(Argument::new("diff", "the unified diff to apply", ArgType::Str));
            },
            ToolKind::RunTerminal => {
                out.push(Argument::new("command", "the program to run", ArgType::Str));
                out.push(Argument::new("arguments", "one argument string", ArgType::Str));
            },
            ToolKind::EditFile => {
                out.push(Argument::new("edit_string", "things to edit", ArgType::Str));
                out.push(Argument::new("target_file", "the file to edit", ArgType::Str));
            },
        }
        proof {
            assert(out@.map_values(|a: Argument| (a.name@, a.ty)) =~~= self.args_spec());
        }
        out
    }
}

/// One registration-table entry: an offered name, its schema, and the
/// capability dispatched under it.
#[derive(Clone, Debug)]
pub struct ToolEntry {
    pub name: String,
    pub args: Vec<Argument>,
    pub kind: ToolKind,
}

/// The registration table of capabilities, keyed by name.
#[derive(Debug)]
pub struct ToolBox {
    pub entries: Vec<ToolEntry>,
}

impl ToolBox {
    /// The names and kinds of the registered entries, in order.
    pub open spec fn entries_spec(&self) -> Seq<(Seq<char>, ToolKind)> {
        self.entries@.map_values(|e: ToolEntry| (e.name@, e.kind))
    }

    /// The kind registered under `name`: the first entry that carries it.
    pub open spec fn lookup_spec(&self, name: Seq<char>) -> Option<ToolKind> {
        lookup_entries(self.entries_spec(), name)
    }

    /// An empty registry.
    pub fn new() -> (r: ToolBox)
        ensures
            r.entries_spec().len() == 0,
    {
        ToolBox { entries: Vec::new() }
    }

    /// Registers `kind` under its own name and schema.
    pub fn register(&mut self, kind: ToolKind)
        ensures
            final(self).entries_spec() == old(self).entries_spec().push(
                (kind.name_spec(), kind),
            ),
    {
        let name_str = kind.name();
        let mut name = String::new();
        name.append(name_str);
        let args = kind.args();
        self.entries.push(ToolEntry { name, args, kind });
        proof {
            assert(self.entries_spec() =~= old(self).entries_spec().push(
                (kind.name_spec(), kind),
            ));
        }
    }

    /// The number of registered entries.
    pub fn len(&self) -> (r: usize)
        ensures
            r == self.entries_spec().len(),
    {
        self.entries.len()
    }

    /// The capability registered under `name`, if any.
    pub fn lookup(&self, name: &str) -> (r: Option<ToolKind>)
        ensures
            r == self.lookup_spec(name@),
    {
        let n = self.entries.len();
        let mut i: usize = 0;
        proof {
            assert(self.entries_spec().skip(0) =~= self.entries_spec());
        }
        while i < n
            invariant
                n == self.entries_spec().len(),
                i <= n,
                lookup_entries(self.entries_spec(), name@) == lookup_entries(
                    self.entries_spec().skip(i as int),
                    name@,
                ),
            decreases n - i,
        {
            let ghost rest = self.entries_spec().skip(i as int);
            proof {
                assert(rest[0] == self.entries_spec()[i as int]);
                assert(rest.skip(1) =~= self.entries_spec().skip(i + 1int));
            }
            if string_eq(&self.entries[i].name, name) {
                return Some(self.entries[i].kind);
            }
            i += 1;
        }
        proof {
            assert(self.entries_spec().skip(n as int) =~= Seq::<(Seq<char>, ToolKind)>::empty());
        }
        None
    }
}

/// The first entry of `entries` named `name`, if any.
pub open spec fn lookup_entries(entries: Seq<(Seq<char>, ToolKind)>, name: Seq<char>) -> Option<
    ToolKind,
>
    decreases entries.len(),
{
    if entries.len() == 0 {
        None
    } else if entries[0].0 == name {
        Some(entries[0].1)
    } else {
        lookup_entries(entries.skip(1), name)
    }
}

/// The first value bound to `key` in an argument bag, if any.
pub open spec fn arg_lookup(args: Seq<(Seq<char>, ArgValueModel)>, key: Seq<char>) -> Option<
    ArgValueModel,
>
    decreases args.len(),
{
    if args.len() == 0 {
        None
    } else if args[0].0 == key {
        Some(args[0].1)
    } else {
        arg_lookup(args.skip(1), key)
    }
}

impl ToolArgs {
    /// An empty argument bag.
    pub fn new() -> (r: ToolArgs)
        ensures
            r@.len() == 0,
    {
        ToolArgs(Vec::new())
    }

    /// The value bound to `key`, if any.
    fn find(&self, key: &str) -> (r: Option<&ArgValue>)
        ensures
            (match r {
                Some(v) => arg_lookup(self@, key@) == Some(v@),
                None => arg_lookup(self@, key@) is None,
            }),
    {
        let n = self.0.len();
        let mut i: usize = 0;
        proof {
            assert(self@.skip(0) =~= self@);
        }
        while i < n
            invariant
                n == self@.len(),
                i <= n,
                arg_lookup(self@, key@) == arg_lookup(self@.skip(i as int), key@),
            decreases n - i,
        {
            let ghost rest = self@.skip(i as int);
            proof {
                assert(rest[0] == self@[i as int]);
                assert(rest.skip(1) =~= self@.skip(i + 1int));
            }
            if string_eq(&self.0[i].0, key) {
                return Some(&self.0[i].1);
            }
            i += 1;
        }
        proof {
            assert(self@.skip(n as int) =~= Seq::<(Seq<char>, ArgValueModel)>::empty());
        }
        None
    }

    /// The text value bound to `key`: fails with `MissingArgument` when
    /// absent and with `ParseError` when bound to another type.
    pub fn get_str(&self, key: &str) -> (r: Result<String, AiError>)
        ensures
            (match arg_lookup(self@, key@) {
                Some(ArgValueModel::Str(s)) => r matches Ok(v) && v@ == s,
                Some(_) => r matches Err(e) && e matches AiError::ParseError(m) && m@ == key@,
                None => r matches Err(e) && e matches AiError::MissingArgument(m) && m@ == key@,
            }),
    {
        match self.find(key) {
            Some(ArgValue::Str(s)) => Ok(s.clone()),
            Some(_) => Err(AiError::ParseError(key.to_owned())),
            None => Err(AiError::MissingArgument(key.to_owned())),
        }
    }

    /// The integer value bound to `key`.
    pub fn get_int(&self, key: &str) -> (r: Result<i64, AiError>)
        ensures
            (match arg_lookup(self@, key@) {
                Some(ArgValueModel::Int(n)) => r matches Ok(v) && v == n,
                Some(_) => r matches Err(e) && e matches AiError::ParseError(m) && m@ == key@,
                None => r matches Err(e) && e matches AiError::MissingArgument(m) && m@ == key@,
            }),
    {
        match self.find(key) {
            Some(ArgValue::Int(n)) => Ok(*n),
            Some(_) => Err(AiError::ParseError(key.to_owned())),
            None => Err(AiError::MissingArgument(key.to_owned())),
        }
    }

    /// The boolean value bound to `key`.
    pub fn get_bool(&self, key: &str) -> (r: Result<bool, AiError>)
        ensures
            (match arg_lookup(self@, key@) {
                Some(ArgValueModel::Bool(b)) => r matches Ok(v) && v == b,
                Some(_) => r matches Err(e) && e matches AiError::ParseError(m) && m@ == key@,
                None => r matches Err(e) && e matches AiError::MissingArgument(m) && m@ == key@,
            }),
    {
        match self.find(key) {
            Some(ArgValue::Bool(b)) => Ok(*b),
            Some(_) => Err(AiError::ParseError(key.to_owned())),
            None => Err(AiError::MissingArgument(key.to_owned())),
        }
    }

    /// The edit list bound to `key`.
    pub fn get_edits(&self, key: &str) -> (r: Result<Vec<crate::chat::EditOp>, AiError>)
        ensures
            (match arg_lookup(self@, key@) {
                Some(ArgValueModel::Edits(es)) => r matches Ok(v) && v@.map_values(
                    |e: crate::chat::EditOp| e@,
                ) == es,
                Some(_) => r matches Err(e) && e matches AiError::ParseError(m) && m@ == key@,
                None => r matches Err(e) && e matches AiError::MissingArgument(m) && m@ == key@,
            }),
    {
        match self.find(key) {
            Some(ArgValue::Edits(v)) => Ok(crate::chat::clone_edits(v)),
            Some(_) => Err(AiError::ParseError(key.to_owned())),
            None => Err(AiError::MissingArgument(key.to_owned())),
        }
    }

    /// Binds `key` to a text value, after any existing bindings.
    pub fn push_str(&mut self, key: &str, value: &str)
        ensures
            final(self)@ == old(self)@.push((key@, ArgValueModel::Str(value@))),
    {
        self.0.push((key.to_owned(), ArgValue::Str(value.to_owned())));
        proof {
            assert(final(self)@ =~= old(self)@.push((key@, ArgValueModel::Str(value@))));
        }
    }

    /// Binds `key` to an integer value.
    pub fn push_int(&mut self, key: &str, value: i64)
        ensures
            final(self)@ == old(self)@.push((key@, ArgValueModel::Int(value))),
    {
        self.0.push((key.to_owned(), ArgValue::Int(value)));
        proof {
            assert(final(self)@ =~= old(self)@.push((key@, ArgValueModel::Int(value))));
        }
    }

    /// Binds `key` to a boolean value.
    pub fn push_bool(&mut self, key: &str, value: bool)
        ensures
            final(self)@ == old(self)@.push((key@, ArgValueModel::Bool(value))),
    {
        self.0.push((key.to_owned(), ArgValue::Bool(value)));
        proof {
            assert(final(self)@ =~= old(self)@.push((key@, ArgValueModel::Bool(value))));
        }
    }
}

} // verus!
