use vstd::prelude::*;
use crate::path::{parent_of, Path};
use crate::snapshot::DirList;

verus! {

/// How the rename prompt starts out relative to the current name.
#[derive(Clone, Copy, Debug, PartialEq, Eq, Structural)]
pub enum RenameFileMethod {
    /// The current name, cursor after it.
    Append,
    /// The current name, cursor before it.
    Prepend,
    /// An empty line.
    Overwrite,
}

/// The line the rename prompt opens with, and where its cursor stands, in
/// characters.
#[derive(Debug)]
pub struct PromptInput {
    pub text: String,
    pub cursor: usize,
}

/// A rename of `from` to `to`, to be carried out in one step.
#[derive(Debug)]
pub struct RenameRequest {
    pub from: Path,
    pub to: Path,
}

/// A rename prompt about to open for the entry at `path`.
#[derive(Debug)]
pub struct RenamePrompt {
    pub path: Path,
    pub input: PromptInput,
}

/// The command that renames the entry under the cursor.
#[derive(Clone, Copy, Debug)]
pub struct RenameFile {
    pub method: RenameFileMethod,
}

impl RenameFile {
    pub fn new(method: RenameFileMethod) -> (r: RenameFile)
        ensures
            r.method == method,
    {
        RenameFile { method }
    }

    pub fn command() -> (r: &'static str)
        ensures
            r@ == "rename_file"@,
    {
        "rename_file"
    }

    /// The prompt's opening line for an entry named `start_str`.
    pub fn prompt_input(&self, start_str: String) -> (r: PromptInput)
        ensures
            self.method == RenameFileMethod::Append ==> r.text@ == start_str@ && r.cursor == start_str@.len(),
            self.method == RenameFileMethod::Prepend ==> r.text@ == start_str@ && r.cursor == 0,
            self.method == RenameFileMethod::Overwrite ==> r.text@.len() == 0 && r.cursor == 0,
    {
        match self.method {
            RenameFileMethod::Append => {
                let cursor = start_str.as_str().unicode_len();
                PromptInput { text: start_str, cursor }
            },
            RenameFileMethod::Prepend => PromptInput { text: start_str, cursor: 0 },
            RenameFileMethod::Overwrite => PromptInput { text: String::new(), cursor: 0 },
        }
    }

    /// The rename that the answer `user_input` asks for: `path` to the name
    /// typed, in the same directory. Nothing when the prompt was cancelled or
    /// `path` is the root.
    pub fn rename_file(&self, path: &Path, user_input: Option<String>) -> (r: Option<RenameRequest>)
        ensures
            r is Some <==> (user_input is Some && parent_of(path@) is Some),
            r matches Some(req) ==> req.from@ == path@
                && req.to@ == parent_of(path@)->0.push(user_input->0@),
    {
        match user_input {
            Some(s) => match path.parent() {
                Some(parent) => Some(RenameRequest { from: path.duplicate(), to: parent.join(s) }),
                None => None,
            },
            None => None,
        }
    }
    /// Opens the prompt for the entry under the cursor of the current
    /// listing; nothing when there is no listing or no entry under the cursor.
    pub fn execute(&self, curr_list: Option<&DirList>) -> (r: Option<RenamePrompt>)
        requires
            curr_list matches Some(l) ==> l.wf(),
        ensures
            r is Some <==> (curr_list is Some && curr_list->0.index is Some),
            r matches Some(pr) ==> {
                let e = curr_list->0.contents@[curr_list->0.index->0 as int];
                &&& pr.path@ == e.path@
                &&& self.method == RenameFileMethod::Append ==> pr.input.text@ == e.file_name@
                    && pr.input.cursor == e.file_name@.len()
                &&& self.method == RenameFileMethod::Prepend ==> pr.input.text@ == e.file_name@
                    && pr.input.cursor == 0
                &&& self.method == RenameFileMethod::Overwrite ==> pr.input.text@.len() == 0
                    && pr.input.cursor == 0
            },
    {
        match curr_list {
            Some(l) => match l.get_curr_entry() {
                Some(e) => {
                    let input = self.prompt_input(e.file_name.clone());
                    Some(RenamePrompt { path: e.path.duplicate(), input })
                },
                None => None,
            },
            None => None,
        }
    }
}

} // verus!
