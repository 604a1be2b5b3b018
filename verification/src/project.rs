//! The project specification: metadata and the ordered list of grading
//! tasks, as loaded from the configuration document.

use vstd::prelude::*;
use crate::fs::FsSnapshot;
use crate::paths::concat_lists;
use crate::paths::join_path;
use crate::paths::join_seq;
use crate::paths::joined_all;
use crate::paths::missing_from;

verus! {

/// The submission root for one student and one project: the delivery
/// folder, then the login, then the project code name, in that order.
pub open spec fn submission_root_seq(
    delivery: Seq<char>,
    login: Seq<char>,
    code_name: Seq<char>,
) -> Seq<char> {
    join_seq(join_seq(delivery, login), code_name)
}

/// Project-level configuration: display name, short code name, the two
/// root folders, and the compiler argument tokens placed before and after
/// the file list.
#[derive(Debug)]
pub struct ProjectMeta {
    pub name: String,
    pub code_name: String,
    pub delivery_folder: String,
    pub grader_folder: String,
    pub compile_args_base: Vec<String>,
    pub compile_args_tail: Vec<String>,
}

/// One grading unit: a name and three ordered lists of relative file
/// paths. Mandatory files must exist in the submission or the task fails
/// outright; optional files are compiled only when present; test files
/// are instructor-supplied and resolved against the grader folder.
#[derive(Debug)]
pub struct ProjectTask {
    pub name: String,
    pub mandatory_files: Vec<String>,
    pub optional_files: Vec<String>,
    pub test_files: Vec<String>,
}

/// The root document: the shared metadata plus the ordered tasks.
#[derive(Debug)]
pub struct ProjectSpec {
    pub meta: ProjectMeta,
    pub tasks: Vec<ProjectTask>,
}

impl ProjectMeta {
    /// Where one student's submission for this project lives: the
    /// delivery folder, then the login, then the code name.
    pub fn submission_root(&self, login: &str) -> (r: String)
        ensures
            r@ == submission_root_seq(self.delivery_folder@, login@, self.code_name@),
    {
        let d = join_path(self.delivery_folder.as_str(), login);
        join_path(d.as_str(), self.code_name.as_str())
    }

    /// The full compiler argument list for one attempt: the base tokens,
    /// then the files, then the tail tokens, in that exact order.
    pub fn compile_command_args(&self, files: &Vec<String>) -> (r: Vec<String>)
        ensures
            r.deep_view() == self.compile_args_base.deep_view() + files.deep_view()
                + self.compile_args_tail.deep_view(),
    {
        let head = concat_lists(&self.compile_args_base, files);
        concat_lists(&head, &self.compile_args_tail)
    }
}

impl ProjectTask {
    /// Do all of the task's test files exist, each resolved against the
    /// grader folder? Test files are always required, so a `false` here
    /// dooms the task.
    pub fn are_garding_files_present(&self, grader_folder: &String, fs: &FsSnapshot) -> (r: bool)
        ensures
            r == (missing_from(
                joined_all(self.test_files.deep_view(), grader_folder@),
                fs.files_view(),
            ).len() == 0),
    {
        let missing = fs.missing_files(&self.test_files, grader_folder);
        missing.is_empty()
    }
}

impl ProjectSpec {
    /// Replace the delivery folder and the grader folder with the values
    /// given on the command line, where one was given; a given override
    /// always wins over the value loaded from the document, and nothing
    /// else changes.
    pub fn apply_overrides(&mut self, delivery_folder: Option<String>, grader_folder: Option<String>)
        ensures
            final(self).meta.delivery_folder == (match delivery_folder {
                Some(d) => d,
                None => old(self).meta.delivery_folder,
            }),
            final(self).meta.grader_folder == (match grader_folder {
                Some(g) => g,
                None => old(self).meta.grader_folder,
            }),
            final(self).meta.name == old(self).meta.name,
            final(self).meta.code_name == old(self).meta.code_name,
            final(self).meta.compile_args_base == old(self).meta.compile_args_base,
            final(self).meta.compile_args_tail == old(self).meta.compile_args_tail,
            final(self).tasks == old(self).tasks,
    {
        if let Some(d) = delivery_folder {
            self.meta.delivery_folder = d;
        }
        if let Some(g) = grader_folder {
            self.meta.grader_folder = g;
        }
    }
}

} // verus!
