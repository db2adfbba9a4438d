//! The decisions of a run: which template each prompt entry stands for,
//! what is written where, and whether the installer runs afterwards.
use vstd::prelude::*;

use crate::catalog::{content_of, get_template_content, is_template_id, target_of, LintError};
use crate::target::{resolve_target_dir, target_dir_of};

verus! {

/// The identifier of the template at position `index` of the prompt;
/// `None` for the default marker and for positions past the end.
pub open spec fn id_at(index: usize) -> Option<Seq<char>> {
    if index == 1 {
        Some("typescript"@)
    } else if index == 2 {
        Some("prettier"@)
    } else if index == 3 {
        Some("pureJs"@)
    } else if index == 4 {
        Some("reactTs"@)
    } else {
        None
    }
}

/// The entries of the interactive prompt, in the order of their indices.
pub fn template_list() -> (r: Vec<String>)
    ensures
        r@.len() == 5,
        r@[0]@ == "default"@,
        r@[1]@ == "typescript"@,
        r@[2]@ == "prettier"@,
        r@[3]@ == "pure_js"@,
        r@[4]@ == "react"@,
{
    vec![
        "default".to_owned(),
        "typescript".to_owned(),
        "prettier".to_owned(),
        "pure_js".to_owned(),
        "react".to_owned(),
    ]
}

/// The identifier of the template chosen at position `index` of the prompt.
pub fn template_id_at(index: usize) -> (r: Result<String, LintError>)
    ensures
        r is Ok <==> id_at(index) is Some,
        r matches Ok(id) ==> Some(id@) == id_at(index) && is_template_id(id@),
        r matches Err(e) ==> e == LintError::UnknownTemplate,
{
    if index == 1 {
        Ok("typescript".to_owned())
    } else if index == 2 {
        Ok("prettier".to_owned())
    } else if index == 3 {
        Ok("pureJs".to_owned())
    } else if index == 4 {
        Ok("reactTs".to_owned())
    } else {
        Err(LintError::UnknownTemplate)
    }
}

/// What one template asks of the file system.
pub struct WritePlan {
    /// The text to write.
    pub template_content: String,
    /// Whether `dir_path` has to be created before the write.
    pub create_dir: bool,
    /// The target directory.
    pub dir_path: String,
    /// The file to write, below `dir_path`.
    pub file_path: String,
}

/// The directory that the user's `dir` resolves to: its canonical path
/// where it exists, else the lexical path from the working directory.
pub open spec fn dir_of(current_dir: Seq<char>, dir: Seq<char>, canonical: Option<String>) -> Seq<
    char,
> {
    match canonical {
        Some(path) => path@,
        None => target_dir_of(current_dir, dir),
    }
}

/// Plans the writing of `template` into the user's directory `dir`.
/// `canonical` is the canonical path of `dir` where it exists. Fails,
/// before any file system work, on an unknown template.
pub fn plan_write(template: String, dir: &str, current_dir: &str, canonical: Option<String>) -> (r:
    Result<WritePlan, LintError>)
    ensures
        r is Ok <==> is_template_id(template@),
        r matches Ok(plan) ==> plan.template_content@ == content_of(template@) && plan.create_dir
            == (canonical is None) && plan.dir_path@ == dir_of(current_dir@, dir@, canonical)
            && plan.file_path@ == dir_of(current_dir@, dir@, canonical) + target_of(template@),
        r matches Err(e) ==> e == LintError::UnknownTemplate,
{
    match get_template_content(template) {
        Ok(info) => {
            let target = resolve_target_dir(current_dir, dir, canonical);
            let mut file_path = target.path.clone();
            file_path.append(info.target_url.as_str());
            Ok(
                WritePlan {
                    template_content: info.template_content,
                    create_dir: target.create,
                    dir_path: target.path,
                    file_path,
                },
            )
        },
        Err(e) => Err(e),
    }
}

/// What follows the write of a configuration file: a failed write ends
/// the run with `WriteFailure` and nothing is installed; after a
/// successful one the installer runs exactly when `auto_install` is set.
pub fn install_after_write(written: bool, auto_install: bool) -> (r: Result<bool, LintError>)
    ensures
        !written ==> r == Err::<bool, LintError>(LintError::WriteFailure),
        written ==> r == Ok::<bool, LintError>(auto_install),
{
    if written {
        Ok(auto_install)
    } else {
        Err(LintError::WriteFailure)
    }
}

} // verus!
