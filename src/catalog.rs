//! The fixed catalog of templates: identifier, content and file name.
use vstd::prelude::*;

use crate::template::{prettier, pure_js, react, typescript};

verus! {

/// File name, below the target directory, of the linter configuration.
pub const ESLINT_FILE_NAME: &'static str = "/.eslintrc.json";

/// File name, below the target directory, of the formatter configuration.
pub const PRETTIER_FILE_NAME: &'static str = "/.prettierrc.js";

/// The failures that end a run.
#[derive(PartialEq, Eq, Structural, Debug, Clone, Copy)]
pub enum LintError {
    /// The template identifier is not one of the catalog's.
    UnknownTemplate,
    /// The target directory was missing and could not be created.
    DirectoryCreationFailure,
    /// The configuration file could not be written.
    WriteFailure,
}

/// What a template writes, and to which file below the target directory.
pub struct TemplateInfo {
    pub template_content: String,
    pub target_url: String,
}

/// Whether `id` names one of the catalog's templates.
pub open spec fn is_template_id(id: Seq<char>) -> bool {
    id == "typescript"@ || id == "reactTs"@ || id == "prettier"@ || id == "pureJs"@
}

/// The content of the template named `id`.
pub open spec fn content_of(id: Seq<char>) -> Seq<char> {
    if id == "typescript"@ {
        typescript::TEMPLATE_CONTENT@
    } else if id == "reactTs"@ {
        react::TEMPLATE_CONTENT@
    } else if id == "prettier"@ {
        prettier::TEMPLATE_CONTENT@
    } else {
        pure_js::TEMPLATE_CONTENT@
    }
}

/// The file that the template named `id` is written to: the formatter's
/// for Prettier, the linter's for the others.
pub open spec fn target_of(id: Seq<char>) -> Seq<char> {
    if id == "prettier"@ {
        PRETTIER_FILE_NAME@
    } else {
        ESLINT_FILE_NAME@
    }
}

/// In one directory the formatter's file and the linter's file are two
/// different files, so writing one leaves the other as it was.
pub proof fn lemma_config_files_differ(dir: Seq<char>)
    ensures
        dir + target_of("prettier"@) != dir + target_of("typescript"@),
        dir + target_of("prettier"@) != dir + target_of("reactTs"@),
        dir + target_of("prettier"@) != dir + target_of("pureJs"@),
{
    reveal_strlit("prettier");
    reveal_strlit("typescript");
    reveal_strlit("reactTs");
    reveal_strlit("pureJs");
    reveal_strlit("/.eslintrc.json");
    reveal_strlit("/.prettierrc.js");
    assert("typescript"@.len() != "prettier"@.len());
    assert("reactTs"@[0] != "prettier"@[0]);
    assert("pureJs"@[1] != "prettier"@[1]);
    let p = dir + PRETTIER_FILE_NAME@;
    let e = dir + ESLINT_FILE_NAME@;
    assert(p[dir.len() as int + 2] != e[dir.len() as int + 2]);
}

fn info(content: &str, target: &str) -> (r: TemplateInfo)
    ensures
        r.template_content@ == content@,
        r.target_url@ == target@,
{
    TemplateInfo { template_content: content.to_owned(), target_url: target.to_owned() }
}

/// Looks up the template named `template`.
pub fn get_template_content(template: String) -> (r: Result<TemplateInfo, LintError>)
    ensures
        r is Ok <==> is_template_id(template@),
        r matches Ok(info) ==> info.template_content@ == content_of(template@)
            && info.target_url@ == target_of(template@),
        r matches Err(e) ==> e == LintError::UnknownTemplate,
{
    proof {
        reveal_strlit("typescript");
        reveal_strlit("reactTs");
        reveal_strlit("prettier");
        reveal_strlit("pureJs");
        assert("typescript"@.len() != "prettier"@.len());
        assert("reactTs"@[0] != "prettier"@[0]);
    }
    if template == "typescript".to_owned() {
        Ok(info(typescript::TEMPLATE_CONTENT, ESLINT_FILE_NAME))
    } else if template == "reactTs".to_owned() {
        Ok(info(react::TEMPLATE_CONTENT, ESLINT_FILE_NAME))
    } else if template == "prettier".to_owned() {
        Ok(info(prettier::TEMPLATE_CONTENT, PRETTIER_FILE_NAME))
    } else if template == "pureJs".to_owned() {
        Ok(info(pure_js::TEMPLATE_CONTENT, ESLINT_FILE_NAME))
    } else {
        Err(LintError::UnknownTemplate)
    }
}

} // verus!
