use vstd::prelude::*;
use crate::file::FileRef;

verus! {

/// What the canvas displays as the document's title or folder. The library
/// decides which; the fixed texts are translated where they are shown.
#[derive(Debug)]
pub enum DocLabel {
    /// "New Document": there is no output file.
    NewDocument,
    /// "Draft": there is no output file, so there is no folder.
    Draft,
    /// "- invalid file name -": the output file has no usable name.
    InvalidFileName,
    /// "- invalid folder path -": the output file's folder has no local path.
    InvalidFolderPath,
    /// A name taken from the output file.
    Text(String),
}

/// Whether `name` begins with a drive prefix such as `C:`, which Windows
/// reads as a prefix rather than as part of a file name.
pub open spec fn has_drive_prefix(name: Seq<char>) -> bool {
    &&& name.len() >= 2
    &&& name[1] == ':'
    &&& (('a' <= name[0] && name[0] <= 'z') || ('A' <= name[0] && name[0] <= 'Z'))
}

/// A name that is one ordinary path component on every platform: not empty,
/// free of separators, without a drive prefix, and neither `.` nor `..`.
pub open spec fn is_plain_component(name: Seq<char>) -> bool {
    &&& name.len() > 0
    &&& !name.contains('/')
    &&& !name.contains('\\')
    &&& !has_drive_prefix(name)
    &&& name != "."@
    &&& name != ".."@
}

/// The names that have no file name, and so no stem: the empty name, `.`,
/// `..` and the root `/`.
pub open spec fn has_no_file_name(name: Seq<char>) -> bool {
    name == ""@ || name == "."@ || name == ".."@ || name == "/"@
}

/// The index of the last `.` in `s`, or -1 when there is none.
pub open spec fn last_dot(s: Seq<char>) -> int
    decreases s.len(),
{
    if s.len() == 0 {
        -1
    } else if s.last() == '.' {
        s.len() - 1
    } else {
        last_dot(s.drop_last())
    }
}

/// The stem of a file name: the whole name when it has no `.` but the one it
/// may begin with, else the part before its last `.`.
pub open spec fn file_stem_spec(name: Seq<char>) -> Seq<char> {
    let i = last_dot(name);
    if i <= 0 {
        name
    } else {
        name.take(i)
    }
}

/// Calls `std::path::Path::file_stem` on `name` and converts the stem to a
/// `String`, lossily as the canvas does. For a name that is one plain path
/// component, `file_name` is the name itself and, as the documentation of
/// `file_stem` states, the stem is the whole name when it has no embedded `.`
/// or only the leading one, and the part before the final `.` otherwise. The
/// empty path, `.`, `..` and `/` have no file name, so there is no stem. For
/// other names (holding a separator, or with a drive prefix, which platforms
/// split differently) nothing is stated.
#[verifier::external_body]
fn path_file_stem(name: &str) -> (stem: Option<String>)
    ensures
        is_plain_component(name@) ==> stem is Some && stem->0@ == file_stem_spec(name@),
        has_no_file_name(name@) ==> stem is None,
{
    match std::path::Path::new(name).file_stem() {
        Some(s) => Some(s.to_string_lossy().into_owned()),
        None => None,
    }
}

/// The stem of the base name of a file, when it has one.
pub fn file_stem(basename: &str) -> (stem: Option<String>)
    ensures
        is_plain_component(basename@) ==> stem is Some && stem->0@ == file_stem_spec(basename@),
        has_no_file_name(basename@) ==> stem is None,
{
    path_file_stem(basename)
}

/// The document title for display: the stem of the output file's base name,
/// "New Document" when there is no output file, or "- invalid file name -"
/// when the file has no usable name.
pub fn doc_title_display(output_file: &Option<FileRef>) -> (label: DocLabel)
    ensures
        output_file is None ==> label is NewDocument,
        output_file is Some && output_file->0.basename is None ==> label is InvalidFileName,
        output_file is Some && output_file->0.basename is Some
            && is_plain_component(output_file->0.basename->0@) ==> label is Text
            && label->0@ == file_stem_spec(output_file->0.basename->0@),
        output_file is Some && output_file->0.basename is Some
            && has_no_file_name(output_file->0.basename->0@) ==> label is InvalidFileName,
        output_file is Some && output_file->0.basename is Some ==> label is InvalidFileName
            || label is Text,
{
    match output_file {
        None => DocLabel::NewDocument,
        Some(f) => match &f.basename {
            None => DocLabel::InvalidFileName,
            Some(b) => match file_stem(b.as_str()) {
                Some(stem) => DocLabel::Text(stem),
                None => DocLabel::InvalidFileName,
            },
        },
    }
}

/// The document folder path for display: the path of the output file's
/// folder, "Draft" when there is no output file, or "- invalid folder path -"
/// when the folder has no local path.
pub fn doc_folderpath_display(output_file: &Option<FileRef>) -> (label: DocLabel)
    ensures
        output_file is None ==> label is Draft,
        output_file is Some && output_file->0.parent_path is None ==> label is InvalidFolderPath,
        output_file is Some && output_file->0.parent_path is Some ==> label is Text && label->0@
            == output_file->0.parent_path->0@,
{
    match output_file {
        None => DocLabel::Draft,
        Some(f) => match &f.parent_path {
            None => DocLabel::InvalidFolderPath,
            Some(p) => DocLabel::Text(p.clone()),
        },
    }
}

/// The icon a tab page shows for the canvas: `dot-symbolic` while there are
/// unsaved changes, none otherwise.
pub fn unsaved_changes_icon(unsaved_changes: bool) -> (icon: Option<String>)
    ensures
        unsaved_changes ==> icon is Some && icon->0@ == "dot-symbolic"@,
        !unsaved_changes ==> icon is None,
{
    if unsaved_changes {
        Some(String::from_str("dot-symbolic"))
    } else {
        None
    }
}

} // verus!
