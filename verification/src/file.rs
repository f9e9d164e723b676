use vstd::prelude::*;

verus! {

/// The plain values the canvas keeps of a file: its URI, its base name and
/// the path of the folder it lies in, where the file has them.
#[derive(Debug)]
pub struct FileRef {
    pub uri: String,
    pub basename: Option<String>,
    pub parent_path: Option<String>,
}

/// The mathematical model of a [`FileRef`].
pub struct FileRefView {
    pub uri: Seq<char>,
    pub basename: Option<Seq<char>>,
    pub parent_path: Option<Seq<char>>,
}

/// The characters of an optional string.
pub open spec fn opt_chars(s: Option<String>) -> Option<Seq<char>> {
    match s {
        Some(s) => Some(s@),
        None => None,
    }
}

/// The model of an optional file.
pub open spec fn opt_file_view(f: Option<FileRef>) -> Option<FileRefView> {
    match f {
        Some(f) => Some(f@),
        None => None,
    }
}

impl View for FileRef {
    type V = FileRefView;

    open spec fn view(&self) -> FileRefView {
        FileRefView {
            uri: self.uri@,
            basename: opt_chars(self.basename),
            parent_path: opt_chars(self.parent_path),
        }
    }
}

/// Copies an optional string.
pub fn copy_opt_string(s: &Option<String>) -> (r: Option<String>)
    ensures
        opt_chars(r) == opt_chars(*s),
{
    match s {
        Some(s) => Some(s.clone()),
        None => None,
    }
}

impl FileRef {
    /// A copy of this file reference.
    pub fn copied(&self) -> (r: FileRef)
        ensures
            r@ == self@,
    {
        FileRef {
            uri: self.uri.clone(),
            basename: copy_opt_string(&self.basename),
            parent_path: copy_opt_string(&self.parent_path),
        }
    }
}

/// Copies an optional file reference.
pub fn copy_opt_file(f: &Option<FileRef>) -> (r: Option<FileRef>)
    ensures
        opt_file_view(r) == opt_file_view(*f),
{
    match f {
        Some(f) => Some(f.copied()),
        None => None,
    }
}

} // verus!
