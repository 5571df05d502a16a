//! Resolution of the document path from the process's startup arguments.
use vstd::prelude::*;

verus! {

/// The document path named by a startup argument sequence: the argument at
/// position one (position zero is the program name), if there is one.
pub open spec fn document_path_of(args: Seq<Seq<char>>) -> Option<Seq<char>> {
    if args.len() > 1 {
        Some(args[1])
    } else {
        None
    }
}

/// The views of a sequence of strings.
pub open spec fn strings_view(args: Seq<String>) -> Seq<Seq<char>> {
    args.map_values(|s: String| s@)
}

/// The view of an optional string.
pub open spec fn option_string_view(o: Option<String>) -> Option<Seq<char>> {
    match o {
        Some(s) => Some(s@),
        None => None,
    }
}

/// The fixed message reported when no document path was given at startup.
pub open spec fn missing_path_message() -> Seq<char> {
    "Markdown file path not provided."@
}

/// Returns the document path among the startup arguments `args`, whose first
/// element is the program name. Nothing about the path is checked here.
pub fn resolve_document_path(args: &Vec<String>) -> (r: Option<String>)
    ensures
        option_string_view(r) == document_path_of(strings_view(args@)),
{
    if args.len() > 1 {
        Some(args[1].clone())
    } else {
        None
    }
}

/// The path handed to the display surface on request: the resolved startup
/// path, or the fixed message when none was given.
pub fn send_markdown_path(args: &Vec<String>) -> (r: Result<String, String>)
    ensures
        match document_path_of(strings_view(args@)) {
            Some(p) => r matches Ok(s) && s@ == p,
            None => r matches Err(e) && e@ == missing_path_message(),
        },
{
    match resolve_document_path(args) {
        Some(path) => Ok(path),
        None => Err(String::from_str("Markdown file path not provided.")),
    }
}

} // verus!
