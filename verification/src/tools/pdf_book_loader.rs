//! The book loader tool: which files of a folder it loads, how each is read,
//! and how their texts are put together.
use vstd::prelude::*;
use vstd::string::*;
use crate::io_failure::{IoErrorKind, IoFailure};
use crate::paths::{extension_of, file_name_of, lowercase, path_extension, path_file_name, to_lowercase};
use crate::text::{concat2, copy_str, str_eq};
use crate::tools::file_reader::{source_for, FileReaderTool, FileSource};
use crate::tools::{Tool, ToolKind};

verus! {

broadcast use vstd::string::group_string_axioms;

/// Why books could not be loaded.
#[derive(Debug)]
pub enum PdfBookLoaderError {
    Io(IoFailure),
    PdfExtraction(String),
    UnsupportedExtension(String),
}

impl PdfBookLoaderError {
    /// The text the error displays.
    pub open spec fn spec_message(&self) -> Seq<char> {
        match self {
            PdfBookLoaderError::Io(err) => "I/O error: "@ + err.message@,
            PdfBookLoaderError::UnsupportedExtension(ext) => "unsupported file extension: "@ + ext@,
            PdfBookLoaderError::PdfExtraction(err) => "PDF extraction error: "@ + err@,
        }
    }

    /// The text the error displays.
    pub fn message(&self) -> (m: String)
        ensures
            m@ == self.spec_message(),
    {
        match self {
            PdfBookLoaderError::Io(err) => concat2("I/O error: ", err.message.as_str()),
            PdfBookLoaderError::UnsupportedExtension(ext) => concat2(
                "unsupported file extension: ",
                ext.as_str(),
            ),
            PdfBookLoaderError::PdfExtraction(err) => concat2("PDF extraction error: ", err.as_str()),
        }
    }
}

/// The tool that loads every text, Markdown and PDF file under a path.
pub struct PdfBookLoaderTool;

/// A lowercase extension of a file the loader collects from a folder.
pub open spec fn is_book_extension(ext: Seq<char>) -> bool {
    ext == "md"@ || ext == "txt"@ || ext == "pdf"@
}

/// The extension by which the loader chooses a reader: the file's extension,
/// lowercased.
pub open spec fn book_extension(path: Seq<char>) -> Option<Seq<char>> {
    match path_extension(path) {
        Some(e) => Some(lowercase(e)),
        None => None,
    }
}

/// The name a file is reported under: its final component, or `unknown`.
pub open spec fn book_name(path: Seq<char>) -> Seq<char> {
    match path_file_name(path) {
        Some(n) => n,
        None => "unknown"@,
    }
}

/// The section of the report for the file named `name`.
pub open spec fn book_section(name: Seq<char>, text: Result<Seq<char>, Seq<char>>) -> Seq<char> {
    match text {
        Ok(content) => "=== "@ + name + " ===\n"@ + content + "\n\n"@,
        Err(err) => "=== "@ + name + " ===\nError: "@ + err + "\n\n"@,
    }
}

/// A file's name and what reading it gave, by text.
pub open spec fn section_view(s: (String, Result<String, PdfBookLoaderError>)) -> (Seq<char>, Result<Seq<char>, Seq<char>>) {
    (
        s.0@,
        match s.1 {
            Ok(t) => Ok(t@),
            Err(e) => Err(e.spec_message()),
        },
    )
}

/// The sections of the report for `files`, in order.
pub open spec fn book_sections(files: Seq<(Seq<char>, Result<Seq<char>, Seq<char>>)>) -> Seq<char>
    decreases files.len(),
{
    if files.len() == 0 {
        Seq::empty()
    } else {
        book_sections(files.drop_last()) + book_section(files.last().0, files.last().1)
    }
}

/// The report for `files`.
pub open spec fn books_report(files: Seq<(Seq<char>, Result<Seq<char>, Seq<char>>)>) -> Seq<char> {
    if files.len() == 0 {
        "No supported files found in path."@
    } else {
        book_sections(files)
    }
}

impl PdfBookLoaderTool {
    /// Whether a file found in a folder is collected, by its extension.
    pub fn is_book_file(path: &str) -> (b: bool)
        ensures
            b == (book_extension(path@) matches Some(e) && is_book_extension(e)),
    {
        match extension_of(path) {
            Some(e) => {
                let lower = to_lowercase(e.as_str());
                str_eq(lower.as_str(), "md") || str_eq(lower.as_str(), "txt") || str_eq(
                    lower.as_str(),
                    "pdf",
                )
            },
            None => false,
        }
    }

    /// How a collected file is read, by its lowercased extension.
    pub fn classify(path: &str) -> (r: FileSource)
        ensures
            source_for(book_extension(path@), r),
    {
        let ext = match extension_of(path) {
            Some(e) => Some(to_lowercase(e.as_str())),
            None => None,
        };
        FileReaderTool::source_for_extension(ext)
    }

    /// The name a file is reported under.
    pub fn display_name(path: &str) -> (r: String)
        ensures
            r@ == book_name(path@),
    {
        match file_name_of(path) {
            Some(n) => n,
            None => copy_str("unknown"),
        }
    }

    /// The error for a path that does not exist.
    pub fn not_found(params: &str) -> (e: PdfBookLoaderError)
        ensures
            e matches PdfBookLoaderError::Io(f) && f.kind == IoErrorKind::NotFound && f.message@
                == "path not found: "@ + params@,
    {
        PdfBookLoaderError::Io(IoFailure::new(IoErrorKind::NotFound, concat2("path not found: ", params)))
    }

    /// The report for the files read, in order: each file's name and its text
    /// or the error that kept it from being read.
    pub fn report(files: &Vec<(String, Result<String, PdfBookLoaderError>)>) -> (r: String)
        ensures
            r@ == books_report(files@.map_values(|s| section_view(s))),
    {
        let ghost views = files@.map_values(|s| section_view(s));
        if files.len() == 0 {
            return copy_str("No supported files found in path.");
        }
        let mut output = String::new();
        let mut i: usize = 0;
        while i < files.len()
            invariant
                i <= files@.len(),
                views == files@.map_values(|s| section_view(s)),
                output@ == book_sections(views.take(i as int)),
            decreases files@.len() - i,
        {
            let ghost before = output@;
            let name = &files[i].0;
            output.append("=== ");
            output.append(name.as_str());
            match &files[i].1 {
                Ok(content) => {
                    output.append(" ===\n");
                    output.append(content.as_str());
                },
                Err(e) => {
                    let m = e.message();
                    output.append(" ===\nError: ");
                    output.append(m.as_str());
                },
            }
            output.append("\n\n");
            proof {
                assert(views.take(i + 1).drop_last() =~= views.take(i as int));
                assert(views.take(i + 1).last() == views[i as int]);
                assert(output@ =~= book_sections(views.take(i + 1)));
            }
            i = i + 1;
        }
        assert(views.take(views.len() as int) =~= views);
        output
    }

    /// What the tool answers: the report, or the error explained.
    pub fn render(outcome: Result<String, PdfBookLoaderError>) -> (r: String)
        ensures
            match outcome {
                Ok(text) => r@ == text@,
                Err(e) => r@ == "Error loading books: "@ + e.spec_message(),
            },
    {
        match outcome {
            Ok(text) => text,
            Err(e) => {
                let m = e.message();
                concat2("Error loading books: ", m.as_str())
            },
        }
    }
}

impl Tool for PdfBookLoaderTool {
    open spec fn kind_spec(&self) -> ToolKind {
        ToolKind::PdfBookLoader
    }

    fn kind(&self) -> (k: ToolKind) {
        ToolKind::PdfBookLoader
    }
}

/// The loader collects exactly the files it can read: a file found in a
/// folder is collected when its lowercased extension is `md`, `txt` or `pdf`,
/// which are exactly the extensions read as text or as PDF rather than refused
/// as unsupported.
pub proof fn lemma_collected_iff_readable(ext: Seq<char>, source: FileSource)
    requires
        source_for(Some(ext), source),
    ensures
        is_book_extension(ext) <==> (ext == "md"@ || ext == "txt"@ || ext == "pdf"@),
        is_book_extension(ext) <==> !(source is Unsupported),
{
}

} // verus!
