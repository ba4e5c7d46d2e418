//! The file reader tool: which reader a file gets, and how the text of a PDF's
//! pages is put together.
use vstd::prelude::*;
use vstd::string::*;
use crate::io_failure::IoFailure;
use crate::paths::{extension_of, path_extension};
use crate::text::{concat2, copy_str, str_eq};
use crate::tools::{Tool, ToolKind};

verus! {

broadcast use vstd::string::group_string_axioms;

/// Why a file could not be read.
#[derive(Debug)]
pub enum FileReaderError {
    Io(IoFailure),
    UnsupportedExtension(String),
    PdfExtraction(String),
}

impl FileReaderError {
    /// The text the error displays.
    pub open spec fn spec_message(&self) -> Seq<char> {
        match self {
            FileReaderError::Io(err) => "I/O error: "@ + err.message@,
            FileReaderError::UnsupportedExtension(ext) => "unsupported file extension: "@ + ext@,
            FileReaderError::PdfExtraction(err) => "PDF extraction error: "@ + err@,
        }
    }

    /// The text the error displays.
    pub fn message(&self) -> (m: String)
        ensures
            m@ == self.spec_message(),
    {
        match self {
            FileReaderError::Io(err) => concat2("I/O error: ", err.message.as_str()),
            FileReaderError::UnsupportedExtension(ext) => concat2(
                "unsupported file extension: ",
                ext.as_str(),
            ),
            FileReaderError::PdfExtraction(err) => concat2("PDF extraction error: ", err.as_str()),
        }
    }
}

/// How a file is to be read.
#[derive(Debug)]
pub enum FileSource {
    /// As UTF-8 text.
    Text,
    /// As a PDF document, page by page.
    Pdf,
    /// Not at all: the extension (or `none`) is not supported.
    Unsupported(String),
}

/// How a file with extension `ext` (if any) is read: `md` and `txt` as text,
/// `pdf` as PDF; any other is unsupported, and a file without extension is
/// unsupported as `none`.
pub open spec fn source_for(ext: Option<Seq<char>>, source: FileSource) -> bool {
    match ext {
        Some(e) => if e == "md"@ || e == "txt"@ {
            source is Text
        } else if e == "pdf"@ {
            source is Pdf
        } else {
            source matches FileSource::Unsupported(x) && x@ == e
        },
        None => source matches FileSource::Unsupported(x) && x@ == "none"@,
    }
}

/// The text of a PDF from the text of its pages (`None` for a page whose text
/// could not be extracted): each page with text, followed by a newline.
pub open spec fn joined_pages(pages: Seq<Option<Seq<char>>>) -> Seq<char>
    decreases pages.len(),
{
    if pages.len() == 0 {
        Seq::empty()
    } else {
        joined_pages(pages.drop_last()) + match pages.last() {
            Some(t) => if t.len() > 0 {
                t + "\n"@
            } else {
                Seq::empty()
            },
            None => Seq::empty(),
        }
    }
}

/// The texts of pages, as text.
pub open spec fn page_views(pages: Seq<Option<String>>) -> Seq<Option<Seq<char>>> {
    pages.map_values(
        |p: Option<String>|
            match p {
                Some(t) => Some(t@),
                None => None,
            },
    )
}

/// The text `lopdf` extracts from each page of the PDF file `pdf`, in page
/// order (`None` for a page whose extraction fails), or the text of the error
/// that keeps the file from loading.
pub uninterp spec fn pdf_page_texts(pdf: Seq<u8>) -> Result<Seq<Option<Seq<char>>>, Seq<char>>;

/// Loads the PDF file `pdf` (`lopdf::Document::load_mem`) and extracts the
/// text of each of its pages in turn (`Document::extract_text`), keeping
/// `None` for a page whose extraction fails; a file that does not load gives
/// the error's text.
#[verifier::external_body]
fn pdf_pages(pdf: &[u8]) -> (r: Result<Vec<Option<String>>, String>)
    ensures
        match r {
            Ok(v) => pdf_page_texts(pdf@) == Ok::<Seq<Option<Seq<char>>>, Seq<char>>(page_views(v@)),
            Err(m) => pdf_page_texts(pdf@) == Err::<Seq<Option<Seq<char>>>, Seq<char>>(m@),
        },
{
    let document = lopdf::Document::load_mem(pdf).map_err(|e| e.to_string())?;
    let count = document.get_pages().len() as u32;
    Ok((1..=count).map(|n| document.extract_text(&[n]).ok()).collect())
}

/// The tool that reads a text or PDF file.
pub struct FileReaderTool;

impl FileReaderTool {
    /// How a file with extension `ext` is read.
    pub fn source_for_extension(ext: Option<String>) -> (r: FileSource)
        ensures
            source_for(
                match ext {
                    Some(e) => Some(e@),
                    None => None,
                },
                r,
            ),
    {
        match ext {
            Some(e) => {
                if str_eq(e.as_str(), "md") || str_eq(e.as_str(), "txt") {
                    FileSource::Text
                } else if str_eq(e.as_str(), "pdf") {
                    FileSource::Pdf
                } else {
                    FileSource::Unsupported(e)
                }
            },
            None => FileSource::Unsupported(copy_str("none")),
        }
    }

    /// How the file named by `params` is read, by its extension.
    pub fn classify(params: &str) -> (r: FileSource)
        ensures
            source_for(path_extension(params@), r),
    {
        Self::source_for_extension(extension_of(params))
    }

    /// The text of the PDF file `pdf`: each page's text followed by a
    /// newline, skipping pages with no text, or the error that keeps the file
    /// from loading.
    pub fn pdf_text_of(pdf: &[u8]) -> (r: Result<String, String>)
        ensures
            match pdf_page_texts(pdf@) {
                Ok(pages) => r matches Ok(t) && t@ == joined_pages(pages),
                Err(m) => r matches Err(e) && e@ == m,
            },
    {
        match pdf_pages(pdf) {
            Ok(pages) => Ok(Self::join_page_texts(&pages)),
            Err(m) => Err(m),
        }
    }

    /// The text of a PDF from the text of its pages.
    pub fn join_page_texts(pages: &Vec<Option<String>>) -> (r: String)
        ensures
            r@ == joined_pages(page_views(pages@)),
    {
        let mut text = String::new();
        let mut i: usize = 0;
        while i < pages.len()
            invariant
                i <= pages@.len(),
                text@ == joined_pages(page_views(pages@.take(i as int))),
            decreases pages@.len() - i,
        {
            let ghost before = text@;
            match &pages[i] {
                Some(t) => {
                    if !t.as_str().is_empty() {
                        text.append(t.as_str());
                        text.append("\n");
                    }
                },
                None => {},
            }
            proof {
                assert(page_views(pages@.take(i + 1)).drop_last() =~= page_views(pages@.take(i as int)));
                assert(pages@.take(i + 1).last() == pages@[i as int]);
                assert(text@ =~= joined_pages(page_views(pages@.take(i + 1))));
            }
            i = i + 1;
        }
        assert(pages@.take(pages@.len() as int) =~= pages@);
        text
    }

    /// What the tool answers: the file's text, or the error explained.
    pub fn render(outcome: Result<String, FileReaderError>) -> (r: String)
        ensures
            match outcome {
                Ok(text) => r@ == text@,
                Err(e) => r@ == "Error reading file: "@ + e.spec_message(),
            },
    {
        match outcome {
            Ok(text) => text,
            Err(e) => {
                let m = e.message();
                concat2("Error reading file: ", m.as_str())
            },
        }
    }
}

impl Tool for FileReaderTool {
    open spec fn kind_spec(&self) -> ToolKind {
        ToolKind::FileReader
    }

    fn kind(&self) -> (k: ToolKind) {
        ToolKind::FileReader
    }
}

} // verus!
