//! Values of the viewer preferences dictionary.

use vstd::prelude::*;

use crate::error::{is_unrecognized_name, ParseError};
use crate::objects::name_is;

verus! {

/// The predominant reading order of text
#[derive(Debug, Clone, Copy, PartialEq, Eq, Structural)]
pub enum TextDirection {
    LeftToRight,
    /// Right to left (including vertical writing systems, such as Chinese,
    /// Japanese, and Korean)
    RightToLeft,
}

/// The variant of `TextDirection` that the name `s` denotes
pub open spec fn spec_text_direction(s: Seq<char>) -> Option<TextDirection> {
    if s == "L2R"@ {
        Some(TextDirection::LeftToRight)
    } else if s == "R2L"@ {
        Some(TextDirection::RightToLeft)
    } else {
        None
    }
}

impl TextDirection {
    /// The variant named `s`; an error for any other name.
    pub fn from_str(s: &str) -> (r: Result<TextDirection, ParseError>)
        ensures
            spec_text_direction(s@) is Some ==> r == Ok::<TextDirection, ParseError>(spec_text_direction(s@)->Some_0),
            spec_text_direction(s@) is None ==> r is Err && is_unrecognized_name(r->Err_0, "TextDirection"@, s@),
    {
        if name_is(s, "L2R") {
            return Ok(TextDirection::LeftToRight);
        }
        if name_is(s, "R2L") {
            return Ok(TextDirection::RightToLeft);
        }
        Err(ParseError::UnrecognizedVariant { ty: "TextDirection", name: s.to_owned() })
    }
}

impl Default for TextDirection {
    fn default() -> (r: TextDirection)
        ensures
            r == TextDirection::LeftToRight,
    {
        TextDirection::LeftToRight
    }
}

/// The page scaling option of the print dialog
#[derive(Debug, Clone, Copy, PartialEq, Eq, Structural)]
pub enum PageScaling {
    AppDefault,
    /// The name `None`: no scaling
    NoScaling,
}

/// The variant of `PageScaling` that the name `s` denotes
pub open spec fn spec_page_scaling(s: Seq<char>) -> Option<PageScaling> {
    if s == "AppDefault"@ {
        Some(PageScaling::AppDefault)
    } else if s == "None"@ {
        Some(PageScaling::NoScaling)
    } else {
        None
    }
}

impl PageScaling {
    /// The variant named `s`; an error for any other name.
    pub fn from_str(s: &str) -> (r: Result<PageScaling, ParseError>)
        ensures
            spec_page_scaling(s@) is Some ==> r == Ok::<PageScaling, ParseError>(spec_page_scaling(s@)->Some_0),
            spec_page_scaling(s@) is None ==> r is Err && is_unrecognized_name(r->Err_0, "PageScaling"@, s@),
    {
        if name_is(s, "AppDefault") {
            return Ok(PageScaling::AppDefault);
        }
        if name_is(s, "None") {
            return Ok(PageScaling::NoScaling);
        }
        Err(ParseError::UnrecognizedVariant { ty: "PageScaling", name: s.to_owned() })
    }
}

impl Default for PageScaling {
    fn default() -> (r: PageScaling)
        ensures
            r == PageScaling::AppDefault,
    {
        PageScaling::AppDefault
    }
}

/// The paper handling option for printing
#[derive(Debug, Clone, Copy, PartialEq, Eq, Structural)]
pub enum Duplex {
    /// Print single-sided
    Simplex,
    /// Duplex and flip on the short edge of the sheet
    DuplexFlipShortEdge,
    /// Duplex and flip on the long edge of the sheet
    DuplexFlipLongEdge,
}

/// The variant of `Duplex` that the name `s` denotes
pub open spec fn spec_duplex(s: Seq<char>) -> Option<Duplex> {
    if s == "Simplex"@ {
        Some(Duplex::Simplex)
    } else if s == "DuplexFlipShortEdge"@ {
        Some(Duplex::DuplexFlipShortEdge)
    } else if s == "DuplexFlipLongEdge"@ {
        Some(Duplex::DuplexFlipLongEdge)
    } else {
        None
    }
}

impl Duplex {
    /// The variant named `s`; an error for any other name.
    pub fn from_str(s: &str) -> (r: Result<Duplex, ParseError>)
        ensures
            spec_duplex(s@) is Some ==> r == Ok::<Duplex, ParseError>(spec_duplex(s@)->Some_0),
            spec_duplex(s@) is None ==> r is Err && is_unrecognized_name(r->Err_0, "Duplex"@, s@),
    {
        if name_is(s, "Simplex") {
            return Ok(Duplex::Simplex);
        }
        if name_is(s, "DuplexFlipShortEdge") {
            return Ok(Duplex::DuplexFlipShortEdge);
        }
        if name_is(s, "DuplexFlipLongEdge") {
            return Ok(Duplex::DuplexFlipLongEdge);
        }
        Err(ParseError::UnrecognizedVariant { ty: "Duplex", name: s.to_owned() })
    }
}

/// A page boundary
#[derive(Debug, Clone, Copy, PartialEq, Eq, Structural)]
pub enum PageBoundary {
    MediaBox,
    CropBox,
    BleedBox,
    TrimBox,
    ArtBox,
}

/// The variant of `PageBoundary` that the name `s` denotes
pub open spec fn spec_page_boundary(s: Seq<char>) -> Option<PageBoundary> {
    if s == "MediaBox"@ {
        Some(PageBoundary::MediaBox)
    } else if s == "CropBox"@ {
        Some(PageBoundary::CropBox)
    } else if s == "BleedBox"@ {
        Some(PageBoundary::BleedBox)
    } else if s == "TrimBox"@ {
        Some(PageBoundary::TrimBox)
    } else if s == "ArtBox"@ {
        Some(PageBoundary::ArtBox)
    } else {
        None
    }
}

impl PageBoundary {
    /// The variant named `s`; an error for any other name.
    pub fn from_str(s: &str) -> (r: Result<PageBoundary, ParseError>)
        ensures
            spec_page_boundary(s@) is Some ==> r == Ok::<PageBoundary, ParseError>(spec_page_boundary(s@)->Some_0),
            spec_page_boundary(s@) is None ==> r is Err && is_unrecognized_name(r->Err_0, "PageBoundary"@, s@),
    {
        if name_is(s, "MediaBox") {
            return Ok(PageBoundary::MediaBox);
        }
        if name_is(s, "CropBox") {
            return Ok(PageBoundary::CropBox);
        }
        if name_is(s, "BleedBox") {
            return Ok(PageBoundary::BleedBox);
        }
        if name_is(s, "TrimBox") {
            return Ok(PageBoundary::TrimBox);
        }
        if name_is(s, "ArtBox") {
            return Ok(PageBoundary::ArtBox);
        }
        Err(ParseError::UnrecognizedVariant { ty: "PageBoundary", name: s.to_owned() })
    }
}

impl Default for PageBoundary {
    fn default() -> (r: PageBoundary)
        ensures
            r == PageBoundary::CropBox,
    {
        PageBoundary::CropBox
    }
}

/// How a document is displayed when it is opened
#[derive(Debug, Clone, Copy, PartialEq, Eq, Structural)]
pub enum PageMode {
    /// Neither document outline nor thumbnail images visible
    UseNone,
    /// Document outline visible
    UseOutlines,
    /// Thumbnail images visible
    UseThumbs,
    /// Full-screen mode, with no menu bar, window controls, or any other window visible
    FullScreen,
    /// Optional content group panel visible
    UseOc,
    /// Attachments panel visible
    UseAttachments,
}

/// The variant of `PageMode` that the name `s` denotes
pub open spec fn spec_page_mode(s: Seq<char>) -> Option<PageMode> {
    if s == "UseNone"@ {
        Some(PageMode::UseNone)
    } else if s == "UseOutlines"@ {
        Some(PageMode::UseOutlines)
    } else if s == "UseThumbs"@ {
        Some(PageMode::UseThumbs)
    } else if s == "FullScreen"@ {
        Some(PageMode::FullScreen)
    } else if s == "UseOC"@ {
        Some(PageMode::UseOc)
    } else if s == "UseAttachments"@ {
        Some(PageMode::UseAttachments)
    } else {
        None
    }
}

impl PageMode {
    /// The variant named `s`; an error for any other name.
    pub fn from_str(s: &str) -> (r: Result<PageMode, ParseError>)
        ensures
            spec_page_mode(s@) is Some ==> r == Ok::<PageMode, ParseError>(spec_page_mode(s@)->Some_0),
            spec_page_mode(s@) is None ==> r is Err && is_unrecognized_name(r->Err_0, "PageMode"@, s@),
    {
        if name_is(s, "UseNone") {
            return Ok(PageMode::UseNone);
        }
        if name_is(s, "UseOutlines") {
            return Ok(PageMode::UseOutlines);
        }
        if name_is(s, "UseThumbs") {
            return Ok(PageMode::UseThumbs);
        }
        if name_is(s, "FullScreen") {
            return Ok(PageMode::FullScreen);
        }
        if name_is(s, "UseOC") {
            return Ok(PageMode::UseOc);
        }
        if name_is(s, "UseAttachments") {
            return Ok(PageMode::UseAttachments);
        }
        Err(ParseError::UnrecognizedVariant { ty: "PageMode", name: s.to_owned() })
    }
}

impl Default for PageMode {
    fn default() -> (r: PageMode)
        ensures
            r == PageMode::UseNone,
    {
        PageMode::UseNone
    }
}

/// A range of pages to print: the first and the last page number
#[derive(Debug, Clone, Copy, PartialEq, Eq, Structural)]
pub struct PageRange {
    pub first: u32,
    pub last: u32,
}

/// The page ranges of the print dialog
#[derive(Debug, Clone)]
pub struct PageRanges(pub Vec<PageRange>);

impl PageRanges {
    /// The ranges that an array of page numbers gives, taken two at a time
    /// as first and last page; a last unpaired number is left out.
    pub fn from_integers(values: &[u32]) -> (r: PageRanges)
        ensures
            r.0@.len() == values@.len() / 2,
            forall|i: int|
                0 <= i < r.0@.len() ==> #[trigger] r.0@[i] == (PageRange {
                    first: values@[2 * i],
                    last: values@[2 * i + 1],
                }),
    {
        let mut ranges: Vec<PageRange> = Vec::new();
        let mut i: usize = 0;
        let len = values.len();
        let n = len / 2;
        while i < n
            invariant
                len == values@.len(),
                n == values@.len() / 2,
                i <= n,
                ranges@.len() == i,
                forall|j: int|
                    0 <= j < i ==> #[trigger] ranges@[j] == (PageRange {
                        first: values@[2 * j],
                        last: values@[2 * j + 1],
                    }),
            decreases n - i,
        {
            assert(2 * i + 1 < values@.len()) by (nonlinear_arith)
                requires
                    i < n,
                    n == len / 2,
                    len == values@.len(),
            ;
            ranges.push(PageRange { first: values[2 * i], last: values[2 * i + 1] });
            i = i + 1;
        }
        PageRanges(ranges)
    }
}

/// The viewer preferences of a document: how its window and its pages are
/// presented on screen and when printed
#[derive(Debug)]
pub struct ViewerPreferences {
    /// Whether to hide the reader's tool bars (default false)
    pub hide_toolbar: bool,
    /// Whether to hide the reader's menu bar (default false)
    pub hide_menubar: bool,
    /// Whether to hide user interface elements in the document's window
    /// (default false)
    pub hide_window_ui: bool,
    /// Whether to resize the window to fit the first page (default false)
    pub fit_window: bool,
    /// Whether to center the window on the screen (default false)
    pub center_window: bool,
    /// Whether the title bar shows the document title rather than the file
    /// name (default false)
    pub display_doc_title: bool,
    /// The page mode on leaving full-screen mode (default UseNone)
    pub non_full_screen_page_mode: PageMode,
    /// The predominant reading order of text (default L2R)
    pub direction: TextDirection,
    /// The page boundary shown on screen (default CropBox)
    pub view_area: PageBoundary,
    /// The page boundary the view is clipped to (default CropBox)
    pub view_clip: PageBoundary,
    /// The page boundary printed (default CropBox)
    pub print_area: PageBoundary,
    /// The page boundary printing is clipped to (default CropBox)
    pub print_clip: PageBoundary,
    /// The page scaling option of the print dialog (default AppDefault)
    pub print_scaling: PageScaling,
    /// The paper handling option for printing
    pub duplex: Option<Duplex>,
    /// Whether the paper tray is chosen by the page size
    pub pick_tray_by_pdf_size: bool,
    /// The page ranges to print
    pub print_page_range: Option<PageRanges>,
    /// The number of copies to print
    pub num_copies: Option<u32>,
}

/// The name of each variant of `TextDirection`; no other name denotes one.
pub proof fn lemma_text_direction_names()
    ensures
        spec_text_direction("L2R"@) == Some(TextDirection::LeftToRight),
        spec_text_direction("R2L"@) == Some(TextDirection::RightToLeft),
        forall|s: Seq<char>| #[trigger] spec_text_direction(s) is Some ==> s == "L2R"@ || s == "R2L"@,
{
    reveal_strlit("L2R");
    reveal_strlit("R2L");
    assert("L2R"@[0] != "R2L"@[0]);
}

/// The name of each variant of `PageScaling`; no other name denotes one.
pub proof fn lemma_page_scaling_names()
    ensures
        spec_page_scaling("AppDefault"@) == Some(PageScaling::AppDefault),
        spec_page_scaling("None"@) == Some(PageScaling::NoScaling),
        forall|s: Seq<char>| #[trigger] spec_page_scaling(s) is Some ==> s == "AppDefault"@ || s == "None"@,
{
    reveal_strlit("AppDefault");
    reveal_strlit("None");
    assert("AppDefault"@.len() != "None"@.len());
}

/// The name of each variant of `Duplex`; no other name denotes one.
pub proof fn lemma_duplex_names()
    ensures
        spec_duplex("Simplex"@) == Some(Duplex::Simplex),
        spec_duplex("DuplexFlipShortEdge"@) == Some(Duplex::DuplexFlipShortEdge),
        spec_duplex("DuplexFlipLongEdge"@) == Some(Duplex::DuplexFlipLongEdge),
        forall|s: Seq<char>| #[trigger] spec_duplex(s) is Some ==> s == "Simplex"@ || s == "DuplexFlipShortEdge"@ || s == "DuplexFlipLongEdge"@,
{
    reveal_strlit("Simplex");
    reveal_strlit("DuplexFlipShortEdge");
    reveal_strlit("DuplexFlipLongEdge");
    assert("Simplex"@.len() != "DuplexFlipShortEdge"@.len());
    assert("Simplex"@.len() != "DuplexFlipLongEdge"@.len());
    assert("DuplexFlipShortEdge"@.len() != "DuplexFlipLongEdge"@.len());
}

/// The name of each variant of `PageBoundary`; no other name denotes one.
pub proof fn lemma_page_boundary_names()
    ensures
        spec_page_boundary("MediaBox"@) == Some(PageBoundary::MediaBox),
        spec_page_boundary("CropBox"@) == Some(PageBoundary::CropBox),
        spec_page_boundary("BleedBox"@) == Some(PageBoundary::BleedBox),
        spec_page_boundary("TrimBox"@) == Some(PageBoundary::TrimBox),
        spec_page_boundary("ArtBox"@) == Some(PageBoundary::ArtBox),
        forall|s: Seq<char>| #[trigger] spec_page_boundary(s) is Some ==> s == "MediaBox"@ || s == "CropBox"@ || s == "BleedBox"@ || s == "TrimBox"@ || s == "ArtBox"@,
{
    reveal_strlit("MediaBox");
    reveal_strlit("CropBox");
    reveal_strlit("BleedBox");
    reveal_strlit("TrimBox");
    reveal_strlit("ArtBox");
    assert("MediaBox"@.len() != "CropBox"@.len());
    assert("MediaBox"@[0] != "BleedBox"@[0]);
    assert("MediaBox"@.len() != "TrimBox"@.len());
    assert("MediaBox"@.len() != "ArtBox"@.len());
    assert("CropBox"@.len() != "BleedBox"@.len());
    assert("CropBox"@[0] != "TrimBox"@[0]);
    assert("CropBox"@.len() != "ArtBox"@.len());
    assert("BleedBox"@.len() != "TrimBox"@.len());
    assert("BleedBox"@.len() != "ArtBox"@.len());
    assert("TrimBox"@.len() != "ArtBox"@.len());
}

/// The name of each variant of `PageMode`; no other name denotes one.
pub proof fn lemma_page_mode_names()
    ensures
        spec_page_mode("UseNone"@) == Some(PageMode::UseNone),
        spec_page_mode("UseOutlines"@) == Some(PageMode::UseOutlines),
        spec_page_mode("UseThumbs"@) == Some(PageMode::UseThumbs),
        spec_page_mode("FullScreen"@) == Some(PageMode::FullScreen),
        spec_page_mode("UseOC"@) == Some(PageMode::UseOc),
        spec_page_mode("UseAttachments"@) == Some(PageMode::UseAttachments),
        forall|s: Seq<char>| #[trigger] spec_page_mode(s) is Some ==> s == "UseNone"@ || s == "UseOutlines"@ || s == "UseThumbs"@ || s == "FullScreen"@ || s == "UseOC"@ || s == "UseAttachments"@,
{
    reveal_strlit("UseNone");
    reveal_strlit("UseOutlines");
    reveal_strlit("UseThumbs");
    reveal_strlit("FullScreen");
    reveal_strlit("UseOC");
    reveal_strlit("UseAttachments");
    assert("UseNone"@.len() != "UseOutlines"@.len());
    assert("UseNone"@.len() != "UseThumbs"@.len());
    assert("UseNone"@.len() != "FullScreen"@.len());
    assert("UseNone"@.len() != "UseOC"@.len());
    assert("UseNone"@.len() != "UseAttachments"@.len());
    assert("UseOutlines"@.len() != "UseThumbs"@.len());
    assert("UseOutlines"@.len() != "FullScreen"@.len());
    assert("UseOutlines"@.len() != "UseOC"@.len());
    assert("UseOutlines"@.len() != "UseAttachments"@.len());
    assert("UseThumbs"@.len() != "FullScreen"@.len());
    assert("UseThumbs"@.len() != "UseOC"@.len());
    assert("UseThumbs"@.len() != "UseAttachments"@.len());
    assert("FullScreen"@.len() != "UseOC"@.len());
    assert("FullScreen"@.len() != "UseAttachments"@.len());
    assert("UseOC"@.len() != "UseAttachments"@.len());
}

} // verus!
